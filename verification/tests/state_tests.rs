use nur::state::NurState;

#[test]
fn test_nur_state_with_project_path() {
    let dir = String::from("/tmp/nur-state-test");
    let marked = vec![dir.clone()];

    let args = vec![
        String::from("nur"),
        String::from("--quiet"),
        String::from("some_task"),
        String::from("task_arg"),
    ];
    let state = NurState::new(dir.clone(), &marked, args).unwrap();

    assert_eq!(state.run_path, dir);
    assert_eq!(state.project_path, dir);
    assert_eq!(state.has_project_path, true);

    assert_eq!(state.config_dir, format!("{}/.nur", dir));
    assert_eq!(state.lib_dir_path, format!("{}/.nur/scripts", dir));
    assert_eq!(state.env_path, format!("{}/.nur/env.nu", dir));
    assert_eq!(state.config_path, format!("{}/.nur/config.nu", dir));

    assert_eq!(state.nurfile_path, format!("{}/nurfile", dir));
    assert_eq!(state.local_nurfile_path, format!("{}/nurfile.local", dir));

    assert_eq!(
        state.args_to_nur,
        vec![String::from("nur"), String::from("--quiet")]
    );
    assert_eq!(state.has_task_call, true);
    assert_eq!(
        state.task_call,
        vec![
            String::from("nur"),
            String::from("some_task"),
            String::from("task_arg")
        ]
    );
    assert!(state.task_name.is_none());
}

#[test]
fn test_nur_state_without_project_path() {
    let dir = String::from("/tmp/nur-state-test");
    let marked: Vec<String> = vec![];

    let args = vec![
        String::from("nur"),
        String::from("--quiet"),
        String::from("some_task"),
        String::from("task_arg"),
    ];
    let state = NurState::new(dir.clone(), &marked, args).unwrap();

    assert_eq!(state.run_path, dir);
    assert_eq!(state.project_path, dir); // same as run_path, as this is the fallback
    assert_eq!(state.has_project_path, false);

    assert_eq!(state.config_dir, format!("{}/.nur", dir));
    assert_eq!(state.lib_dir_path, format!("{}/.nur/scripts", dir));
    assert_eq!(state.env_path, format!("{}/.nur/env.nu", dir));
    assert_eq!(state.config_path, format!("{}/.nur/config.nu", dir));

    assert_eq!(state.nurfile_path, format!("{}/nurfile", dir));
    assert_eq!(state.local_nurfile_path, format!("{}/nurfile.local", dir));

    assert_eq!(
        state.args_to_nur,
        vec![String::from("nur"), String::from("--quiet")]
    );
    assert_eq!(state.has_task_call, true);
    assert_eq!(
        state.task_call,
        vec![
            String::from("nur"),
            String::from("some_task"),
            String::from("task_arg")
        ]
    );
}

#[test]
fn test_nur_state_without_task() {
    let dir = String::from("/tmp/nur-state-test");
    let marked: Vec<String> = vec![];

    let args = vec![String::from("nur"), String::from("--help")];
    let state = NurState::new(dir.clone(), &marked, args).unwrap();

    assert_eq!(state.run_path, dir);
    assert_eq!(state.project_path, dir); // same as run_path, as this is the fallback
    assert_eq!(state.has_project_path, false);

    assert_eq!(state.config_dir, format!("{}/.nur", dir));
    assert_eq!(state.lib_dir_path, format!("{}/.nur/scripts", dir));
    assert_eq!(state.env_path, format!("{}/.nur/env.nu", dir));
    assert_eq!(state.config_path, format!("{}/.nur/config.nu", dir));

    assert_eq!(state.nurfile_path, format!("{}/nurfile", dir));
    assert_eq!(state.local_nurfile_path, format!("{}/nurfile.local", dir));

    assert_eq!(
        state.args_to_nur,
        vec![String::from("nur"), String::from("--help")]
    );
    assert_eq!(state.has_task_call, false);
    assert_eq!(state.task_call, vec![] as Vec<String>);
}

#[test]
fn test_get_short_task_name() {
    let dir = String::from("/tmp/nur-state-test");
    let args = vec![String::from("nur"), String::from("some_task")];
    let mut state = NurState::new(dir, &vec![], args).unwrap();
    state.task_name = Some(String::from("nur some_task"));
    assert_eq!(state.get_short_task_name(), String::from("some_task"));
}
