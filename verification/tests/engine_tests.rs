use nur::engine::{
    apply_nur_state_env, finalise_nur_state_env, find_task_name, list_task_names,
    nur_record_entries, parse_nu_script,
};
use nur::errors::NurError;
use nur::state::NurState;
use nu_protocol::engine::EngineState;

fn engine_with_defs(defs: &[&str]) -> EngineState {
    let mut engine_state = nu_cmd_lang::create_default_context();
    for def in defs {
        let src = String::from(*def);
        parse_nu_script(&mut engine_state, None, &src).unwrap();
    }
    engine_state
}

fn state_for(args: Vec<&str>) -> NurState {
    let dir = String::from("/tmp/nur-engine-test");
    let marked = vec![dir.clone()];
    let args: Vec<String> = args.into_iter().map(String::from).collect();
    NurState::new(dir, &marked, args).unwrap()
}

#[test]
fn test_nur_engine_will_set_task_name() {
    let engine_state = engine_with_defs(&["def \"nur some-task\" [] {}"]);
    let mut state = state_for(vec!["nur", "some-task", "sub-task"]);

    let found = find_task_name(&mut state, &engine_state);

    assert_eq!(found, Some(2));
    assert!(state.task_name.is_some());
    assert!(state.task_name.clone().unwrap() == "nur some-task");
    assert!(state.get_short_task_name() == "some-task");
}

#[test]
fn test_nur_engine_will_check_task_name_exists() {
    let engine_state = engine_with_defs(&[]);
    let mut state = state_for(vec!["nur", "some-task", "sub-task"]);

    let found = find_task_name(&mut state, &engine_state);

    assert_eq!(found, None);
    assert!(state.task_name.is_none());
}

#[test]
fn test_nur_engine_will_allow_sub_tasks() {
    let engine_state = engine_with_defs(&["def \"nur some-task sub-task\" [] {}"]);
    let mut state = state_for(vec!["nur", "some-task", "sub-task"]);

    let found = find_task_name(&mut state, &engine_state);

    assert_eq!(found, Some(3));
    assert!(state.task_name.is_some());
    assert!(state.task_name.clone().unwrap() == "nur some-task sub-task");
    assert!(state.get_short_task_name() == "some-task sub-task");
}

#[test]
fn test_task_resolution_is_greedy() {
    // With both a task and a longer sub-task declared, the longer one
    // wins, and later tokens stay task arguments.
    let engine_state =
        engine_with_defs(&["def \"nur build\" [] {}", "def \"nur build release\" [] {}"]);
    let mut state = state_for(vec!["nur", "build", "release", "--flag"]);

    let found = find_task_name(&mut state, &engine_state);

    assert_eq!(found, Some(3));
    assert_eq!(state.task_name.clone().unwrap(), "nur build release");

    let command = nur::execute::build_task_run_command(&state.task_call, 3);
    assert_eq!(command, String::from("nur build release --flag"));
}

#[test]
fn test_task_resolution_stops_at_unsafe_token() {
    // The second token is unsafe, so no prefix that includes it is ever
    // looked up, even though such a name is declared.
    let engine_state = engine_with_defs(&["def \"nur build\" [] {}"]);
    let dir = String::from("/tmp/nur-engine-test");
    let mut state = NurState::new(
        dir.clone(),
        &vec![dir],
        vec![
            String::from("nur"),
            String::from("build"),
            String::from("two words"),
        ],
    )
    .unwrap();

    let found = find_task_name(&mut state, &engine_state);

    assert_eq!(found, Some(2));
    assert_eq!(state.task_name.clone().unwrap(), "nur build");
}

#[test]
fn test_list_task_names_is_sorted_and_exact() {
    let engine_state = engine_with_defs(&[
        "def \"nur zeta\" [] {}",
        "def \"nur alpha\" [] {}",
        "def \"nur alpha inner\" [] {}",
        "def unrelated [] {}",
    ]);

    let listed = list_task_names(&engine_state);

    assert_eq!(
        listed,
        vec![
            String::from("alpha"),
            String::from("alpha inner"),
            String::from("zeta")
        ]
    );
}

#[test]
fn test_parse_nu_script_reports_errors() {
    let mut engine_state = nu_cmd_lang::create_default_context();
    let src = String::from("def ] broken");
    match parse_nu_script(&mut engine_state, None, &src) {
        Err(NurError::ParseErrors(msgs)) => assert!(!msgs.is_empty()),
        _ => panic!("expected ParseErrors"),
    }
}

#[test]
fn test_nur_engine_will_set_env() {
    let mut engine_state = nu_cmd_lang::create_default_context();
    let mut state = state_for(vec!["nur", "some-task"]);
    state.task_name = Some(String::from("nur some-task"));

    apply_nur_state_env(&mut engine_state, &state);
    finalise_nur_state_env(&mut engine_state, &state);

    let env_text = |name: &str| -> String {
        engine_state
            .get_env_var(name)
            .expect(name)
            .coerce_string()
            .expect(name)
    };
    assert_eq!(env_text("NUR_VERSION"), String::from("0.1.0"));
    assert_eq!(env_text("NU_LIB_DIRS"), state.lib_dir_path);
    assert_eq!(env_text("NUR_TASK_CALL"), String::from("nur some-task"));
    assert_eq!(env_text("NUR_TASK_NAME"), String::from("some-task"));
}

#[test]
fn test_parse_failure_changes_nothing() {
    // A failed parse is fatal and short-circuits: the declaration table
    // it leaves behind is the one it found.
    let mut engine_state = engine_with_defs(&["def \"nur a\" [] {}"]);
    let bad = String::from("def ] broken");
    assert!(parse_nu_script(&mut engine_state, None, &bad).is_err());
    assert!(nur::engine::has_def(&engine_state, &String::from("nur a")));
    assert_eq!(list_task_names(&engine_state), vec![String::from("a")]);
}

#[test]
fn test_nur_record_entries() {
    let state = state_for(vec!["nur", "some-task", "arg"]);
    let entries = nur_record_entries(&state);
    let keys: Vec<String> = entries.iter().map(|e| e.0.clone()).collect();
    assert_eq!(
        keys,
        vec![
            String::from("run-path"),
            String::from("project-path"),
            String::from("task-name"),
            String::from("config-dir"),
            String::from("default-lib-dir")
        ]
    );
    assert_eq!(entries[2].1, String::from("some-task"));
}

#[test]
fn test_escaping_quotes_task_arguments() {
    // An argument with a space must come back quoted: the command line is
    // re-parsed by the engine.
    let task_call = vec![
        String::from("nur"),
        String::from("deploy"),
        String::from("two words"),
    ];
    let command = nur::execute::build_task_run_command(&task_call, 2);
    assert_eq!(command, String::from("nur deploy \"two words\""));
}

#[test]
fn test_has_def_sees_declarations() {
    let engine_state = engine_with_defs(&["def \"nur build\" [] {}"]);
    assert!(nur::engine::has_def(
        &engine_state,
        &String::from("nur build")
    ));
    assert!(!nur::engine::has_def(
        &engine_state,
        &String::from("nur missing")
    ));
}
