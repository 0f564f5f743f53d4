use nur::scripts::{
    config_script_to_eval, env_script_to_eval, get_default_nur_config, get_default_nur_env,
    taskfile_sources,
};

#[test]
fn test_env_fallback_evaluates_default() {
    // An absent env file means the built-in default is evaluated: the
    // evaluated text is exactly the default script's text.
    assert_eq!(env_script_to_eval(None), String::from(get_default_nur_env()));
    assert_eq!(
        env_script_to_eval(Some(String::from(get_default_nur_env()))),
        env_script_to_eval(None)
    );
}

#[test]
fn test_config_fallback_evaluates_default() {
    assert_eq!(
        config_script_to_eval(None),
        String::from(get_default_nur_config())
    );
    assert_eq!(
        config_script_to_eval(Some(String::from(get_default_nur_config()))),
        config_script_to_eval(None)
    );
}

#[test]
fn test_present_file_wins_over_default() {
    let content = String::from("def env-command [] {}");
    assert_eq!(env_script_to_eval(Some(content.clone())), content);
    assert_eq!(config_script_to_eval(Some(content.clone())), content);
}

#[test]
fn test_taskfile_sources_keeps_order_and_skips_absent() {
    let global = String::from("def \"nur a\" [] {}");
    let local = String::from("def \"nur b\" [] {}");
    assert_eq!(
        taskfile_sources(Some(global.clone()), Some(local.clone())),
        vec![global.clone(), local.clone()]
    );
    assert_eq!(
        taskfile_sources(None, Some(local.clone())),
        vec![local.clone()]
    );
    assert_eq!(
        taskfile_sources(Some(global.clone()), None),
        vec![global.clone()]
    );
    assert_eq!(taskfile_sources(None, None), vec![] as Vec<String>);
}
