use nur::args::NurArgs;
use nur::errors::NurError;
use nur::execute::{
    build_task_run_command, eval_exit_code, plan_invocation, preflight, EvalOutcome,
    PreflightAction, RunMode,
};
use nur::state::NurState;
use nur::NewEmpty;

fn state_with_task(task_tokens: Vec<&str>) -> NurState {
    let dir = String::from("/tmp/nur-exec-test");
    let marked = vec![dir.clone()];
    let args: Vec<String> = task_tokens.into_iter().map(String::from).collect();
    NurState::new(dir, &marked, args).unwrap()
}

#[test]
fn test_eval_exit_code_propagates_task_exit() {
    assert_eq!(eval_exit_code(&EvalOutcome::NonZeroExit(3)), 3);
    assert_eq!(eval_exit_code(&EvalOutcome::NonZeroExit(42)), 42);
    assert_eq!(eval_exit_code(&EvalOutcome::Success), 0);
    assert_eq!(eval_exit_code(&EvalOutcome::Failed), 1);
}

#[test]
fn test_preflight() {
    assert!(matches!(preflight(true, false), Ok(PreflightAction::Proceed)));
    assert!(matches!(preflight(true, true), Ok(PreflightAction::Proceed)));
    assert!(matches!(
        preflight(false, true),
        Ok(PreflightAction::ShowHelpAndExit)
    ));
    assert!(matches!(
        preflight(false, false),
        Err(NurError::NurfileNotFound())
    ));
}

#[test]
fn test_plan_list_bypasses_resolution() {
    // Listing never needs a resolved task: it is chosen before resolution
    // is even consulted.
    let state = state_with_task(vec!["nur", "unknown-task"]);
    let mut args = NurArgs::new_empty();
    args.list_tasks = true;
    let mode = plan_invocation(&state, &args, None).unwrap();
    assert!(matches!(mode, RunMode::ListTasks));
}

#[test]
fn test_plan_version() {
    let state = state_with_task(vec!["nur"]);
    let mut args = NurArgs::new_empty();
    args.show_version = true;
    assert!(matches!(
        plan_invocation(&state, &args, None).unwrap(),
        RunMode::ShowVersion
    ));
}

#[test]
fn test_plan_help_exit_codes() {
    // Without a task call, plain invocation shows help and fails; asking
    // for help shows it and succeeds.
    let state = state_with_task(vec!["nur"]);
    let args = NurArgs::new_empty();
    assert!(matches!(
        plan_invocation(&state, &args, None).unwrap(),
        RunMode::ShowHelp(1)
    ));
    let mut args = NurArgs::new_empty();
    args.show_help = true;
    assert!(matches!(
        plan_invocation(&state, &args, None).unwrap(),
        RunMode::ShowHelp(0)
    ));
}

#[test]
fn test_plan_help_for_resolved_task() {
    let mut state = state_with_task(vec!["nur", "build"]);
    state.task_name = Some(String::from("nur build"));
    let mut args = NurArgs::new_empty();
    args.show_help = true;
    match plan_invocation(&state, &args, Some(2)).unwrap() {
        RunMode::ShowTaskHelp(name) => assert_eq!(name, String::from("nur build")),
        _ => panic!("expected ShowTaskHelp"),
    }
}

#[test]
fn test_plan_rejects_task_call_with_commands() {
    let state = state_with_task(vec!["nur", "build"]);
    let mut args = NurArgs::new_empty();
    args.run_commands = Some(String::from("echo hi"));
    assert!(matches!(
        plan_invocation(&state, &args, None),
        Err(NurError::InvalidNurCall(_, _))
    ));
}

#[test]
fn test_plan_rejects_task_call_with_enter_shell() {
    let state = state_with_task(vec!["nur", "build"]);
    let mut args = NurArgs::new_empty();
    args.enter_shell = true;
    assert!(matches!(
        plan_invocation(&state, &args, None),
        Err(NurError::InvalidNurCall(_, _))
    ));
}

#[test]
fn test_plan_rejects_commands_with_enter_shell() {
    let state = state_with_task(vec!["nur"]);
    let mut args = NurArgs::new_empty();
    args.run_commands = Some(String::from("echo hi"));
    args.enter_shell = true;
    assert!(matches!(
        plan_invocation(&state, &args, None),
        Err(NurError::InvalidNurCall(_, _))
    ));
}

#[test]
fn test_plan_unresolved_task_is_not_found() {
    let state = state_with_task(vec!["nur", "ghost-task", "arg"]);
    let args = NurArgs::new_empty();
    match plan_invocation(&state, &args, None) {
        Err(NurError::TaskNotFound(n)) => assert_eq!(n, String::from("nur ghost-task arg")),
        _ => panic!("expected TaskNotFound"),
    }
}

#[test]
fn test_plan_runs_resolved_task() {
    let mut state = state_with_task(vec!["nur", "build", "--release"]);
    state.task_name = Some(String::from("nur build"));
    let args = NurArgs::new_empty();
    match plan_invocation(&state, &args, Some(2)).unwrap() {
        RunMode::RunTask(cmd) => assert_eq!(cmd, String::from("nur build --release")),
        _ => panic!("expected RunTask"),
    }
}

#[test]
fn test_plan_runs_commands() {
    let state = state_with_task(vec!["nur"]);
    let mut args = NurArgs::new_empty();
    args.run_commands = Some(String::from("echo hi"));
    match plan_invocation(&state, &args, None).unwrap() {
        RunMode::RunCommands(src) => assert_eq!(src, String::from("echo hi")),
        _ => panic!("expected RunCommands"),
    }
}

#[test]
fn test_plan_enter_shell() {
    let state = state_with_task(vec!["nur"]);
    let mut args = NurArgs::new_empty();
    args.enter_shell = true;
    assert!(matches!(
        plan_invocation(&state, &args, None).unwrap(),
        RunMode::EnterShell
    ));
}

#[test]
fn test_build_task_run_command_escapes_only_arguments() {
    let task_call = vec![
        String::from("nur"),
        String::from("build"),
        String::from("plain"),
        String::from("$var"),
    ];
    let cmd = build_task_run_command(&task_call, 2);
    assert_eq!(cmd, String::from("nur build plain \"$var\""));
}

#[test]
fn test_new_empty_args() {
    let args: NurArgs = NewEmpty::empty();
    assert!(!args.list_tasks && !args.quiet_execution && !args.attach_stdin);
    assert!(!args.show_help && !args.show_version && !args.enter_shell);
    assert!(args.run_commands.is_none());
}

#[test]
fn test_error_messages_name_the_subject() {
    let e = NurError::TaskNotFound(String::from("nur build"));
    assert_eq!(e.message(), String::from("Could not find the task nur build"));
    let e = NurError::InvalidTaskName(String::from("two words"));
    assert_eq!(e.message(), String::from("Invalid task name two words"));
    let e = NurError::IoError(String::from("denied"));
    assert_eq!(e.message(), String::from("IO Error denied"));
    let e = NurError::ShellError(String::from("broken pipe"));
    assert_eq!(e.message(), String::from("Shell Error broken pipe"));
    let e = NurError::InitError(String::from("no std"));
    assert_eq!(e.message(), String::from("Init nu error no std"));
    let e = NurError::NurfileNotFound();
    assert_eq!(
        e.message(),
        String::from("Could not find nurfile in path and parents")
    );
    let e = NurError::InvalidNurCall(String::from("task call"), String::from("--enter-shell"));
    assert_eq!(
        e.message(),
        String::from("Cannot combine task call with --enter-shell")
    );
    let e = NurError::EnteredShellError();
    assert_eq!(e.message(), String::from("Shell exited with an error"));
    let e = NurError::ParseErrors(vec![String::from("bad token")]);
    assert_eq!(e.message(), String::from("Parse errors in script"));
}

#[test]
fn test_task_arguments_keep_flag_shape() {
    // Tokens after the task are never re-parsed as runner flags; a flag
    // with an inner value needing quotes has only the value quoted.
    let task_call = vec![
        String::from("nur"),
        String::from("build"),
        String::from("--commands"),
        String::from("--version='xx yy'"),
    ];
    let cmd = build_task_run_command(&task_call, 2);
    assert_eq!(
        cmd,
        String::from("nur build --commands --version=\"'xx yy'\"")
    );
}

#[test]
fn test_plan_show_help_with_commands_and_no_task() {
    // Help wins over a command source when no task was called.
    let state = state_with_task(vec!["nur"]);
    let mut args = NurArgs::new_empty();
    args.show_help = true;
    args.run_commands = Some(String::from("echo hi"));
    assert!(matches!(
        plan_invocation(&state, &args, None).unwrap(),
        RunMode::ShowHelp(0)
    ));
}
