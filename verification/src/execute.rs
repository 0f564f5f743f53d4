//! Executing a resolved invocation: building the command line that is
//! handed back to the engine (with argument tokens escaped), deciding
//! what one invocation of the runner does, and mapping evaluation
//! outcomes to process exit codes.

use vstd::prelude::*;
use crate::args::NurArgs;
use crate::errors::{NurError, NurResult};
use crate::state::NurState;
use crate::text::{join_space, join_with_space};

verus! {

/// What `nu_parser::escape_for_script_arg` makes of an argument token: a
/// function of the token's text alone.
pub uninterp spec fn escaped_arg_of(s: Seq<char>) -> Seq<char>;

/// Relies on `nu_parser::escape_for_script_arg`: it quotes and escapes an
/// argument token as needed for splicing into re-parsed source, and its
/// result depends on the token's text alone.
#[verifier::external_body]
fn escape_script_arg(arg: &String) -> (r: String)
    ensures
        r@ == escaped_arg_of(arg@),
{
    nu_parser::escape_for_script_arg(arg.as_str())
}

/// The line that runs the task: the resolved name's own tokens verbatim,
/// every later token escaped, all joined with single spaces.
pub open spec fn run_command_spec(tc: Seq<Seq<char>>, k: int) -> Seq<char> {
    join_with_space(tc.subrange(0, k) + tc.skip(k).map_values(|t: Seq<char>| escaped_arg_of(t)))
}

/// Builds the line that runs the task, given how many leading tokens of
/// the task call form the resolved name: those are spliced verbatim, the
/// remaining tokens are each escaped first.
pub fn build_task_run_command(task_call: &Vec<String>, resolved: usize) -> (r: String)
    requires
        resolved <= task_call@.len(),
    ensures
        r@ == run_command_spec(task_call@.map_values(|t: String| t@), resolved as int),
{
    let ghost tc = task_call@.map_values(|t: String| t@);
    let ghost target = tc.subrange(0, resolved as int) + tc.skip(resolved as int).map_values(
        |t: Seq<char>| escaped_arg_of(t),
    );
    let mut toks: Vec<String> = Vec::new();
    let mut i: usize = 0;
    while i < resolved
        invariant
            0 <= i <= resolved,
            resolved <= task_call@.len(),
            tc == task_call@.map_values(|t: String| t@),
            tc.len() == task_call@.len(),
            target == tc.subrange(0, resolved as int) + tc.skip(resolved as int).map_values(
                |t: Seq<char>| escaped_arg_of(t),
            ),
            target.len() == tc.len(),
            toks@.map_values(|t: String| t@) == target.subrange(0, i as int),
        decreases resolved - i,
    {
        let ghost old_toks = toks@;
        toks.push(task_call[i].clone());
        proof {
            crate::text::lemma_view_push(old_toks, task_call@[i as int]);
            assert(target[i as int] == tc[i as int]);
            assert(toks@.map_values(|t: String| t@) =~= target.subrange(0, i + 1));
        }
        i = i + 1;
    }
    while i < task_call.len()
        invariant
            resolved <= i <= task_call@.len(),
            tc == task_call@.map_values(|t: String| t@),
            tc.len() == task_call@.len(),
            target == tc.subrange(0, resolved as int) + tc.skip(resolved as int).map_values(
                |t: Seq<char>| escaped_arg_of(t),
            ),
            target.len() == tc.len(),
            toks@.map_values(|t: String| t@) == target.subrange(0, i as int),
        decreases task_call@.len() - i,
    {
        let ghost old_toks = toks@;
        let escaped = escape_script_arg(&task_call[i]);
        let ghost escaped_view = escaped@;
        toks.push(escaped);
        proof {
            crate::text::lemma_view_push(old_toks, toks@[old_toks.len() as int]);
            assert(target[i as int] == escaped_arg_of(tc[i as int]));
            assert(escaped_view == escaped_arg_of(tc[i as int]));
            assert(toks@.map_values(|t: String| t@) =~= target.subrange(0, i + 1));
        }
        i = i + 1;
    }
    assert(target.subrange(0, target.len() as int) =~= target);
    let r = join_space(&toks);
    r
}

/// Whether a script source is worth handing to the engine at all: an
/// empty source evaluates to success without being parsed.
pub fn nonempty_source(contents: &String) -> (r: bool)
    ensures
        r == (contents@.len() > 0),
{
    !contents.as_str().is_empty()
}

/// What an evaluation reported back, as plain data.
#[derive(Debug, Clone, PartialEq, Eq, Structural)]
pub enum EvalOutcome {
    /// The pipeline drained or printed without error.
    Success,
    /// The engine reported an explicit non-zero exit code.
    NonZeroExit(i32),
    /// Any other runtime error.
    Failed,
}

/// The exit code the process reports for an evaluation outcome: the
/// task's own explicit exit code when it gave one, `0` on success, and
/// `1` for any other runtime error.
pub fn eval_exit_code(outcome: &EvalOutcome) -> (r: i32)
    ensures
        *outcome matches EvalOutcome::NonZeroExit(c) ==> r == c,
        *outcome == EvalOutcome::Success ==> r == 0,
        *outcome == EvalOutcome::Failed ==> r == 1,
{
    match outcome {
        EvalOutcome::Success => 0,
        EvalOutcome::NonZeroExit(c) => *c,
        EvalOutcome::Failed => 1,
    }
}

/// What to do before any file is loaded.
pub enum PreflightAction {
    /// A project was found: go on to load it.
    Proceed,
    /// No project, but help was asked for: show it and exit cleanly.
    ShowHelpAndExit,
}

/// Decides whether loading may begin: without a project there is nothing
/// to run, so only a help request lets the process end cleanly.
pub fn preflight(has_project_path: bool, show_help: bool) -> (r: NurResult<PreflightAction>)
    ensures
        has_project_path ==> r matches Ok(PreflightAction::Proceed),
        !has_project_path && show_help ==> r matches Ok(PreflightAction::ShowHelpAndExit),
        !has_project_path && !show_help ==> (r matches Err(e) && e is NurfileNotFound),
{
    if has_project_path {
        Ok(PreflightAction::Proceed)
    } else if show_help {
        Ok(PreflightAction::ShowHelpAndExit)
    } else {
        Err(NurError::NurfileNotFound())
    }
}

/// What one invocation of the runner does after loading and resolution.
pub enum RunMode {
    /// Print the runner's version and exit cleanly.
    ShowVersion,
    /// Print the runner's help and exit with this code.
    ShowHelp(i32),
    /// Print the resolved task's help and exit cleanly.
    ShowTaskHelp(String),
    /// List the declared task names and exit cleanly.
    ListTasks,
    /// Enter the interactive shell.
    EnterShell,
    /// Evaluate the source handed to the value-taking runner flag.
    RunCommands(String),
    /// Evaluate the resolved task call.
    RunTask(String),
}

/// Decides what this invocation does, in the runner's fixed order:
/// version, task listing, bare help, help for a task, the checks against
/// senseless combinations, then the one thing to execute.  `resolved`
/// carries how many task-call tokens the resolved name has, exactly when
/// resolution set a task name.
pub fn plan_invocation(state: &NurState, args: &NurArgs, resolved: Option<usize>) -> (r: NurResult<
    RunMode,
>)
    requires
        state.task_name is Some <==> resolved is Some,
        resolved matches Some(k) ==> 2 <= k <= state.task_call@.len(),
    ensures
        ({
            let tc = state.task_call@.map_values(|t: String| t@);
            if args.show_version {
                r matches Ok(RunMode::ShowVersion)
            } else if args.list_tasks {
                r matches Ok(RunMode::ListTasks)
            } else if !state.has_task_call && args.run_commands is None && !args.enter_shell {
                r matches Ok(RunMode::ShowHelp(c)) && c == (if args.show_help {
                    0int
                } else {
                    1int
                })
            } else if args.show_help && !state.has_task_call {
                r matches Ok(RunMode::ShowHelp(c)) && c == 0
            } else if args.show_help && state.task_name is Some {
                r matches Ok(RunMode::ShowTaskHelp(n)) && n@ == state.task_name->0@
            } else if args.show_help {
                r matches Err(e) && (e matches NurError::TaskNotFound(n) && n@ == join_with_space(
                    tc,
                ))
            } else if state.has_task_call && args.run_commands is Some {
                r matches Err(e) && e is InvalidNurCall
            } else if state.has_task_call && args.enter_shell {
                r matches Err(e) && e is InvalidNurCall
            } else if args.run_commands is Some && args.enter_shell {
                r matches Err(e) && e is InvalidNurCall
            } else if state.has_task_call && state.task_name is None {
                r matches Err(e) && (e matches NurError::TaskNotFound(n) && n@ == join_with_space(
                    tc,
                ))
            } else if args.enter_shell {
                r matches Ok(RunMode::EnterShell)
            } else if args.run_commands is Some {
                r matches Ok(RunMode::RunCommands(c)) && c@ == args.run_commands->0@
            } else {
                r matches Ok(RunMode::RunTask(c)) && c@ == run_command_spec(
                    tc,
                    resolved->0 as int,
                )
            }
        }),
{
    let ghost tc = state.task_call@.map_values(|t: String| t@);
    if args.show_version {
        return Ok(RunMode::ShowVersion);
    }
    if args.list_tasks {
        return Ok(RunMode::ListTasks);
    }
    if !state.has_task_call && args.run_commands.is_none() && !args.enter_shell {
        return Ok(RunMode::ShowHelp(if args.show_help {
            0
        } else {
            1
        }));
    }
    if args.show_help {
        if !state.has_task_call {
            return Ok(RunMode::ShowHelp(0));
        }
        return match &state.task_name {
            Some(n) => Ok(RunMode::ShowTaskHelp(n.clone())),
            None => Err(NurError::TaskNotFound(join_space(&state.task_call))),
        };
    }
    if state.has_task_call && args.run_commands.is_some() {
        return Err(
            NurError::InvalidNurCall(
                String::from_str("task call"),
                String::from_str("--commands/-c"),
            ),
        );
    }
    if state.has_task_call && args.enter_shell {
        return Err(
            NurError::InvalidNurCall(
                String::from_str("task call"),
                String::from_str("--enter-shell"),
            ),
        );
    }
    if args.run_commands.is_some() && args.enter_shell {
        return Err(
            NurError::InvalidNurCall(
                String::from_str("--commands/-c"),
                String::from_str("--enter-shell"),
            ),
        );
    }
    if state.has_task_call && state.task_name.is_none() {
        return Err(NurError::TaskNotFound(join_space(&state.task_call)));
    }
    if args.enter_shell {
        return Ok(RunMode::EnterShell);
    }
    match &args.run_commands {
        Some(c) => Ok(RunMode::RunCommands(c.clone())),
        None => {
            let k = match resolved {
                Some(k) => k,
                None => {
                    proof {
                        assert(false);
                    }
                    unreached()
                },
            };
            Ok(RunMode::RunTask(build_task_run_command(&state.task_call, k)))
        },
    }
}

} // verus!
