//! Splitting the command line into runner flags and a task invocation,
//! and the safe-task-name predicate that guards what may later be spliced
//! into engine source text.

use vstd::prelude::*;
use crate::errors::{NurError, NurResult};
use crate::text::str_eq;

verus! {

/// Characters that may not occur anywhere in a task name: they could alter
/// how the engine re-parses a line the name is spliced into.
pub open spec fn is_unsafe_char(c: char) -> bool {
    c == ' ' || c == '(' || c == '\'' || c == '`' || c == '"' || c == '\\' || c == '#' || c == '^'
}

/// A task name is safe when it does not start with `$` and contains none of
/// the characters that could alter parsing of spliced source text.
pub open spec fn safe_taskname(s: Seq<char>) -> bool {
    &&& !(s.len() > 0 && s[0] == '$')
    &&& forall|i: int| 0 <= i < s.len() ==> !is_unsafe_char(s[i])
}

/// Whether `name` may be used as a task name.
pub fn is_safe_taskname(name: &str) -> (r: bool)
    ensures
        r == safe_taskname(name@),
{
    let len = name.unicode_len();
    if len > 0 && name.get_char(0) == '$' {
        return false;
    }
    let mut i: usize = 0;
    while i < len
        invariant
            len == name@.len(),
            0 <= i <= len,
            forall|j: int| 0 <= j < i ==> !is_unsafe_char(name@[j]),
        decreases len - i,
    {
        let c = name.get_char(i);
        if c == ' ' || c == '(' || c == '\'' || c == '`' || c == '"' || c == '\\' || c == '#'
            || c == '^' {
            return false;
        }
        i = i + 1;
    }
    true
}

/// A token destined for the runner itself: it starts with `-`.
pub open spec fn is_flag_token(t: Seq<char>) -> bool {
    t.len() > 0 && t[0] == '-'
}

/// A runner flag that consumes the following token as its value.
pub open spec fn consumes_value(t: Seq<char>) -> bool {
    t == "--commands"@ || t == "-c"@
}

/// The index of the first token at or after `i` that begins a task call:
/// the first non-flag token that is not consumed as a flag value.
/// `None` when the scan runs off the end of `args`.
pub open spec fn task_start_from(args: Seq<Seq<char>>, i: int) -> Option<int>
    decreases args.len() + 2 - i,
{
    if i >= args.len() {
        None
    } else if !is_flag_token(args[i]) {
        Some(i)
    } else if consumes_value(args[i]) {
        task_start_from(args, i + 2)
    } else {
        task_start_from(args, i + 1)
    }
}

/// The tokens the runner keeps for itself when the task call starts at `k`:
/// the runner's name followed by every earlier token except the program name.
pub open spec fn runner_args_of(s: Seq<Seq<char>>, k: int) -> Seq<Seq<char>> {
    if 1 <= k <= s.len() {
        seq!["nur"@] + s.subrange(1, k)
    } else {
        seq!["nur"@]
    }
}

/// Splits the raw argument vector into the runner's own arguments and the
/// task invocation.  Tokens before the first non-flag token belong to the
/// runner (a value-consuming flag takes its companion token along); the
/// first non-flag token and everything after it form the task call,
/// verbatim.  The first task token must be a safe task name; nothing is
/// read or written anywhere in here.
pub fn gather_commandline_args(args: Vec<String>) -> (r: NurResult<
    (Vec<String>, bool, Vec<String>),
>)
    ensures
        ({
            let s = args@.map_values(|a: String| a@);
            match task_start_from(s, 1) {
                Some(k) => {
                    if safe_taskname(s[k]) {
                        &&& r is Ok
                        &&& r->Ok_0.0@.map_values(|a: String| a@) == runner_args_of(s, k)
                        &&& r->Ok_0.1 == true
                        &&& r->Ok_0.2@.map_values(|a: String| a@) == seq!["nur"@] + s.subrange(
                            k,
                            s.len() as int,
                        )
                    } else {
                        &&& r is Err
                        &&& r->Err_0 matches NurError::InvalidTaskName(t) && t@ == s[k]
                    }
                },
                None => {
                    &&& r is Ok
                    &&& r->Ok_0.0@.map_values(|a: String| a@) == runner_args_of(
                        s,
                        s.len() as int,
                    )
                    &&& r->Ok_0.1 == false
                    &&& r->Ok_0.2@.len() == 0
                },
            }
        }),
{
    let ghost s = args@.map_values(|a: String| a@);
    let mut args_to_nur: Vec<String> = Vec::new();
    args_to_nur.push(String::from_str("nur"));
    let len = args.len();

    if len <= 1 {
        assert(task_start_from(s, 1) is None);
        assert(args_to_nur@.map_values(|a: String| a@) =~= runner_args_of(s, len as int));
        let task_call_empty: Vec<String> = Vec::new();
        return Ok((args_to_nur, false, task_call_empty));
    }

    let mut task_call: Vec<String> = Vec::new();
    task_call.push(String::from_str("nur"));
    let mut has_task_call = false;

    let mut i: usize = 1;
    assert(args_to_nur@.map_values(|a: String| a@) =~= runner_args_of(s, 1)) by {
        assert(s.subrange(1, 1) =~= Seq::<Seq<char>>::empty());
    }
    while i < len && !has_task_call
        invariant
            1 <= i <= len,
            len == args.len(),
            2 <= len,
            s == args@.map_values(|a: String| a@),
            s.len() == len,
            !has_task_call ==> {
                &&& task_start_from(s, 1) == task_start_from(s, i as int)
                &&& args_to_nur@.map_values(|a: String| a@) == runner_args_of(s, i as int)
                &&& task_call@.map_values(|a: String| a@) == seq!["nur"@]
            },
            has_task_call ==> {
                &&& task_start_from(s, 1) == Some((i - 1) as int)
                &&& 1 <= i - 1 < len
                &&& safe_taskname(s[i - 1])
                &&& args_to_nur@.map_values(|a: String| a@) == runner_args_of(s, i - 1)
                &&& task_call@.map_values(|a: String| a@) == seq!["nur"@, s[i - 1]]
            },
        decreases len - i,
    {
        let ghost old_nur = args_to_nur@;
        let ghost old_call = task_call@;
        let arg = &args[i];
        assert(arg@ == s[i as int]);
        if !(arg.as_str().unicode_len() > 0 && arg.as_str().get_char(0) == '-') {
            assert(!is_flag_token(s[i as int]));
            assert(task_start_from(s, i as int) == Some(i as int));
            // The first non-flag token starts the task call and must be safe.
            if !is_safe_taskname(arg.as_str()) {
                return Err(NurError::InvalidTaskName(arg.clone()));
            }
            has_task_call = true;
            task_call.push(arg.clone());
            proof {
                crate::text::lemma_view_push(old_call, args@[i as int]);
                assert(old_call.map_values(|a: String| a@).push(arg@) =~= seq![
                    "nur"@,
                    s[i as int],
                ]);
            }
            i = i + 1;
        } else {
            assert(is_flag_token(s[i as int]));
            let consumes = str_eq(arg.as_str(), "--commands") || str_eq(arg.as_str(), "-c");
            assert(consumes == consumes_value(s[i as int]));
            args_to_nur.push(arg.clone());
            proof {
                crate::text::lemma_view_push(old_nur, args@[i as int]);
            }
            if consumes && i + 1 < len {
                let ghost mid_nur = args_to_nur@;
                args_to_nur.push(args[i + 1].clone());
                proof {
                    crate::text::lemma_view_push(mid_nur, args@[i + 1]);
                    assert(args_to_nur@.map_values(|a: String| a@) =~= runner_args_of(s, i + 2));
                }
                i = i + 2;
            } else if consumes {
                assert(i + 1 == len);
                assert(args_to_nur@.map_values(|a: String| a@) =~= runner_args_of(s, i + 1));
                assert(task_start_from(s, i as int) == task_start_from(s, i + 2));
                assert(task_start_from(s, i + 2) == task_start_from(s, i + 1)) by {
                    assert(i + 2 >= s.len() && i + 1 >= s.len());
                }
                i = i + 1;
            } else {
                assert(args_to_nur@.map_values(|a: String| a@) =~= runner_args_of(s, i + 1));
                i = i + 1;
            }
        }
    }

    if has_task_call {
        assert(task_call@.map_values(|a: String| a@) =~= seq!["nur"@] + s.subrange(
            i - 1,
            i as int,
        ));
        // Every remaining token is handed to the task verbatim.
        while i < len
            invariant
                1 <= i <= len,
                len == args.len(),
                s == args@.map_values(|a: String| a@),
                s.len() == len,
                exists|k: int|
                    {
                        &&& task_start_from(s, 1) == Some(k)
                        &&& 1 <= k < len
                        &&& safe_taskname(s[k])
                        &&& args_to_nur@.map_values(|a: String| a@) == runner_args_of(s, k)
                        &&& k < i
                        &&& task_call@.map_values(|a: String| a@) == seq!["nur"@] + s.subrange(
                            k,
                            i as int,
                        )
                    },
            decreases len - i,
    {
            let ghost k = choose|k: int|
                {
                    &&& task_start_from(s, 1) == Some(k)
                    &&& 1 <= k < len
                    &&& safe_taskname(s[k])
                    &&& args_to_nur@.map_values(|a: String| a@) == runner_args_of(s, k)
                    &&& k < i
                    &&& task_call@.map_values(|a: String| a@) == seq!["nur"@] + s.subrange(
                        k,
                        i as int,
                    )
                };
            let ghost old_call = task_call@;
            task_call.push(args[i].clone());
            proof {
                crate::text::lemma_view_push(old_call, args@[i as int]);
                assert((seq!["nur"@] + s.subrange(k, i as int)).push(s[i as int]) =~= seq!["nur"@]
                    + s.subrange(k, i + 1));
                assert(task_call@.map_values(|a: String| a@) == seq!["nur"@] + s.subrange(
                    k,
                    i + 1,
                ));
            }
            i = i + 1;
        }
        Ok((args_to_nur, true, task_call))
    } else {
        assert(task_start_from(s, 1) == task_start_from(s, len as int));
        assert(task_start_from(s, len as int) is None);
        let task_call_empty: Vec<String> = Vec::new();
        Ok((args_to_nur, false, task_call_empty))
    }
}

} // verus!

verus! {

/// The runner's own flags, parsed from the tokens before the task call.
#[derive(Debug, Clone)]
pub struct NurArgs {
    pub list_tasks: bool,
    pub quiet_execution: bool,
    pub attach_stdin: bool,
    pub show_help: bool,
    pub show_version: bool,
    pub run_commands: Option<String>,
    pub enter_shell: bool,
    pub debug_output: bool,
}

/// Specification-level image of `NurArgs`.
pub struct NurArgsModel {
    pub list_tasks: bool,
    pub quiet_execution: bool,
    pub attach_stdin: bool,
    pub show_help: bool,
    pub show_version: bool,
    pub run_commands: Option<Seq<char>>,
    pub enter_shell: bool,
    pub debug_output: bool,
}

/// The model of a parsed `NurArgs` value.
pub open spec fn model_of(a: NurArgs) -> NurArgsModel {
    NurArgsModel {
        list_tasks: a.list_tasks,
        quiet_execution: a.quiet_execution,
        attach_stdin: a.attach_stdin,
        show_help: a.show_help,
        show_version: a.show_version,
        run_commands: match a.run_commands {
            Some(s) => Some(s@),
            None => None,
        },
        enter_shell: a.enter_shell,
        debug_output: a.debug_output,
    }
}

/// The model with every flag off and no command source.
pub open spec fn empty_args_model() -> NurArgsModel {
    NurArgsModel {
        list_tasks: false,
        quiet_execution: false,
        attach_stdin: false,
        show_help: false,
        show_version: false,
        run_commands: None,
        enter_shell: false,
        debug_output: false,
    }
}

/// Scans the runner tokens from position `i`, accumulating flags into `acc`.
/// `None` means the tokens do not parse: an unknown token, or a
/// value-consuming flag without its value.
pub open spec fn scan_runner_flags(toks: Seq<Seq<char>>, i: int, acc: NurArgsModel) -> Option<
    NurArgsModel,
>
    decreases toks.len() + 2 - i,
{
    if i >= toks.len() {
        Some(acc)
    } else {
        let t = toks[i];
        if t == "--list"@ || t == "-l"@ {
            scan_runner_flags(toks, i + 1, NurArgsModel { list_tasks: true, ..acc })
        } else if t == "--quiet"@ || t == "-q"@ {
            scan_runner_flags(toks, i + 1, NurArgsModel { quiet_execution: true, ..acc })
        } else if t == "--stdin"@ {
            scan_runner_flags(toks, i + 1, NurArgsModel { attach_stdin: true, ..acc })
        } else if t == "--help"@ || t == "-h"@ {
            scan_runner_flags(toks, i + 1, NurArgsModel { show_help: true, ..acc })
        } else if t == "--version"@ || t == "-v"@ {
            scan_runner_flags(toks, i + 1, NurArgsModel { show_version: true, ..acc })
        } else if t == "--enter-shell"@ {
            scan_runner_flags(toks, i + 1, NurArgsModel { enter_shell: true, ..acc })
        } else if t == "--debug"@ || t == "-d"@ {
            scan_runner_flags(toks, i + 1, NurArgsModel { debug_output: true, ..acc })
        } else if t == "--commands"@ || t == "-c"@ {
            if i + 1 < toks.len() {
                scan_runner_flags(
                    toks,
                    i + 2,
                    NurArgsModel { run_commands: Some(toks[i + 1]), ..acc },
                )
            } else {
                None
            }
        } else {
            None
        }
    }
}

/// What the runner tokens parse to, skipping the leading runner name.
pub open spec fn parse_runner_args_spec(toks: Seq<Seq<char>>) -> Option<NurArgsModel> {
    scan_runner_flags(toks, 1, empty_args_model())
}

impl NurArgs {
    /// A `NurArgs` with every flag off and no command source.
    pub fn new_empty() -> (r: NurArgs)
        ensures
            model_of(r) == empty_args_model(),
    {
        NurArgs {
            list_tasks: false,
            quiet_execution: false,
            attach_stdin: false,
            show_help: false,
            show_version: false,
            run_commands: None,
            enter_shell: false,
            debug_output: false,
        }
    }
}

impl crate::NewEmpty for NurArgs {
    fn empty() -> Self {
        NurArgs::new_empty()
    }
}

/// Parses the runner's own argument tokens (the first being the runner's
/// name) into a `NurArgs`.  An unknown token, or a value-consuming flag
/// without its value, is a parse error.
pub fn parse_commandline_args(args_to_nur: &Vec<String>) -> (r: NurResult<NurArgs>)
    ensures
        ({
            let toks = args_to_nur@.map_values(|a: String| a@);
            match parse_runner_args_spec(toks) {
                Some(m) => r is Ok && model_of(r->Ok_0) == m,
                None => r is Err && r->Err_0 is ParseErrors,
            }
        }),
{
    let ghost toks = args_to_nur@.map_values(|a: String| a@);
    let mut acc = NurArgs::new_empty();
    let mut i: usize = 1;
    let len = args_to_nur.len();
    while i < len
        invariant
            1 <= i <= len || (len == 0 && i == 1),
            len == args_to_nur.len(),
            toks == args_to_nur@.map_values(|a: String| a@),
            toks.len() == len,
            scan_runner_flags(toks, 1, empty_args_model()) == scan_runner_flags(
                toks,
                i as int,
                model_of(acc),
            ),
        decreases len - i,
    {
        let t = args_to_nur[i].as_str();
        assert(t@ == toks[i as int]);
        if str_eq(t, "--list") || str_eq(t, "-l") {
            acc.list_tasks = true;
        } else if str_eq(t, "--quiet") || str_eq(t, "-q") {
            acc.quiet_execution = true;
        } else if str_eq(t, "--stdin") {
            acc.attach_stdin = true;
        } else if str_eq(t, "--help") || str_eq(t, "-h") {
            acc.show_help = true;
        } else if str_eq(t, "--version") || str_eq(t, "-v") {
            acc.show_version = true;
        } else if str_eq(t, "--enter-shell") {
            acc.enter_shell = true;
        } else if str_eq(t, "--debug") || str_eq(t, "-d") {
            acc.debug_output = true;
        } else if str_eq(t, "--commands") || str_eq(t, "-c") {
            if i + 1 < len {
                acc.run_commands = Some(args_to_nur[i + 1].clone());
                i = i + 2;
                continue ;
            } else {
                return Err(
                    NurError::ParseErrors(
                        vec![
                            String::from_str("missing value for flag ").concat(
                                args_to_nur[i].as_str(),
                            ),
                        ],
                    ),
                );
            }
        } else {
            return Err(
                NurError::ParseErrors(
                    vec![String::from_str("unknown argument ").concat(args_to_nur[i].as_str())],
                ),
            );
        }
        i = i + 1;
    }
    Ok(acc)
}

} // verus!
