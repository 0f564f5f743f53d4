//! The runner's per-invocation state: where it runs, where the project
//! lives, the derived configuration paths, and the split command line.

use vstd::prelude::*;
use crate::args::{
    gather_commandline_args, runner_args_of, safe_taskname, task_start_from,
};
use crate::errors::{NurError, NurResult};
use crate::path::{ancestor_dirs_spec, find_project_path, first_marked};

verus! {

/// `name` appended to directory `base` with a separator.
pub open spec fn joined(base: Seq<char>, name: Seq<char>) -> Seq<char> {
    base + seq!['/'] + name
}

/// Joins a directory and a name with a `/` separator.
pub fn path_join(base: &str, name: &str) -> (r: String)
    ensures
        r@ == joined(base@, name@),
{
    let mut r = base.to_owned();
    r.append("/");
    proof {
        reveal_strlit("/");
    }
    assert("/"@ =~= seq!['/']);
    r.append(name);
    assert(r@ =~= joined(base@, name@));
    r
}

/// Everything one invocation of the runner knows: the directory it was
/// started from, the resolved project directory, the paths derived from
/// it, and the split command line.  `task_name` stays `None` until task
/// resolution has run against the loaded task files.
pub struct NurState {
    pub run_path: String,
    pub has_project_path: bool,
    pub project_path: String,
    pub config_dir: String,
    pub lib_dir_path: String,
    pub env_path: String,
    pub config_path: String,
    pub nurfile_path: String,
    pub local_nurfile_path: String,
    pub args_to_nur: Vec<String>,
    pub has_task_call: bool,
    pub task_call: Vec<String>,
    pub task_name: Option<String>,
}

/// The derived paths of `st` are the pure functions of its project path
/// that the runner promises.
pub open spec fn paths_wf(st: NurState) -> bool {
    &&& st.config_dir@ == joined(st.project_path@, ".nur"@)
    &&& st.lib_dir_path@ == joined(st.config_dir@, "scripts"@)
    &&& st.env_path@ == joined(st.config_dir@, "env.nu"@)
    &&& st.config_path@ == joined(st.config_dir@, "config.nu"@)
    &&& st.nurfile_path@ == joined(st.project_path@, "nurfile"@)
    &&& st.local_nurfile_path@ == joined(st.project_path@, "nurfile.local"@)
}

impl NurState {
    /// Builds the state for one invocation.  `run_path` is the absolute
    /// directory the process was started from; `dirs_with_marker` are the
    /// directories that hold the marker file (the caller checks the
    /// filesystem); `args` is the raw argument vector.  The project path
    /// falls back to the run path when no ancestor holds the marker.  The
    /// command line is split as `gather_commandline_args` does; an unsafe
    /// first task token is the one error.
    pub fn new(run_path: String, dirs_with_marker: &Vec<String>, args: Vec<String>) -> (r:
        NurResult<NurState>)
        requires
            run_path@.len() > 0,
            run_path@[0] == '/',
        ensures
            ({
                let s = args@.map_values(|a: String| a@);
                let marked = dirs_with_marker@.map_values(|d: String| d@);
                match r {
                    Ok(st) => {
                        &&& st.run_path@ == run_path@
                        &&& match first_marked(ancestor_dirs_spec(run_path@), marked) {
                            Some(p) => st.has_project_path && st.project_path@ == p,
                            None => !st.has_project_path && st.project_path@ == run_path@,
                        }
                        &&& paths_wf(st)
                        &&& match task_start_from(s, 1) {
                            Some(k) => {
                                &&& safe_taskname(s[k])
                                &&& st.has_task_call
                                &&& st.args_to_nur@.map_values(|a: String| a@)
                                    == runner_args_of(s, k)
                                &&& st.task_call@.map_values(|a: String| a@) == seq!["nur"@]
                                    + s.subrange(k, s.len() as int)
                            },
                            None => {
                                &&& !st.has_task_call
                                &&& st.args_to_nur@.map_values(|a: String| a@)
                                    == runner_args_of(s, s.len() as int)
                                &&& st.task_call@.len() == 0
                            },
                        }
                        &&& st.task_name is None
                    },
                    Err(e) => {
                        &&& task_start_from(s, 1) matches Some(k) && !safe_taskname(s[k])
                            && (e matches NurError::InvalidTaskName(t) && t@ == s[k])
                    },
                }
            }),
    {
        let found_project_path = find_project_path(run_path.as_str(), dirs_with_marker);
        let has_project_path = found_project_path.is_some();
        let project_path = match found_project_path {
            Some(p) => p,
            None => run_path.clone(),
        };

        let config_dir = path_join(project_path.as_str(), ".nur");
        let lib_dir_path = path_join(config_dir.as_str(), "scripts");
        let env_path = path_join(config_dir.as_str(), "env.nu");
        let config_path = path_join(config_dir.as_str(), "config.nu");
        let nurfile_path = path_join(project_path.as_str(), "nurfile");
        let local_nurfile_path = path_join(project_path.as_str(), "nurfile.local");

        let (args_to_nur, has_task_call, task_call) = match gather_commandline_args(args) {
            Ok(split) => split,
            Err(e) => {
                return Err(e);
            },
        };

        Ok(
            NurState {
                run_path,
                has_project_path,
                project_path,
                config_dir,
                lib_dir_path,
                env_path,
                config_path,
                nurfile_path,
                local_nurfile_path,
                args_to_nur,
                has_task_call,
                task_call,
                task_name: None,
            },
        )
    }

    /// The resolved task name without the leading runner name, that is
    /// without its first four characters.
    pub fn get_short_task_name(&self) -> (r: String)
        requires
            self.task_name is Some,
            self.task_name->0@.len() >= 4,
        ensures
            r@ == self.task_name->0@.skip(4),
    {
        let name: &String = match &self.task_name {
            Some(n) => n,
            None => {
                proof {
                    assert(false);
                }
                unreached()
            },
        };
        let n = name.as_str().unicode_len();
        let sub = name.as_str().substring_char(4, n);
        let r = sub.to_owned();
        assert(r@ =~= self.task_name->0@.skip(4));
        r
    }
}

} // verus!
