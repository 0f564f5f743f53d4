//! The verified side of the embedded engine: the engine's declaration
//! table and environment are modelled by names for their contents, a few
//! trusted wrappers make the actual calls, and task resolution, task
//! listing and environment publishing are verified against them.

use vstd::prelude::*;
use crate::args::{is_safe_taskname, safe_taskname};
use crate::state::NurState;
use crate::text::{join_space_prefix, join_with_space};

verus! {

#[verifier::external_type_specification]
#[verifier::external_body]
pub struct ExEngineState(nu_protocol::engine::EngineState);

/// The names of the declarations that a lookup by name can find in the
/// engine's active overlays.
pub uninterp spec fn decl_names(s: nu_protocol::engine::EngineState) -> Set<Seq<char>>;

/// The names the engine's declaration listing walks out of the active
/// overlays.  This is not always `decl_names`: the lookup accumulates
/// visibility across overlays, the listing filters each overlay by its
/// own visibility alone, so a script that hides in one overlay a
/// declaration living in another makes the two differ.
pub uninterp spec fn listed_decl_names(s: nu_protocol::engine::EngineState) -> Set<Seq<char>>;

/// The names of the environment variables that a lookup can see.
pub uninterp spec fn env_names(s: nu_protocol::engine::EngineState) -> Set<Seq<char>>;

/// The text an environment variable lookup returns: `None` when the
/// variable is absent or does not hold a string.
pub uninterp spec fn env_val(s: nu_protocol::engine::EngineState, name: Seq<char>) -> Option<
    Seq<char>,
>;

/// Two characters that the engine's environment-name comparison treats
/// as equal: the same character, or ASCII case variants of one letter.
pub open spec fn env_chars_eq(a: char, b: char) -> bool {
    ||| a == b
    ||| ('A' <= a && a <= 'Z' && (b as int) == (a as int) + 32)
    ||| ('a' <= a && a <= 'z' && (b as int) == (a as int) - 32)
}

/// How the engine compares environment variable names: equal up to ASCII
/// case.
pub open spec fn env_name_eq(a: Seq<char>, b: Seq<char>) -> bool {
    a.len() == b.len() && forall|i: int| 0 <= i < a.len() ==> env_chars_eq(a[i], b[i])
}

/// Relies on `EngineState::find_decl`: it finds a declaration exactly when
/// a visible declaration of that name exists in the active overlays.
#[verifier::external_body]
fn has_decl_raw(engine_state: &nu_protocol::engine::EngineState, name: &String) -> (r: bool)
    ensures
        r == decl_names(*engine_state).contains(name@),
{
    engine_state.find_decl(name.as_str().as_bytes(), &[]).is_some()
}

/// Relies on `EngineState::get_decls_sorted`: it lists each name the
/// listing's own overlay walk shows, once; declaration names come from
/// source text and are valid text.
#[verifier::external_body]
fn all_decl_names_raw(engine_state: &nu_protocol::engine::EngineState) -> (r: Vec<String>)
    ensures
        forall|i: int|
            0 <= i < r@.len() ==> listed_decl_names(*engine_state).contains(#[trigger] r@[i]@),
        forall|n: Seq<char>|
            #[trigger] listed_decl_names(*engine_state).contains(n) ==> exists|i: int|
                0 <= i < r@.len() && r@[i]@ == n,
        forall|i: int, j: int| 0 <= i < j < r@.len() ==> r@[i]@ != r@[j]@,
{
    engine_state.get_decls_sorted(false).into_iter().map(
        |(name, _)| String::from_utf8_lossy(&name).to_string(),
    ).collect()
}

/// Whether a declaration with this exact name exists in the engine.
pub fn has_def(engine_state: &nu_protocol::engine::EngineState, name: &String) -> (r: bool)
    ensures
        r == decl_names(*engine_state).contains(name@),
{
    has_decl_raw(engine_state, name)
}

/// The tokens of positions `1` to `k` (excluded) are all safe task names.
pub open spec fn prefix_tokens_safe(tc: Seq<Seq<char>>, k: int) -> bool {
    forall|j: int| 1 <= j < k ==> safe_taskname(#[trigger] tc[j])
}

/// The name that the first `k` tokens of the task call would resolve to.
pub open spec fn task_call_prefix(tc: Seq<Seq<char>>, k: int) -> Seq<char> {
    join_with_space(tc.subrange(0, k))
}

/// The first `k` tokens of the task call name a declared task: they are
/// safe, and their space-joined form is in the declaration table.
pub open spec fn resolvable(tc: Seq<Seq<char>>, decls: Set<Seq<char>>, k: int) -> bool {
    &&& 2 <= k <= tc.len()
    &&& prefix_tokens_safe(tc, k)
    &&& decls.contains(task_call_prefix(tc, k))
}

/// Resolves the task name: the longest prefix of the task call (of at
/// least two tokens, all of them safe) whose space-joined form names a
/// declared task.  Sets `task_name` to that name and returns the prefix
/// length; leaves `task_name` unset when there is no task call or no
/// prefix resolves.  Everything else in the state is left alone.
pub fn find_task_name(state: &mut NurState, engine_state: &nu_protocol::engine::EngineState) -> (
    found: Option<usize>)
    requires
        old(state).task_name is None,
        old(state).task_call@.len() < usize::MAX,
    ensures
        *final(state) == (NurState { task_name: final(state).task_name, ..*old(state) }),
        ({
            let tc = old(state).task_call@.map_values(|t: String| t@);
            let decls = decl_names(*engine_state);
            match found {
                Some(k) => {
                    &&& old(state).has_task_call
                    &&& resolvable(tc, decls, k as int)
                    &&& forall|k2: int| #[trigger] resolvable(tc, decls, k2) ==> k2 <= k
                    &&& final(state).task_name matches Some(n) && n@ == task_call_prefix(
                        tc,
                        k as int,
                    )
                },
                None => {
                    &&& final(state).task_name is None
                    &&& forall|k2: int| !(#[trigger] resolvable(tc, decls, k2))
                        || !old(state).has_task_call
                },
            }
        }),
{
    let ghost tc = state.task_call@.map_values(|t: String| t@);
    let ghost decls = decl_names(*engine_state);
    if !state.has_task_call {
        return None;
    }
    let len = state.task_call.len();
    if len < 2 {
        assert(forall|k2: int| !(#[trigger] resolvable(tc, decls, k2)));
        return None;
    }
    let mut search: usize = 2;
    let mut found: usize = 0;
    let ghost mut bad: int = 0;
    let mut blocked = false;
    while search <= len && !blocked
        invariant
            2 <= search,
            search <= len + 1,
            len < usize::MAX,
            len == state.task_call.len(),
            tc == state.task_call@.map_values(|t: String| t@),
            tc.len() == len,
            decls == decl_names(*engine_state),
            found == 0 || (2 <= found && found < search && resolvable(tc, decls, found as int)),
            forall|k2: int|
                2 <= k2 < search && #[trigger] resolvable(tc, decls, k2) ==> found >= 2 && k2
                    <= found,
            !blocked ==> prefix_tokens_safe(tc, search - 1),
            blocked ==> 1 <= bad && bad < search && bad < len && !safe_taskname(tc[bad]),
        decreases len - search + (if blocked { 0int } else { 1int }),
    {
        // The token that would extend the prefix must itself be safe;
        // an unsafe token is never looked up, nor anything past it.
        if !is_safe_taskname(state.task_call[search - 1].as_str()) {
            proof {
                bad = search - 1;
            }
            blocked = true;
        } else {
            assert(prefix_tokens_safe(tc, search as int)) by {
                assert(safe_taskname(tc[search - 1]));
                assert(forall|j: int| 1 <= j < search - 1 ==> safe_taskname(#[trigger] tc[j]));
            }
            let name = join_space_prefix(&state.task_call, search);
            assert(name@ == task_call_prefix(tc, search as int));
            if has_def(engine_state, &name) {
                found = search;
            }
            search = search + 1;
        }
    }
    if found == 0 {
        proof {
            assert forall|k2: int| !(#[trigger] resolvable(tc, decls, k2)) by {
                if 2 <= k2 && k2 < search {
                } else if blocked && k2 >= search {
                    assert(!prefix_tokens_safe(tc, k2)) by {
                        assert(1 <= bad && bad < k2 && !safe_taskname(tc[bad]));
                    }
                }
            }
        }
        return None;
    }
    let name = join_space_prefix(&state.task_call, found);
    assert(name@ == task_call_prefix(tc, found as int));
    state.task_name = Some(name);
    proof {
        assert forall|k2: int| #[trigger] resolvable(tc, decls, k2) implies k2 <= found by {
            if blocked && k2 >= search {
                assert(1 <= bad && bad < k2 && !safe_taskname(tc[bad]));
                assert(!prefix_tokens_safe(tc, k2));
            }
        }
    }
    Some(found)
}

} // verus!

verus! {

/// Relies on `EngineState::add_env_var`: it inserts the string value
/// into the last active overlay's environment table, which a lookup
/// searches first, so the variable reads back exactly this text; names
/// are compared up to ASCII case, every variable under a different name
/// keeps its value, nothing becomes invisible, and the declaration
/// tables are untouched.
#[verifier::external_body]
fn add_env_var_raw(
    engine_state: &mut nu_protocol::engine::EngineState,
    name: &String,
    val: &String,
)
    ensures
        env_names(*final(engine_state)).contains(name@),
        env_names(*old(engine_state)) <= env_names(*final(engine_state)),
        env_val(*final(engine_state), name@) == Some(val@),
        forall|n: Seq<char>|
            !env_name_eq(n, name@) ==> env_val(*final(engine_state), n) == env_val(
                *old(engine_state),
                n,
            ),
        decl_names(*final(engine_state)) == decl_names(*old(engine_state)),
        listed_decl_names(*final(engine_state)) == listed_decl_names(*old(engine_state)),
{
    engine_state.add_env_var(
        name.clone(),
        nu_protocol::Value::string(val.clone(), nu_protocol::Span::unknown()),
    );
}

/// Two names that differ in a position where neither holds a case
/// variant of the other's letter are distinct to the engine.
proof fn lemma_env_name_neq(a: Seq<char>, b: Seq<char>, i: int)
    requires
        0 <= i < a.len(),
        i < b.len(),
        !env_chars_eq(a[i], b[i]),
    ensures
        !env_name_eq(a, b),
{
}

/// Publishes the state the runner computes before any file is loaded:
/// the default script library directory and the runner's version, each
/// readable back under its name; every other variable keeps its value.
pub fn apply_nur_state_env(
    engine_state: &mut nu_protocol::engine::EngineState,
    state: &NurState,
)
    ensures
        env_names(*final(engine_state)).contains("NU_LIB_DIRS"@),
        env_names(*final(engine_state)).contains("NUR_VERSION"@),
        env_names(*old(engine_state)) <= env_names(*final(engine_state)),
        env_val(*final(engine_state), "NU_LIB_DIRS"@) == Some(state.lib_dir_path@),
        env_val(*final(engine_state), "NUR_VERSION"@) == Some("0.1.0"@),
        forall|n: Seq<char>|
            !env_name_eq(n, "NU_LIB_DIRS"@) && !env_name_eq(n, "NUR_VERSION"@) ==> env_val(
                *final(engine_state),
                n,
            ) == env_val(*old(engine_state), n),
        decl_names(*final(engine_state)) == decl_names(*old(engine_state)),
        listed_decl_names(*final(engine_state)) == listed_decl_names(*old(engine_state)),
{
    let lib_dirs_name = String::from_str(crate::names::NUR_ENV_NU_LIB_DIRS);
    add_env_var_raw(engine_state, &lib_dirs_name, &state.lib_dir_path);
    let version_name = String::from_str(crate::names::NUR_ENV_NUR_VERSION);
    let version = String::from_str(crate::names::NUR_VERSION);
    proof {
        reveal_strlit("NU_LIB_DIRS");
        reveal_strlit("NUR_VERSION");
        reveal_strlit("0.1.0");
        lemma_env_name_neq("NU_LIB_DIRS"@, "NUR_VERSION"@, 2);
        lemma_env_name_neq("NUR_VERSION"@, "NU_LIB_DIRS"@, 2);
    }
    add_env_var_raw(engine_state, &version_name, &version);
}

/// Publishes the resolved task call, and, when resolution succeeded, the
/// short task name, for the task's own script to read: each reads back
/// as exactly the joined call and the name without its leading runner
/// token; every other variable keeps its value.
pub fn finalise_nur_state_env(
    engine_state: &mut nu_protocol::engine::EngineState,
    state: &NurState,
)
    requires
        state.task_name is Some ==> state.task_name->0@.len() >= 4,
    ensures
        env_names(*final(engine_state)).contains("NUR_TASK_CALL"@),
        state.task_name is Some ==> env_names(*final(engine_state)).contains("NUR_TASK_NAME"@),
        env_names(*old(engine_state)) <= env_names(*final(engine_state)),
        env_val(*final(engine_state), "NUR_TASK_CALL"@) == Some(
            join_with_space(state.task_call@.map_values(|tok: String| tok@)),
        ),
        state.task_name matches Some(tn) ==> env_val(*final(engine_state), "NUR_TASK_NAME"@)
            == Some(tn@.skip(4)),
        forall|n: Seq<char>|
            !env_name_eq(n, "NUR_TASK_CALL"@) && !env_name_eq(n, "NUR_TASK_NAME"@) ==> env_val(
                *final(engine_state),
                n,
            ) == env_val(*old(engine_state), n),
        state.task_name is None ==> forall|n: Seq<char>|
            !env_name_eq(n, "NUR_TASK_CALL"@) ==> env_val(*final(engine_state), n) == env_val(
                *old(engine_state),
                n,
            ),
        decl_names(*final(engine_state)) == decl_names(*old(engine_state)),
        listed_decl_names(*final(engine_state)) == listed_decl_names(*old(engine_state)),
{
    let task_call_name = String::from_str(crate::names::NUR_ENV_NUR_TASK_CALL);
    let task_call = crate::text::join_space(&state.task_call);
    add_env_var_raw(engine_state, &task_call_name, &task_call);
    if state.task_name.is_some() {
        let task_name_name = String::from_str(crate::names::NUR_ENV_NUR_TASK_NAME);
        let short = state.get_short_task_name();
        proof {
            reveal_strlit("NUR_TASK_CALL");
            reveal_strlit("NUR_TASK_NAME");
            lemma_env_name_neq("NUR_TASK_CALL"@, "NUR_TASK_NAME"@, 9);
            lemma_env_name_neq("NUR_TASK_NAME"@, "NUR_TASK_CALL"@, 9);
        }
        add_env_var_raw(engine_state, &task_name_name, &short);
    }
}

} // verus!

verus! {

/// A short name is listed exactly when prefixing it with the runner's name
/// and a space gives a name in `decls`.
pub open spec fn is_listed_task(decls: Set<Seq<char>>, short: Seq<char>) -> bool {
    decls.contains("nur "@ + short)
}

/// The names the engine's listing shows under the runner-name prefix,
/// with that prefix stripped, sorted lexicographically, one entry per
/// task.
pub fn list_task_names(engine_state: &nu_protocol::engine::EngineState) -> (r: Vec<String>)
    ensures
        forall|i: int|
            0 <= i < r@.len() ==> is_listed_task(
                listed_decl_names(*engine_state),
                #[trigger] r@[i]@,
            ),
        forall|short: Seq<char>|
            #[trigger] is_listed_task(listed_decl_names(*engine_state), short) ==> r@.map_values(
                |s: String| s@,
            ).contains(short),
        crate::text::sorted_lex(r@.map_values(|s: String| s@)),
        r@.map_values(|s: String| s@).no_duplicates(),
{
    let ghost decls = listed_decl_names(*engine_state);
    let names = all_decl_names_raw(engine_state);
    let mut out: Vec<String> = Vec::new();
    let mut i: usize = 0;
    while i < names.len()
        invariant
            decls == listed_decl_names(*engine_state),
            0 <= i <= names.len(),
            forall|k: int| 0 <= k < names@.len() ==> decls.contains(#[trigger] names@[k]@),
            forall|n: Seq<char>|
                #[trigger] decls.contains(n) ==> exists|k: int|
                    0 <= k < names@.len() && names@[k]@ == n,
            forall|k: int, l: int| 0 <= k < l < names@.len() ==> names@[k]@ != names@[l]@,
            forall|a: int|
                0 <= a < out@.len() ==> is_listed_task(decls, #[trigger] out@[a]@),
            forall|a: int|
                0 <= a < out@.len() ==> exists|k: int|
                    0 <= k < i && names@[k]@ == "nur "@ + #[trigger] out@[a]@,
            forall|k: int|
                0 <= k < i ==> (#[trigger] names@[k]@).len() < 4 || names@[k]@.subrange(0, 4)
                    != "nur "@ || out@.map_values(|s: String| s@).contains(names@[k]@.skip(4)),
            forall|a: int, b: int| 0 <= a < b < out@.len() ==> out@[a]@ != out@[b]@,
        decreases names.len() - i,
    {
        let nm = &names[i];
        if crate::text::str_starts_with(nm.as_str(), "nur ") {
            proof {
                reveal_strlit("nur ");
            }
            let nlen = nm.as_str().unicode_len();
            let short = nm.as_str().substring_char(4, nlen).to_owned();
            proof {
                assert(nm@ =~= nm@.subrange(0, 4) + nm@.skip(4));
                assert(short@ == nm@.skip(4));
                assert("nur "@ + short@ =~= nm@);
                assert(decls.contains(nm@));
                assert(is_listed_task(decls, short@));
                assert forall|a: int| 0 <= a < out@.len() implies out@[a]@ != short@ by {
                    let k = choose|k: int|
                        0 <= k < i && names@[k]@ == "nur "@ + #[trigger] out@[a]@;
                    if out@[a]@ == short@ {
                        assert(names@[k]@ == "nur "@ + short@);
                        assert(names@[k]@ == names@[i as int]@);
                    }
                }
            }
            let ghost old_out = out@;
            out.push(short);
            proof {
                assert(out@ == old_out.push(out@[old_out.len() as int]));
                assert forall|a: int|
                    0 <= a < out@.len() implies exists|k: int|
                    0 <= k < i + 1 && names@[k]@ == "nur "@ + #[trigger] out@[a]@ by {
                    if a < old_out.len() {
                        let k = choose|k: int|
                            0 <= k < i && names@[k]@ == "nur "@ + #[trigger] old_out[a]@;
                        assert(out@[a] == old_out[a]);
                        assert(names@[k]@ == "nur "@ + out@[a]@);
                    } else {
                        assert(names@[i as int]@ == "nur "@ + out@[a]@);
                    }
                }
                assert forall|k: int|
                    0 <= k < i + 1 implies (#[trigger] names@[k]@).len() < 4
                    || names@[k]@.subrange(0, 4) != "nur "@ || out@.map_values(
                    |s: String| s@,
                ).contains(names@[k]@.skip(4)) by {
                    if k < i {
                        if names@[k]@.len() >= 4 && names@[k]@.subrange(0, 4) == "nur "@ {
                            let m = old_out.map_values(|s: String| s@);
                            assert(m.contains(names@[k]@.skip(4)));
                            let a = choose|a: int| 0 <= a < m.len() && m[a] == names@[k]@.skip(4);
                            assert(out@.map_values(|s: String| s@)[a] == names@[k]@.skip(4));
                        }
                    } else {
                        let a = out@.len() - 1;
                        assert(out@.map_values(|s: String| s@)[a] == names@[i as int]@.skip(4));
                    }
                }
            }
        } else {
            proof {
                reveal_strlit("nur ");
                assert("nur "@.len() == 4);
            }
        }
        i = i + 1;
    }
    // Every listed short name was collected.
    proof {
        reveal_strlit("nur ");
        assert forall|short: Seq<char>|
            #[trigger] is_listed_task(decls, short) implies out@.map_values(
            |s: String| s@,
        ).contains(short) by {
            let full = "nur "@ + short;
            assert(decls.contains(full));
            let k = choose|k: int| 0 <= k < names@.len() && #[trigger] names@[k]@ == full;
            assert(names@[k]@.len() >= 4);
            assert(names@[k]@.subrange(0, 4) =~= "nur "@);
            assert(names@[k]@.skip(4) =~= short);
        }
    }
    let ghost pre = out@.map_values(|s: String| s@);
    crate::text::sort_strings(&mut out);
    proof {
        broadcast use vstd::seq_lib::group_to_multiset_ensures;

        let post = out@.map_values(|s: String| s@);
        assert forall|ix: int|
            0 <= ix < out@.len() implies is_listed_task(decls, #[trigger] out@[ix]@) by {
            assert(post[ix] == out@[ix]@);
            assert(post.contains(post[ix]));
            assert(post.to_multiset().count(post[ix]) > 0);
            assert(pre.to_multiset().count(post[ix]) > 0);
            assert(pre.contains(post[ix]));
            let a = choose|a: int| 0 <= a < pre.len() && pre[a] == post[ix];
            assert(is_listed_task(decls, pre[a]));
        }
        assert forall|short: Seq<char>|
            #[trigger] is_listed_task(decls, short) implies post.contains(short) by {
            assert(pre.contains(short));
            assert(pre.to_multiset().count(short) > 0);
            assert(post.to_multiset().count(short) > 0);
            assert(post.contains(short));
        }
        assert(pre.no_duplicates());
        pre.lemma_multiset_has_no_duplicates();
        assert forall|x: Seq<char>|
            post.to_multiset().contains(x) implies post.to_multiset().count(x) == 1 by {
            assert(pre.to_multiset().count(x) == post.to_multiset().count(x));
        }
        post.lemma_multiset_has_no_duplicates_conv();
    }
    out
}

} // verus!

verus! {

#[verifier::external_type_specification]
#[verifier::external_body]
pub struct ExBlock(nu_protocol::ast::Block);

/// Relies on `nu_parser::parse` and `EngineState::merge_delta`: a working
/// set parses the source, and on success its delta (the source's
/// declarations) is merged into the engine; on failure the rendered
/// errors come back, at least one, and the engine is untouched — the
/// parse-error path returns before anything is merged, and in this build
/// (no plugin support compiled in) `merge_delta` has no failing path.
#[verifier::external_body]
fn parse_source(
    engine_state: &mut nu_protocol::engine::EngineState,
    file_path: Option<&String>,
    contents: &String,
) -> (r: Result<std::sync::Arc<nu_protocol::ast::Block>, Vec<String>>)
    ensures
        r is Err ==> {
            &&& r->Err_0@.len() >= 1
            &&& decl_names(*final(engine_state)) == decl_names(*old(engine_state))
            &&& listed_decl_names(*final(engine_state)) == listed_decl_names(*old(engine_state))
            &&& env_names(*final(engine_state)) == env_names(*old(engine_state))
            &&& forall|n: Seq<char>|
                env_val(*final(engine_state), n) == env_val(*old(engine_state), n)
        },
{
    let mut working_set = nu_protocol::engine::StateWorkingSet::new(engine_state);
    let block = nu_parser::parse(
        &mut working_set,
        file_path.map(|p| p.as_str()),
        contents.as_bytes(),
        false,
    );
    if !working_set.parse_errors.is_empty() {
        return Err(working_set.parse_errors.iter().map(|e| e.to_string()).collect());
    }
    let delta = working_set.render();
    match engine_state.merge_delta(delta) {
        Ok(()) => Ok(block),
        Err(e) => Err(vec![e.to_string()]),
    }
}

/// Parses a script and merges its declarations into the engine's table,
/// handing back the block for the caller to evaluate.  Parse errors come
/// back as `ParseErrors` carrying their rendered messages, and a failed
/// parse changes nothing: the declaration tables and the environment are
/// exactly what they were.
pub fn parse_nu_script(
    engine_state: &mut nu_protocol::engine::EngineState,
    file_path: Option<&String>,
    contents: &String,
) -> (r: crate::errors::NurResult<std::sync::Arc<nu_protocol::ast::Block>>)
    ensures
        r is Err ==> (r->Err_0 matches crate::errors::NurError::ParseErrors(msgs) && msgs@.len()
            >= 1),
        r is Err ==> {
            &&& decl_names(*final(engine_state)) == decl_names(*old(engine_state))
            &&& listed_decl_names(*final(engine_state)) == listed_decl_names(*old(engine_state))
            &&& env_names(*final(engine_state)) == env_names(*old(engine_state))
            &&& forall|n: Seq<char>|
                env_val(*final(engine_state), n) == env_val(*old(engine_state), n)
        },
{
    match parse_source(engine_state, file_path, contents) {
        Ok(b) => Ok(b),
        Err(msgs) => Err(crate::errors::NurError::ParseErrors(msgs)),
    }
}

} // verus!

verus! {

/// The entries of the runner's constant record, in order: run path,
/// project path, the first task token when a task was called, the
/// configuration directory and the default library directory.  The
/// embedding program registers these as one record variable for scripts
/// to read.
pub fn nur_record_entries(state: &NurState) -> (r: Vec<(String, String)>)
    requires
        state.has_task_call ==> state.task_call@.len() >= 2,
    ensures
        ({
            let pairs = r@.map_values(|e: (String, String)| (e.0@, e.1@));
            if state.has_task_call {
                pairs =~= seq![
                    ("run-path"@, state.run_path@),
                    ("project-path"@, state.project_path@),
                    ("task-name"@, state.task_call@[1]@),
                    ("config-dir"@, state.config_dir@),
                    ("default-lib-dir"@, state.lib_dir_path@),
                ]
            } else {
                pairs =~= seq![
                    ("run-path"@, state.run_path@),
                    ("project-path"@, state.project_path@),
                    ("config-dir"@, state.config_dir@),
                    ("default-lib-dir"@, state.lib_dir_path@),
                ]
            }
        }),
{
    let mut r: Vec<(String, String)> = Vec::new();
    r.push((String::from_str(crate::names::NUR_VAR_RUN_PATH), state.run_path.clone()));
    r.push((String::from_str(crate::names::NUR_VAR_PROJECT_PATH), state.project_path.clone()));
    if state.has_task_call {
        r.push((String::from_str(crate::names::NUR_VAR_TASK_NAME), state.task_call[1].clone()));
    }
    r.push((String::from_str(crate::names::NUR_VAR_CONFIG_DIR), state.config_dir.clone()));
    r.push(
        (String::from_str(crate::names::NUR_VAR_DEFAULT_LIB_DIR), state.lib_dir_path.clone()),
    );
    r
}

} // verus!
