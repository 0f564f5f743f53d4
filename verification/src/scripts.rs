//! The built-in default scripts and the fallback policy: when an
//! environment or config file is absent its built-in default is evaluated
//! instead — never both; absent task files are skipped with no default.

use vstd::prelude::*;

verus! {

/// The text of the built-in default environment script.
pub open spec fn default_nur_env_spec() -> Seq<char> {
    "# nur default env\n"@
}

/// The text of the built-in default config script.
pub open spec fn default_nur_config_spec() -> Seq<char> {
    "# nur default config\n"@
}

/// The built-in default environment script.
pub fn get_default_nur_env() -> (r: &'static str)
    ensures
        r@ == default_nur_env_spec(),
{
    "# nur default env\n"
}

/// The built-in default config script.
pub fn get_default_nur_config() -> (r: &'static str)
    ensures
        r@ == default_nur_config_spec(),
{
    "# nur default config\n"
}

/// The source the environment-loading phase evaluates, given the file's
/// content when it exists.
pub open spec fn env_source_spec(file_content: Option<Seq<char>>) -> Seq<char> {
    match file_content {
        Some(c) => c,
        None => default_nur_env_spec(),
    }
}

/// The source the config-loading phase evaluates, given the file's
/// content when it exists.
pub open spec fn config_source_spec(file_content: Option<Seq<char>>) -> Seq<char> {
    match file_content {
        Some(c) => c,
        None => default_nur_config_spec(),
    }
}

/// Picks what the environment phase evaluates: the file's content, or the
/// built-in default when the file is absent.
pub fn env_script_to_eval(file_content: Option<String>) -> (r: String)
    ensures
        file_content matches Some(c) ==> r@ == env_source_spec(Some(c@)),
        file_content is None ==> r@ == env_source_spec(None),
{
    match file_content {
        Some(c) => c,
        None => String::from_str(get_default_nur_env()),
    }
}

/// Picks what the config phase evaluates: the file's content, or the
/// built-in default when the file is absent.
pub fn config_script_to_eval(file_content: Option<String>) -> (r: String)
    ensures
        file_content matches Some(c) ==> r@ == config_source_spec(Some(c@)),
        file_content is None ==> r@ == config_source_spec(None),
{
    match file_content {
        Some(c) => c,
        None => String::from_str(get_default_nur_config()),
    }
}

/// Loading with an absent file is the same as loading a file that holds
/// exactly the built-in default: the evaluated source is identical, so
/// the engine state both produce is too.
pub proof fn lemma_fallback_idempotent()
    ensures
        env_source_spec(None) == env_source_spec(Some(default_nur_env_spec())),
        config_source_spec(None) == config_source_spec(Some(default_nur_config_spec())),
{
}

/// The task-file sources, in loading order: the global task file first,
/// then the local override; an absent file is skipped and nothing is
/// evaluated in its place.
pub fn taskfile_sources(nurfile: Option<String>, local: Option<String>) -> (r: Vec<String>)
    ensures
        r@.map_values(|s: String| s@) == ({
            let a: Seq<Seq<char>> = match nurfile {
                Some(c) => seq![c@],
                None => Seq::empty(),
            };
            let b: Seq<Seq<char>> = match local {
                Some(c) => seq![c@],
                None => Seq::empty(),
            };
            a + b
        }),
{
    let ghost a: Seq<Seq<char>> = if nurfile is Some {
        seq![nurfile->0@]
    } else {
        Seq::empty()
    };
    let ghost b: Seq<Seq<char>> = if local is Some {
        seq![local->0@]
    } else {
        Seq::empty()
    };
    let mut r: Vec<String> = Vec::new();
    match nurfile {
        Some(c) => {
            r.push(c);
        },
        None => {},
    }
    match local {
        Some(c) => {
            r.push(c);
        },
        None => {},
    }
    assert(r@.map_values(|s: String| s@) =~= a + b);
    r
}

} // verus!
