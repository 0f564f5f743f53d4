//! Names and filenames the runner is built around.

use vstd::prelude::*;

verus! {

/// The runner's own name; also the first token of every declared task name.
pub const NUR_NAME: &'static str = "nur";

/// Directory under the project root that holds configuration.
pub const NUR_CONFIG_DIR: &'static str = ".nur";

/// Directory under the configuration directory that holds scripts.
pub const NUR_CONFIG_LIB_PATH: &'static str = "scripts";

/// Config script filename inside the configuration directory.
pub const NUR_CONFIG_CONFIG_FILENAME: &'static str = "config.nu";

/// Environment script filename inside the configuration directory.
pub const NUR_CONFIG_ENV_FILENAME: &'static str = "env.nu";

/// Environment variable naming the library directories of the engine.
pub const NUR_ENV_NU_LIB_DIRS: &'static str = "NU_LIB_DIRS";

/// Environment variable carrying the runner's version.
pub const NUR_ENV_NUR_VERSION: &'static str = "NUR_VERSION";

/// Environment variable carrying the full task call.
pub const NUR_ENV_NUR_TASK_CALL: &'static str = "NUR_TASK_CALL";

/// Environment variable carrying the resolved short task name.
pub const NUR_ENV_NUR_TASK_NAME: &'static str = "NUR_TASK_NAME";

/// Key of the run path inside the runner's constant record.
pub const NUR_VAR_RUN_PATH: &'static str = "run-path";

/// Key of the project path inside the runner's constant record.
pub const NUR_VAR_PROJECT_PATH: &'static str = "project-path";

/// Key of the task name inside the runner's constant record.
pub const NUR_VAR_TASK_NAME: &'static str = "task-name";

/// Key of the configuration directory inside the runner's constant record.
pub const NUR_VAR_CONFIG_DIR: &'static str = "config-dir";

/// Key of the default library directory inside the runner's constant record.
pub const NUR_VAR_DEFAULT_LIB_DIR: &'static str = "default-lib-dir";

/// Marker file identifying a project root; also the global task file.
pub const NUR_FILE: &'static str = "nurfile";

/// Local override task file beside the global one.
pub const NUR_LOCAL_FILE: &'static str = "nurfile.local";

/// The runner's version string.
pub const NUR_VERSION: &'static str = "0.1.0";

} // verus!
