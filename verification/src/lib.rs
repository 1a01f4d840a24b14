//! A verified launch-dispatch engine for a shortcut launcher.
//!
//! The engine turns a declarative shortcut description (type, command,
//! arguments, working directory, visibility, elevation) into a concrete
//! process invocation plan: which executable to start, with which argument
//! vector, in which directory, with which console-window mode, and — for
//! inline shell scripts — which temporary script file to materialize first.
//! The caller performs the actual environment reads, temp-file write and
//! process spawn; everything the engine computes is specified and proved.

pub mod config;
pub mod dispatch;
pub mod expand;
pub mod plan;
pub mod text;
pub mod tokenizer;

pub use config::{AppConfig, ConfigError, Shortcut, ShortcutType};
pub use dispatch::{launch_app, launch_shortcut, open_file, open_folder, open_url, run_script_file, run_shell_script};
pub use expand::{EnvEntry, EnvTable, expand_env_vars};
pub use plan::{LaunchPlan, ProcessSpec, TempScript, WindowMode};
pub use text::eq_ignore_ascii_case;
pub use tokenizer::parse_args;
