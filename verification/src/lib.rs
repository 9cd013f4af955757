//! Typed access to the Homebrew package manager: the command lines that drive
//! `brew`, the records it reports, and the decisions taken on what it answers.

pub mod command;
pub mod error;
pub mod listing;
pub mod operations;
pub mod options;
pub mod package;
pub mod session;
pub mod text;
pub mod version;

pub use command::{Invocation, InvocationView, Output, OutputView, Script, ScriptView};
pub use error::{BrewError, ErrorView, Result};
pub use listing::by_name;
pub use operations::{
    all_installed, all_packages, install_homebrew, install_homebrew_at, packages,
    test_brew_installed, update,
};
pub use options::{BuildEnv, Options, OptionsView};
pub use package::{
    Analytic, Analytics, Bottle, BrewOption, Dependency, File, Installed, MapOrString, NumOrString,
    Package, Requirment, Url, Versions,
};
pub use session::{
    brew_return, Parsing, Reply, ReplyKind, ReplyView, Running, RunningView, Step, StepView,
};
pub use text::contains;
pub use version::{Version, VersionNumber};
