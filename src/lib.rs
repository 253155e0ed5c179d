//! Resolves which context-specific lifecycle script a package manager should
//! run during an install, and decides whether to run it, skip it with a
//! warning, or fail.

mod text;

pub mod args;
pub mod dir_path;
pub mod dispatch;
pub mod env;
pub mod error;
pub mod fixture;
pub mod install_context;
pub mod package_json;
pub mod package_manager;
pub mod script;

pub use args::Args;
pub use dir_path::{locate, DirPath};
pub use dispatch::{decide, dispatch, Decision, Dispatch};
pub use env::Env;
pub use error::ContextError;
pub use fixture::{fixtures, Fixture};
pub use install_context::InstallContext;
pub use package_json::PackageJson;
pub use package_manager::PackageManager;
pub use script::Script;
