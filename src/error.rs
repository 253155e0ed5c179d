use vstd::prelude::*;

use crate::dir_path::DirPath;

verus! {

/// Why an invocation cannot go on.
pub enum ContextError {
    /// No ancestor of `searched_from`, itself included, holds a manifest.
    AncestorNotFound { searched_from: DirPath },
    /// The invocation path names no known package manager.
    PackageManagerUnrecognized { path: String },
    /// The script is missing where the install of a dependency requires it.
    RequiredScriptMissing { script: String },
}

} // verus!
