use vstd::prelude::*;

use crate::error::ContextError;
use crate::script::Script;
use crate::text::{ends_with, file_name, file_name_of, has_suffix, lemma_file_name_ends_with};

verus! {

/// A package manager that can drive an install.
#[derive(Debug, Clone, Copy, PartialEq, Eq, Structural)]
pub enum PackageManager {
    Npm,
    Yarn,
    Pnpm,
}

/// The package manager named by the final component of `path`. `pnpm` is
/// tested before `npm`, which it also ends with.
pub open spec fn manager_of(path: Seq<char>) -> Option<PackageManager> {
    let name = file_name(path);
    if ends_with(name, "pnpm"@) {
        Some(PackageManager::Pnpm)
    } else if ends_with(name, "npm"@) {
        Some(PackageManager::Npm)
    } else if ends_with(name, "yarn"@) {
        Some(PackageManager::Yarn)
    } else {
        None
    }
}

impl PackageManager {
    /// The name of the package manager's executable.
    pub open spec fn binary(self) -> Seq<char> {
        match self {
            PackageManager::Npm => "npm"@,
            PackageManager::Yarn => "yarn"@,
            PackageManager::Pnpm => "pnpm"@,
        }
    }

    /// Classifies the package manager from the path of the executable that
    /// runs the install.
    pub fn from_path(path: &str) -> (r: Option<PackageManager>)
        ensures
            r == manager_of(path@),
    {
        let name = file_name_of(path);
        if has_suffix(name, "pnpm") {
            Some(PackageManager::Pnpm)
        } else if has_suffix(name, "npm") {
            Some(PackageManager::Npm)
        } else if has_suffix(name, "yarn") {
            Some(PackageManager::Yarn)
        } else {
            None
        }
    }

    /// As `from_path`, with an error that carries the path it could not
    /// classify.
    pub fn try_from_path(path: &str) -> (r: Result<PackageManager, ContextError>)
        ensures
            manager_of(path@) matches Some(m) ==> r == Ok::<PackageManager, ContextError>(m),
            manager_of(path@) is None ==> (r matches Err(
                ContextError::PackageManagerUnrecognized { path: p },
            ) && p@ == path@),
    {
        match PackageManager::from_path(path) {
            Some(m) => Ok(m),
            None => Err(ContextError::PackageManagerUnrecognized { path: String::from_str(path) }),
        }
    }

    /// The name of the executable to run.
    pub fn to_string(&self) -> (r: String)
        ensures
            r@ == self.binary(),
    {
        match self {
            PackageManager::Npm => String::from_str("npm"),
            PackageManager::Yarn => String::from_str("yarn"),
            PackageManager::Pnpm => String::from_str("pnpm"),
        }
    }

    /// The arguments that make the package manager run `script`.
    pub fn run_args(&self, script: &Script) -> (r: Vec<String>)
        ensures
            r.len() == 2,
            r[0]@ == "run"@,
            r[1]@ == script.key(),
    {
        let mut r: Vec<String> = Vec::new();
        r.push(String::from_str("run"));
        r.push(script.to_string());
        r
    }
}

/// A path whose final component ends in `pnpm` is classified as pnpm, never
/// as npm, although it also ends in `npm`.
pub proof fn lemma_pnpm_not_npm(path: Seq<char>)
    requires
        ends_with(path, "pnpm"@),
    ensures
        manager_of(path) == Some(PackageManager::Pnpm),
{
    reveal_strlit("pnpm");
    lemma_file_name_ends_with(path, "pnpm"@);
}

} // verus!
