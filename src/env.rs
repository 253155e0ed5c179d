use vstd::prelude::*;

use crate::dir_path::{ancestor, is_nearest, locate, DirPath};
use crate::error::ContextError;
use crate::package_manager::{manager_of, PackageManager};

verus! {

/// What an install invocation is about.
pub struct Env {
    /// Nearest directory with a manifest at or above where the install began.
    pub project_dir: DirPath,
    /// Nearest directory with a manifest at or above the package being installed.
    pub package_dir: DirPath,
    /// The lifecycle event being run, such as `postinstall`.
    pub lifecycle_event: String,
    /// The package manager driving the install.
    pub package_manager: PackageManager,
}

impl Env {
    /// Locates both roots and classifies the package manager.
    ///
    /// `init_cwd` is where the install began and `pwd` where the package is
    /// installed; `init_present[i]` and `pwd_present[i]` tell whether their
    /// `i`-th ancestor holds a manifest. `invocation_path` is the path of the
    /// package manager's executable. The first failure, in that order, is
    /// returned.
    pub fn resolve(
        init_cwd: &DirPath,
        init_present: &Vec<bool>,
        pwd: &DirPath,
        pwd_present: &Vec<bool>,
        lifecycle_event: String,
        invocation_path: &str,
    ) -> (r: Result<Env, ContextError>)
        requires
            init_present.len() == init_cwd@.1.len() + 1,
            pwd_present.len() == pwd@.1.len() + 1,
        ensures
            r is Ok <==> (exists|i: int| is_nearest(init_present@, i)) && (exists|i: int|
                is_nearest(pwd_present@, i)) && manager_of(invocation_path@) is Some,
            r matches Ok(env) ==> (exists|i: int|
                is_nearest(init_present@, i) && env.project_dir@ == ancestor(init_cwd@, i)) && (
            exists|i: int| is_nearest(pwd_present@, i) && env.package_dir@ == ancestor(pwd@, i))
                && env.lifecycle_event@ == lifecycle_event@ && Some(env.package_manager)
                == manager_of(invocation_path@),
            !(exists|i: int| is_nearest(init_present@, i)) ==> (r matches Err(
                ContextError::AncestorNotFound { searched_from },
            ) && searched_from@ == init_cwd@),
            (exists|i: int| is_nearest(init_present@, i)) && !(exists|i: int|
                is_nearest(pwd_present@, i)) ==> (r matches Err(
                ContextError::AncestorNotFound { searched_from },
            ) && searched_from@ == pwd@),
            (exists|i: int| is_nearest(init_present@, i)) && (exists|i: int|
                is_nearest(pwd_present@, i)) && manager_of(invocation_path@) is None ==> (r matches Err(
                ContextError::PackageManagerUnrecognized { path },
            ) && path@ == invocation_path@),
    {
        let project_dir = match locate(init_cwd, init_present) {
            Ok(d) => d,
            Err(e) => return Err(e),
        };
        let package_dir = match locate(pwd, pwd_present) {
            Ok(d) => d,
            Err(e) => return Err(e),
        };
        let package_manager = match PackageManager::try_from_path(invocation_path) {
            Ok(m) => m,
            Err(e) => return Err(e),
        };
        Ok(Env { project_dir, package_dir, lifecycle_event, package_manager })
    }
}

} // verus!
