use vstd::prelude::*;

use crate::args::Args;
use crate::dir_path::DirPath;
use crate::env::Env;

verus! {

/// Whether the install is the project's own or that of a package it depends
/// on.
#[derive(Debug, Clone, Copy, PartialEq, Eq, Structural)]
pub enum InstallContext {
    Project,
    Package,
}

/// The context of an install whose project and package roots have the given
/// models: the project's own exactly when the two are the same directory.
pub open spec fn context_of(
    project_root: (bool, Seq<Seq<char>>),
    package_root: (bool, Seq<Seq<char>>),
) -> InstallContext {
    if project_root == package_root {
        InstallContext::Project
    } else {
        InstallContext::Package
    }
}

impl InstallContext {
    /// The configured suffix for this context.
    pub open spec fn suffix_for(self, args: Args) -> Seq<char> {
        match self {
            InstallContext::Project => args.project@,
            InstallContext::Package => args.package@,
        }
    }

    /// The suffix that `args` configures for this context.
    pub fn suffix(&self, args: &Args) -> (r: String)
        ensures
            r@ == self.suffix_for(*args),
    {
        match self {
            InstallContext::Project => args.project.clone(),
            InstallContext::Package => args.package.clone(),
        }
    }

    /// The context's name.
    pub fn as_str(&self) -> (r: &'static str)
        ensures
            r@ == (match self {
                InstallContext::Project => "project"@,
                InstallContext::Package => "package"@,
            }),
    {
        match self {
            InstallContext::Project => "project",
            InstallContext::Package => "package",
        }
    }

    /// Classifies an install from its project root and its package root.
    pub fn resolve(project_root: &DirPath, package_root: &DirPath) -> (r: InstallContext)
        ensures
            r == context_of(project_root@, package_root@),
    {
        if project_root.same_as(package_root) {
            InstallContext::Project
        } else {
            InstallContext::Package
        }
    }

    /// Classifies the install that `env` describes.
    pub fn from_env(env: &Env) -> (r: InstallContext)
        ensures
            r == context_of(env.project_dir@, env.package_dir@),
    {
        InstallContext::resolve(&env.project_dir, &env.package_dir)
    }
}

/// A directory compared with itself is the project's own install; two
/// different directories make a dependency's install.
pub proof fn lemma_context_of_roots(a: (bool, Seq<Seq<char>>), b: (bool, Seq<Seq<char>>))
    ensures
        context_of(a, a) == InstallContext::Project,
        a != b ==> context_of(a, b) == InstallContext::Package,
{
}

} // verus!
