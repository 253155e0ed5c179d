use vstd::prelude::*;

verus! {

/// The options an invocation is configured with.
#[derive(Debug, PartialEq, Eq)]
pub struct Args {
    /// Put between the lifecycle name and the suffix.
    pub delimiter: char,
    /// Suffix of the script run when the install is the project's own.
    pub project: String,
    /// Suffix of the script run when the package is installed as a dependency.
    pub package: String,
}

impl Default for Args {
    fn default() -> (r: Args)
        ensures
            r.delimiter == ':',
            r.project@ == "project"@,
            r.package@ == "package"@,
    {
        Args {
            delimiter: ':',
            project: String::from_str("project"),
            package: String::from_str("package"),
        }
    }
}

} // verus!
