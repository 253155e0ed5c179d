use vstd::prelude::*;

use crate::args::Args;
use crate::env::Env;
use crate::error::ContextError;
use crate::install_context::{context_of, InstallContext};
use crate::package_json::PackageJson;
use crate::script::{script_key, Script};

verus! {

/// What to do once it is known whether the script exists.
#[derive(Debug, Clone, Copy, PartialEq, Eq, Structural)]
pub enum Decision {
    /// Have the package manager run the script.
    Run,
    /// Warn that the script is missing and finish successfully.
    SkipWithWarning,
    /// Report the missing script and fail.
    Fail,
}

/// A script that exists is run; a missing one is optional for the project's
/// own install and required for a dependency's.
pub open spec fn decision_for(script_exists: bool, context: InstallContext) -> Decision {
    if script_exists {
        Decision::Run
    } else {
        match context {
            InstallContext::Project => Decision::SkipWithWarning,
            InstallContext::Package => Decision::Fail,
        }
    }
}

/// Decides what to do with the script.
pub fn decide(script_exists: bool, context: InstallContext) -> (r: Decision)
    ensures
        r == decision_for(script_exists, context),
{
    if script_exists {
        Decision::Run
    } else {
        match context {
            InstallContext::Project => Decision::SkipWithWarning,
            InstallContext::Package => Decision::Fail,
        }
    }
}

/// The outcome of an invocation that may go on.
#[derive(Debug, PartialEq, Eq)]
pub enum Dispatch {
    /// Run `script` with the package manager.
    Run { script: Script },
    /// The script named `script` is missing and is skipped.
    Skip { script: String },
}

/// The context of the install that `env` describes.
pub open spec fn env_context(env: &Env) -> InstallContext {
    context_of(env.project_dir@, env.package_dir@)
}

/// The full name of the script that `env` and `args` call for.
pub open spec fn env_script_key(env: &Env, args: &Args) -> Seq<char> {
    script_key(env.lifecycle_event@, args.delimiter, env_context(env).suffix_for(*args))
}

/// Composes the script for the install that `env` describes and decides,
/// from whether `package_json` declares it, whether to run it, skip it or
/// fail.
pub fn dispatch(env: &Env, args: &Args, package_json: &PackageJson) -> (r: Result<
    Dispatch,
    ContextError,
>)
    ensures
        package_json@.contains_key(env_script_key(env, args)) ==> (r matches Ok(
            Dispatch::Run { script },
        ) && script.lifecycle@ == env.lifecycle_event@ && script.delimiter == args.delimiter
            && script.suffix@ == env_context(env).suffix_for(*args)),
        !package_json@.contains_key(env_script_key(env, args)) && env_context(env)
            == InstallContext::Project ==> (r matches Ok(Dispatch::Skip { script }) && script@
            == env_script_key(env, args)),
        !package_json@.contains_key(env_script_key(env, args)) && env_context(env)
            == InstallContext::Package ==> (r matches Err(
            ContextError::RequiredScriptMissing { script },
        ) && script@ == env_script_key(env, args)),
{
    let context = InstallContext::from_env(env);
    let script = Script {
        lifecycle: env.lifecycle_event.clone(),
        delimiter: args.delimiter,
        suffix: context.suffix(args),
    };
    let exists = package_json.script_exists(&script);
    match decide(exists, context) {
        Decision::Run => Ok(Dispatch::Run { script }),
        Decision::SkipWithWarning => Ok(Dispatch::Skip { script: script.to_string() }),
        Decision::Fail => Err(ContextError::RequiredScriptMissing { script: script.to_string() }),
    }
}

/// The warning given when the script `name` is skipped.
pub fn skip_message(name: &String) -> (r: String)
    ensures
        r@ == name@ + " script not found, skipping within the project"@,
{
    name.clone().concat(" script not found, skipping within the project")
}

/// The error given when the script `name` is missing from a dependency.
pub fn missing_message(name: &String) -> (r: String)
    ensures
        r@ == name@ + " script not found, required as a package dependency"@,
{
    name.clone().concat(" script not found, required as a package dependency")
}

} // verus!
