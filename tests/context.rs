use script_context::dispatch::{missing_message, skip_message};
use script_context::{
    decide, dispatch, locate, Args, ContextError, Decision, DirPath, Dispatch, Env,
    InstallContext, PackageJson, PackageManager, Script,
};

fn dir(s: &str) -> DirPath {
    DirPath::parse(s)
}

fn manifest(names: &[&str]) -> PackageJson {
    PackageJson::new(
        names
            .iter()
            .map(|n| (n.to_string(), "echo".to_string()))
            .collect(),
    )
}

fn env(project: &str, package: &str, manager: PackageManager) -> Env {
    Env {
        project_dir: dir(project),
        package_dir: dir(package),
        lifecycle_event: "postinstall".to_string(),
        package_manager: manager,
    }
}

#[test]
fn script_name_joins_its_parts() {
    let script = Script {
        lifecycle: "postinstall".to_string(),
        delimiter: ':',
        suffix: "project".to_string(),
    };
    assert_eq!(script.to_string(), "postinstall:project".to_string());
}

#[test]
fn script_name_splits_at_the_first_delimiter() {
    let script = Script {
        lifecycle: "pre".to_string(),
        delimiter: '#',
        suffix: "a#b".to_string(),
    };
    let name = script.to_string();
    assert_eq!(name, "pre#a#b");
    let (lifecycle, suffix) = name.split_once('#').unwrap();
    assert_eq!((lifecycle, suffix), ("pre", "a#b"));
}

#[test]
fn parse_reads_components() {
    let d = dir("/repo//node_modules/./dep/");
    assert!(d.absolute);
    assert_eq!(d.components, vec!["repo", "node_modules", "dep"]);
    assert_eq!(d.to_path_string(), "/repo/node_modules/dep");
    let r = dir("a/b");
    assert!(!r.absolute);
    assert_eq!(r.to_path_string(), "a/b");
    assert_eq!(dir("/").to_path_string(), "/");
    assert!(dir("/").components.is_empty());
}

#[test]
fn ancestors_go_up_to_the_root() {
    let a = dir("/repo/node_modules/dep").ancestors();
    let texts: Vec<String> = a.iter().map(|d| d.to_path_string()).collect();
    assert_eq!(texts, vec!["/repo/node_modules/dep", "/repo/node_modules", "/repo", "/"]);
    assert_eq!(dir("/repo").parent().unwrap().to_path_string(), "/");
    assert!(dir("/").parent().is_none());
}

#[test]
fn locate_finds_the_nearest_manifest() {
    let start = dir("/repo/node_modules/dep/lib");
    let found = locate(&start, &vec![false, true, false, true, false]);
    match found {
        Ok(d) => assert_eq!(d.to_path_string(), "/repo/node_modules/dep"),
        Err(_) => panic!("expected a directory"),
    }
    let found = locate(&start, &vec![false, false, false, true, true]);
    match found {
        Ok(d) => assert_eq!(d.to_path_string(), "/repo"),
        Err(_) => panic!("expected a directory"),
    }
}

#[test]
fn locate_fails_without_a_manifest() {
    let start = dir("/repo/sub");
    match locate(&start, &vec![false, false, false]) {
        Err(ContextError::AncestorNotFound { searched_from }) => {
            assert!(searched_from == start)
        }
        _ => panic!("expected AncestorNotFound"),
    }
}

#[test]
fn resolve_compares_roots() {
    assert_eq!(
        InstallContext::resolve(&dir("/repo"), &dir("/repo/")),
        InstallContext::Project
    );
    assert_eq!(
        InstallContext::resolve(&dir("/repo"), &dir("/repo/node_modules/dep")),
        InstallContext::Package
    );
    assert_eq!(InstallContext::Project.as_str(), "project");
    assert_eq!(InstallContext::Package.as_str(), "package");
}

#[test]
fn suffix_follows_the_configuration() {
    let args = Args {
        delimiter: '-',
        project: "own".to_string(),
        package: "dep".to_string(),
    };
    assert_eq!(InstallContext::Project.suffix(&args), "own");
    assert_eq!(InstallContext::Package.suffix(&args), "dep");
    let defaults = Args::default();
    assert_eq!(defaults.delimiter, ':');
    assert_eq!(InstallContext::Project.suffix(&defaults), "project");
    assert_eq!(InstallContext::Package.suffix(&defaults), "package");
}

#[test]
fn detect_package_managers() {
    assert_eq!(PackageManager::from_path("/usr/local/bin/npm"), Some(PackageManager::Npm));
    assert_eq!(PackageManager::from_path("/usr/bin/yarn"), Some(PackageManager::Yarn));
    assert_eq!(PackageManager::from_path("/usr/bin/bun"), None);
    assert_eq!(PackageManager::from_path("/opt/npm/bin/node"), None);
    assert_eq!(PackageManager::Pnpm.to_string(), "pnpm");
    assert_eq!(PackageManager::Npm.to_string(), "npm");
    assert_eq!(PackageManager::Yarn.to_string(), "yarn");
}

#[test]
fn detect_pnpm_before_npm() {
    assert_eq!(
        PackageManager::from_path("/usr/local/bin/pnpm"),
        Some(PackageManager::Pnpm)
    );
    match PackageManager::try_from_path("/usr/local/bin/pnpm") {
        Ok(m) => assert_eq!(m, PackageManager::Pnpm),
        Err(_) => panic!("expected pnpm"),
    }
}

#[test]
fn unrecognized_package_manager_is_an_error() {
    match PackageManager::try_from_path("/bin/sh") {
        Err(ContextError::PackageManagerUnrecognized { path }) => assert_eq!(path, "/bin/sh"),
        _ => panic!("expected PackageManagerUnrecognized"),
    }
}

#[test]
fn manifest_membership_is_exact() {
    let m = manifest(&["postinstall:project", "build"]);
    assert!(m.contains(&"build".to_string()));
    assert!(!m.contains(&"Build".to_string()));
    assert!(!m.contains(&"postinstall".to_string()));
    assert!(!manifest(&[]).contains(&"build".to_string()));
}

#[test]
fn decision_table() {
    assert_eq!(decide(true, InstallContext::Project), Decision::Run);
    assert_eq!(decide(true, InstallContext::Package), Decision::Run);
    assert_eq!(decide(false, InstallContext::Project), Decision::SkipWithWarning);
    assert_eq!(decide(false, InstallContext::Package), Decision::Fail);
}

#[test]
fn project_install_runs_its_script() {
    let e = env("/repo", "/repo", PackageManager::Npm);
    let args = Args::default();
    let m = manifest(&["postinstall:project"]);
    match dispatch(&e, &args, &m) {
        Ok(Dispatch::Run { script }) => {
            assert_eq!(script.to_string(), "postinstall:project");
            assert_eq!(e.package_manager.to_string(), "npm");
            assert_eq!(
                e.package_manager.run_args(&script),
                vec!["run".to_string(), "postinstall:project".to_string()]
            );
        }
        _ => panic!("expected the script to run"),
    }
}

#[test]
fn dependency_install_requires_its_script() {
    let e = env("/repo", "/repo/node_modules/dep", PackageManager::Npm);
    let m = manifest(&["postinstall:project"]);
    match dispatch(&e, &Args::default(), &m) {
        Err(ContextError::RequiredScriptMissing { script }) => {
            assert_eq!(script, "postinstall:package");
            assert_eq!(
                missing_message(&script),
                "postinstall:package script not found, required as a package dependency"
            );
        }
        _ => panic!("expected RequiredScriptMissing"),
    }
}

#[test]
fn project_install_skips_a_missing_script() {
    let e = env("/repo", "/repo", PackageManager::Yarn);
    let m = manifest(&["postinstall:package"]);
    match dispatch(&e, &Args::default(), &m) {
        Ok(Dispatch::Skip { script }) => {
            assert_eq!(script, "postinstall:project");
            assert_eq!(
                skip_message(&script),
                "postinstall:project script not found, skipping within the project"
            );
        }
        _ => panic!("expected the script to be skipped"),
    }
}

#[test]
fn dependency_install_runs_its_configured_script() {
    let e = env("/repo", "/repo/node_modules/dep", PackageManager::Pnpm);
    let args = Args {
        delimiter: '/',
        project: "own".to_string(),
        package: "dep".to_string(),
    };
    let m = manifest(&["postinstall/dep"]);
    match dispatch(&e, &args, &m) {
        Ok(Dispatch::Run { script }) => assert_eq!(script.to_string(), "postinstall/dep"),
        _ => panic!("expected the script to run"),
    }
}

#[test]
fn env_resolve_locates_both_roots() {
    let init = dir("/repo/src");
    let pwd = dir("/repo/node_modules/dep");
    let r = Env::resolve(
        &init,
        &vec![false, true, false],
        &pwd,
        &vec![true, false, true, false],
        "postinstall".to_string(),
        "/usr/local/bin/pnpm",
    );
    match r {
        Ok(e) => {
            assert_eq!(e.project_dir.to_path_string(), "/repo");
            assert_eq!(e.package_dir.to_path_string(), "/repo/node_modules/dep");
            assert_eq!(e.package_manager, PackageManager::Pnpm);
            assert_eq!(InstallContext::from_env(&e), InstallContext::Package);
        }
        Err(_) => panic!("expected an environment"),
    }
}

#[test]
fn env_resolve_reports_the_first_failure() {
    let init = dir("/repo");
    let pwd = dir("/other");
    let r = Env::resolve(
        &init,
        &vec![true, false],
        &pwd,
        &vec![false, false],
        "postinstall".to_string(),
        "/bin/sh",
    );
    match r {
        Err(ContextError::AncestorNotFound { searched_from }) => {
            assert_eq!(searched_from.to_path_string(), "/other")
        }
        _ => panic!("expected AncestorNotFound"),
    }
    let r = Env::resolve(
        &init,
        &vec![true, false],
        &pwd,
        &vec![true, false],
        "postinstall".to_string(),
        "/bin/sh",
    );
    assert!(matches!(
        r,
        Err(ContextError::PackageManagerUnrecognized { .. })
    ));
}
