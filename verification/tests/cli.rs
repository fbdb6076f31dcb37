use sidecar_supervisor::cli::{
    check_install, check_version, install_cli, is_cli_installed, plan_sync, sync_action, sync_cli,
    InstallError, SkipReason, SyncAction, SyncPlan, Version, VersionQuery, CLI_BINARY_NAME,
    CLI_INSTALL_DIR,
};

fn version(text: &str) -> Version {
    Version::parse(text).unwrap()
}

#[test]
fn install_location() {
    assert_eq!(CLI_INSTALL_DIR, ".opencode/bin");
    assert_eq!(CLI_BINARY_NAME, "opencode");
}

#[test]
fn installed_only_where_the_place_is_known_and_the_program_is_there() {
    assert!(is_cli_installed(Some(true)));
    assert!(!is_cli_installed(Some(false)));
    assert!(!is_cli_installed(None));
}

#[test]
fn versions_are_read_by_the_semver_rules() {
    assert_eq!(version("1.2.3").as_str(), "1.2.3");
    assert_eq!(version("0.0.0-alpha.1+build.5").as_str(), "0.0.0-alpha.1+build.5");
    assert_eq!(
        Version::parse("").unwrap_err(),
        semver::Version::parse("").unwrap_err().to_string()
    );
    assert_eq!(
        Version::parse("1.q.r").unwrap_err(),
        "unexpected character 'q' while parsing minor version number"
    );
    assert!(Version::parse("1.2").is_err());
    assert!(Version::parse("v1.2.3").is_err());
    assert!(Version::parse("1.2.3 ").is_err());
    assert!(Version::parse("01.2.3").is_err());
}

#[test]
fn versions_are_ordered_by_the_semver_rules() {
    assert!(version("1.5.0").is_older_than(&version("1.19.0")));
    assert!(!version("1.19.0").is_older_than(&version("1.5.0")));
    assert!(!version("1.2.3").is_older_than(&version("1.2.3")));
    assert!(version("1.0.0-alpha.1").is_older_than(&version("1.0.0")));
    assert!(version("1.0.0-pre.8").is_older_than(&version("1.0.0-pre.12")));
    assert!(version("0.9.9").is_older_than(&version("1.0.0-alpha")));
}

#[test]
fn sync_is_skipped_for_debug_builds_and_missing_installs() {
    assert_eq!(
        plan_sync(true, true, Some("/h/.opencode/bin/opencode".to_string())),
        Ok(SyncPlan::Skip(SkipReason::DebugBuild))
    );
    assert_eq!(plan_sync(true, false, None), Ok(SyncPlan::Skip(SkipReason::DebugBuild)));
    assert_eq!(
        plan_sync(false, false, Some("/p".to_string())),
        Ok(SyncPlan::Skip(SkipReason::NotInstalled))
    );
    assert_eq!(
        plan_sync(false, true, Some("/p".to_string())),
        Ok(SyncPlan::QueryVersion { path: "/p".to_string() })
    );
    assert_eq!(
        plan_sync(false, true, None),
        Err("Could not determine CLI install path".to_string())
    );
}

#[test]
fn older_installed_version_is_installed_again() {
    let app = version("1.4.0");
    assert_eq!(
        sync_cli(VersionQuery::Output("1.3.9\n".to_string()), &app),
        Ok(SyncAction::Reinstall)
    );
    assert_eq!(
        sync_cli(VersionQuery::Output("  1.4.0-rc.1  ".to_string()), &app),
        Ok(SyncAction::Reinstall)
    );
}

#[test]
fn same_or_newer_installed_version_is_left() {
    let app = version("1.4.0");
    for reported in ["1.4.0", "1.4.0\n", "\t1.4.1\r\n", "2.0.0", "1.10.0"] {
        assert_eq!(
            sync_cli(VersionQuery::Output(reported.to_string()), &app),
            Ok(SyncAction::Skip(SkipReason::UpToDate)),
            "{reported:?}"
        );
    }
}

#[test]
fn unreadable_version_is_an_error() {
    let app = version("1.4.0");
    assert_eq!(
        sync_cli(VersionQuery::Output(" one.two \n".to_string()), &app),
        Err(format!(
            "Failed to parse CLI version 'one.two': {}",
            semver::Version::parse("one.two").unwrap_err()
        ))
    );
    assert_eq!(
        sync_cli(VersionQuery::Output("\n".to_string()), &app),
        Err("Failed to parse CLI version '': empty string, expected a semver version"
            .to_string())
    );
}

#[test]
fn failed_version_query_is_an_error() {
    let app = version("1.4.0");
    assert_eq!(
        sync_cli(VersionQuery::NotRun("No such file".to_string()), &app),
        Err("Failed to get CLI version: No such file".to_string())
    );
    assert_eq!(
        sync_cli(VersionQuery::Failed, &app),
        Err("Failed to get CLI version".to_string())
    );
}

#[test]
fn sync_action_follows_the_comparison() {
    assert_eq!(sync_action("1.0.0", Ok(true)), Ok(SyncAction::Reinstall));
    assert_eq!(sync_action("1.0.0", Ok(false)), Ok(SyncAction::Skip(SkipReason::UpToDate)));
    assert_eq!(
        sync_action("x", Err("bad".to_string())),
        Err("Failed to parse CLI version 'x': bad".to_string())
    );
}

#[test]
fn version_check_compares_with_the_application() {
    let app = version("2.0.0");
    assert_eq!(check_version("1.0.0", &app), Ok(true));
    assert_eq!(check_version("2.0.0", &app), Ok(false));
    assert_eq!(check_version("3.0.0", &app), Ok(false));
    assert!(check_version("2", &app).is_err());
}

#[test]
fn install_starts_only_on_unix_with_a_binary() {
    assert_eq!(check_install(false, true), Err(InstallError::Unsupported));
    assert_eq!(check_install(false, false), Err(InstallError::Unsupported));
    assert_eq!(check_install(true, false), Err(InstallError::SidecarMissing));
    assert_eq!(check_install(true, true), Ok(()));
}

#[test]
fn install_result() {
    assert_eq!(
        install_cli(true, String::new(), Some("/h/.opencode/bin/opencode".to_string())),
        Ok("/h/.opencode/bin/opencode".to_string())
    );
    assert_eq!(
        install_cli(false, "no space".to_string(), Some("/p".to_string())),
        Err(InstallError::ScriptFailed("no space".to_string()))
    );
    assert_eq!(install_cli(true, "warn".to_string(), None), Err(InstallError::NoInstallPath));
}

#[test]
fn install_error_messages() {
    assert_eq!(
        InstallError::Unsupported.message(),
        "CLI installation is only supported on macOS & Linux"
    );
    assert_eq!(InstallError::SidecarMissing.message(), "Sidecar binary not found");
    assert_eq!(
        InstallError::WriteScript("denied".to_string()).message(),
        "Failed to write install script: denied"
    );
    assert_eq!(
        InstallError::SetPermissions("denied".to_string()).message(),
        "Failed to set script permissions: denied"
    );
    assert_eq!(
        InstallError::RunScript("enoent".to_string()).message(),
        "Failed to run install script: enoent"
    );
    assert_eq!(
        InstallError::ScriptFailed("boom".to_string()).message(),
        "Install script failed: boom"
    );
    assert_eq!(InstallError::NoInstallPath.message(), "Could not determine install path");
}
