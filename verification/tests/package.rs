use inferno_cli::command::{CommandContext, Config};
use inferno_cli::package::{
    classify_install_error, dependency_view, limit_results, package_clean_scope, remove_prompt,
    size_unit, size_unit_name, DependencyView, InstallFailure, PackageClean, PackageCleanScope,
    PackageInfo, PackageInstall, PackageList, PackageRemove, PackageSearch, PackageUpdate,
};

fn test_config() -> Config {
    Config::default()
}

#[test]
fn test_package_install_validation() {
    let ctx = CommandContext::new(test_config());
    let cmd = PackageInstall::new(test_config(), "llama-2-7b".to_string(), false, None, false, false);
    assert!(cmd.validate(&ctx).is_ok());
    let cmd = PackageInstall::new(test_config(), "".to_string(), false, None, false, false);
    assert!(cmd.validate(&ctx).is_err());
}

#[test]
fn test_package_search_validation() {
    let ctx = CommandContext::new(test_config());
    let cmd = PackageSearch::new(test_config(), "llama".to_string(), None, 20, false);
    assert!(cmd.validate(&ctx).is_ok());
    let cmd = PackageSearch::new(test_config(), "".to_string(), None, 20, false);
    assert!(cmd.validate(&ctx).is_err());
    let cmd = PackageSearch::new(test_config(), "llama".to_string(), None, 150, false);
    assert!(cmd.validate(&ctx).is_err());
    let cmd = PackageSearch::new(test_config(), "llama".to_string(), None, 0, false);
    assert!(cmd.validate(&ctx).is_err());
}

#[test]
fn test_package_info_validation() {
    let ctx = CommandContext::new(test_config());
    let cmd = PackageInfo::new(test_config(), "llama-2-7b".to_string(), false, false);
    assert!(cmd.validate(&ctx).is_ok());
    let cmd = PackageInfo::new(test_config(), "".to_string(), false, false);
    assert!(cmd.validate(&ctx).is_err());
}

#[test]
fn install_target_must_exist() {
    let ctx = CommandContext::new(test_config());
    let missing = "/definitely/not/a/dir".to_string();
    let cmd = PackageInstall::new(test_config(), "pkg".to_string(), true, Some(missing), true, false);
    assert_eq!(
        cmd.validate(&ctx),
        Err("Target directory does not exist: \"/definitely/not/a/dir\"".to_string())
    );
    assert!(cmd.check(true).is_ok());
    let here = PackageInstall::new(test_config(), "pkg".to_string(), true, Some(".".to_string()), true, false);
    assert!(here.validate(&ctx).is_ok());
}

#[test]
fn search_limit_bounds() {
    let ctx = CommandContext::new(test_config());
    assert!(PackageSearch::new(test_config(), "q".to_string(), None, 1, false).validate(&ctx).is_ok());
    assert!(PackageSearch::new(test_config(), "q".to_string(), None, 100, true).validate(&ctx).is_ok());
    assert_eq!(
        PackageSearch::new(test_config(), "q".to_string(), None, 101, false).validate(&ctx),
        Err("Limit must be between 1 and 100".to_string())
    );
    assert_eq!(
        PackageSearch::new(test_config(), String::new(), None, 101, false).validate(&ctx),
        Err("Search query cannot be empty".to_string())
    );
}

#[test]
fn other_commands_accept_their_arguments() {
    let ctx = CommandContext::new(test_config());
    assert!(PackageRemove::new(test_config(), "p".to_string(), false, false, true).validate(&ctx).is_ok());
    assert!(PackageRemove::new(test_config(), String::new(), false, false, true).validate(&ctx).is_err());
    assert!(PackageList::new(test_config(), None, false, true).validate(&ctx).is_ok());
    let update = PackageUpdate::new(test_config(), None, false, true);
    assert!(update.validate(&ctx).is_ok());
    assert_eq!(update.result_message(), "Update check completed");
    let update = PackageUpdate::new(test_config(), Some("p".to_string()), true, false);
    assert_eq!(update.result_message(), "Packages updated successfully");
    let clean = PackageClean::new(test_config(), true, true);
    assert!(clean.validate(&ctx).is_ok());
    assert_eq!(clean.space_freed(), "10.8 GB");
    assert_eq!(PackageClean::new(test_config(), false, false).space_freed(), "2.6 GB");
}

#[test]
fn install_errors_are_classified_case_insensitively() {
    assert_eq!(classify_install_error("Package NOT FOUND in repository"), InstallFailure::NotFound);
    assert_eq!(classify_install_error("Connection refused"), InstallFailure::Network);
    assert_eq!(classify_install_error("network unreachable"), InstallFailure::Network);
    assert_eq!(classify_install_error("disk full"), InstallFailure::Other);
}

#[test]
fn removal_prompt_mentions_dependencies() {
    assert_eq!(remove_prompt("llama", true), "Remove package 'llama' and its dependencies?");
    assert_eq!(remove_prompt("llama", false), "Remove package 'llama'?");
}

#[test]
fn search_results_are_limited() {
    assert_eq!(limit_results(vec![1, 2, 3, 4], 2), vec![1, 2]);
    assert_eq!(limit_results(vec![1, 2], 5), vec![1, 2]);
    assert_eq!(limit_results(Vec::<u8>::new(), 0), Vec::<u8>::new());
}

#[test]
fn size_units() {
    assert_eq!(size_unit(0), 0);
    assert_eq!(size_unit(1023), 0);
    assert_eq!(size_unit(1024), 1);
    assert_eq!(size_unit(1024 * 1024 - 1), 1);
    assert_eq!(size_unit(1024 * 1024), 2);
    assert_eq!(size_unit(5 * 1024 * 1024 * 1024), 3);
    assert_eq!(size_unit(1u64 << 40), 4);
    assert_eq!(size_unit(u64::MAX), 4);
    assert_eq!(size_unit_name(0), "B");
    assert_eq!(size_unit_name(2), "MB");
    assert_eq!(size_unit_name(4), "TB");
}

#[test]
fn clean_and_dependency_choices() {
    assert_eq!(package_clean_scope(true, true, true), PackageCleanScope::All);
    assert_eq!(package_clean_scope(false, true, true), PackageCleanScope::Packages);
    assert_eq!(package_clean_scope(false, false, true), PackageCleanScope::Metadata);
    assert_eq!(package_clean_scope(false, false, false), PackageCleanScope::Temporary);
    assert_eq!(dependency_view(true, true), DependencyView::Reverse);
    assert_eq!(dependency_view(false, true), DependencyView::Tree);
    assert_eq!(dependency_view(false, false), DependencyView::Direct);
}
