use inferno_cli::command::{CommandContext, Config};
use inferno_cli::upgrade::{
    format_changelog, install_needs_confirmation, interval_in_hours, requested_version_available,
    status_to_string, validate_channel, validate_format, validate_interval_hours, validate_limit,
    validate_upgrade_command, validate_version_format, ConfigCommands, ServiceCommands,
    UpgradeCheck, UpgradeCommands, UpgradeInstall, UpgradeRollback, UpgradeStatus,
    UpgradeStatusCmd,
};

#[test]
fn test_validate_format_valid() {
    assert!(validate_format("text").is_ok());
    assert!(validate_format("json").is_ok());
}

#[test]
fn test_validate_format_invalid() {
    assert!(validate_format("xml").is_err());
    assert!(validate_format("yaml").is_err());
    assert!(validate_format("").is_err());
}

#[test]
fn test_validate_version_format_valid() {
    assert!(validate_version_format("0.5.0").is_ok());
    assert!(validate_version_format("v0.5.0").is_ok());
    assert!(validate_version_format("1.0.0").is_ok());
    assert!(validate_version_format("1.0").is_ok());
    assert!(validate_version_format("10.20.30").is_ok());
    assert!(validate_version_format("0.5.0-beta.1").is_ok());
}

#[test]
fn test_validate_version_format_invalid() {
    assert!(validate_version_format("abc").is_err());
    assert!(validate_version_format("1").is_err());
    assert!(validate_version_format("1.2.3.4").is_err());
    assert!(validate_version_format("a.b.c").is_err());
}

#[test]
fn test_validate_channel_valid() {
    assert!(validate_channel("stable").is_ok());
    assert!(validate_channel("beta").is_ok());
    assert!(validate_channel("nightly").is_ok());
    assert!(validate_channel("alpha").is_ok());
    assert!(validate_channel("STABLE").is_ok());
}

#[test]
fn test_validate_channel_invalid() {
    assert!(validate_channel("unstable").is_err());
    assert!(validate_channel("dev").is_err());
    assert!(validate_channel("").is_err());
}

#[test]
fn test_validate_interval_hours_valid() {
    assert!(validate_interval_hours(1).is_ok());
    assert!(validate_interval_hours(24).is_ok());
    assert!(validate_interval_hours(168).is_ok());
    assert!(validate_interval_hours(8760).is_ok());
}

#[test]
fn test_validate_interval_hours_invalid() {
    assert!(validate_interval_hours(0).is_err());
    assert!(validate_interval_hours(8761).is_err());
}

#[test]
fn test_validate_limit_valid() {
    assert!(validate_limit(1, 100).is_ok());
    assert!(validate_limit(50, 100).is_ok());
    assert!(validate_limit(100, 100).is_ok());
}

#[test]
fn test_validate_limit_invalid() {
    assert!(validate_limit(0, 100).is_err());
    assert!(validate_limit(101, 100).is_err());
}

#[test]
fn test_status_to_string() {
    assert_eq!(status_to_string(&UpgradeStatus::UpToDate), "Up to date");
    assert_eq!(status_to_string(&UpgradeStatus::Checking), "Checking for updates");
}

#[test]
fn test_format_changelog_short() {
    let changelog = "Line 1\nLine 2\nLine 3";
    let formatted = format_changelog(changelog);
    assert!(formatted.contains("Line 1"));
    assert!(formatted.contains("Line 2"));
    assert!(formatted.contains("Line 3"));
    assert!(!formatted.contains("truncated"));
}

#[test]
fn test_format_changelog_long() {
    let lines: Vec<String> = (1..=15).map(|i| format!("Line {}", i)).collect();
    let changelog = lines.join("\n");
    let formatted = format_changelog(&changelog);
    assert!(formatted.contains("truncated"));
    assert!(formatted.contains("Line 1"));
    assert!(formatted.contains("Line 10"));
}

#[test]
fn changelog_keeps_exactly_ten_lines() {
    let lines: Vec<String> = (1..=11).map(|i| format!("L{}", i)).collect();
    let formatted = format_changelog(&lines.join("\n"));
    assert!(formatted.contains("L10"));
    assert!(!formatted.contains("L11"));
    assert_eq!(format_changelog("a\nb"), "   a\n   b");
}

#[test]
fn status_text_with_progress() {
    assert_eq!(
        status_to_string(&UpgradeStatus::Downloading { progress_percent: 42 }),
        "Downloading (42%)"
    );
    assert_eq!(
        status_to_string(&UpgradeStatus::Installing { stage: "unpack".to_string(), progress_percent: 7 }),
        "Installing: unpack (7%)"
    );
    assert_eq!(status_to_string(&UpgradeStatus::Failed), "Installation failed");
}

#[test]
fn error_messages_are_exact() {
    assert_eq!(
        validate_format("xml"),
        Err("Invalid output format 'xml'. Valid formats are: text, json".to_string())
    );
    assert_eq!(validate_limit(101, 100), Err("Limit cannot exceed 100".to_string()));
    assert_eq!(validate_limit(0, 100), Err("Limit must be at least 1".to_string()));
    assert_eq!(
        validate_channel("Dev"),
        Err("Invalid update channel 'Dev'. Valid channels are: stable, beta, nightly, alpha".to_string())
    );
}

#[test]
fn version_prefix_is_optional() {
    assert!(validate_version_format("v1.2").is_ok());
    assert!(validate_version_format("vv1.2").is_err());
    assert!(validate_version_format("").is_err());
}

#[test]
fn upgrade_commands_check_their_arguments() {
    let list = UpgradeCommands::List { limit: 101, include_prerelease: false, format: "text".to_string() };
    assert_eq!(validate_upgrade_command(&list), Err("Limit cannot exceed 100".to_string()));
    let history = UpgradeCommands::History { limit: 1000, format: "json".to_string() };
    assert!(validate_upgrade_command(&history).is_ok());
    let history = UpgradeCommands::History { limit: 1001, format: "xml".to_string() };
    assert_eq!(
        validate_upgrade_command(&history),
        Err("Invalid output format 'xml'. Valid formats are: text, json".to_string())
    );
    let channel = UpgradeCommands::Config { action: ConfigCommands::SetChannel { channel: "Beta".to_string() } };
    assert!(validate_upgrade_command(&channel).is_ok());
    let interval = UpgradeCommands::Config { action: ConfigCommands::SetInterval { hours: 0 } };
    assert!(validate_upgrade_command(&interval).is_err());
    let service = UpgradeCommands::Service { action: ServiceCommands::Start };
    assert!(validate_upgrade_command(&service).is_ok());
    let install = UpgradeCommands::Install { version: Some("x.y".to_string()), yes: true, backup: true, dry_run: false };
    assert!(validate_upgrade_command(&install).is_err());
}

#[test]
fn install_decisions() {
    assert!(install_needs_confirmation(false, false));
    assert!(!install_needs_confirmation(true, false));
    assert!(!install_needs_confirmation(false, true));
    assert!(requested_version_available("0.2.1", &None));
    assert!(requested_version_available("0.2.1", &Some("0.2.1".to_string())));
    assert!(!requested_version_available("0.2.1", &Some("0.2.0".to_string())));
    assert_eq!(interval_in_hours(86400), 24);
    assert_eq!(interval_in_hours(3599), 0);
}

#[test]
fn test_upgrade_check_validation() {
    let config = Config::default();
    let cmd = UpgradeCheck::new(config.clone(), false, false);
    let ctx = CommandContext::new(config);
    assert!(cmd.validate(&ctx).is_ok());
}

#[test]
fn test_upgrade_install_validation() {
    let config = Config::default();
    let cmd = UpgradeInstall::new(config.clone(), None, false, true, false);
    let ctx = CommandContext::new(config);
    assert!(cmd.validate(&ctx).is_ok());
    assert_eq!(cmd.result_message(), "Upgrade installation requested");
}

#[test]
fn test_upgrade_status_validation() {
    let config = Config::default();
    let cmd = UpgradeStatusCmd::new(config.clone(), false);
    let ctx = CommandContext::new(config);
    assert!(cmd.validate(&ctx).is_ok());
}

#[test]
fn test_upgrade_rollback_validation() {
    let config = Config::default();
    let cmd = UpgradeRollback::new(config.clone(), false, None);
    let ctx = CommandContext::new(config);
    assert!(cmd.validate(&ctx).is_ok());
}

#[test]
fn channels_are_matched_in_any_case() {
    assert!(validate_channel("Beta").is_ok());
    assert!(validate_channel("NIGHTLY").is_ok());
    assert!(validate_channel("gamma").is_err());
}
