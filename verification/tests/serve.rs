use inferno_cli::command::{CommandContext, Config};
use inferno_cli::net::{IpAddress, SocketAddress};
use inferno_cli::serve::{ServeReload, ServeStart, ServeStatus, ServeStop};

fn local_8080() -> SocketAddress {
    SocketAddress { ip: IpAddress::V4(127, 0, 0, 1), port: 8080 }
}

#[test]
fn test_serve_start_validation() {
    let config = Config::default();
    let cmd = ServeStart::new(config.clone(), local_8080(), None, false, 0);
    let ctx = CommandContext::new(config);
    assert!(cmd.validate(&ctx).is_ok());
}

#[test]
fn test_serve_start_validation_too_many_workers() {
    let config = Config::default();
    let cmd = ServeStart::new(config.clone(), local_8080(), None, true, 150);
    let ctx = CommandContext::new(config);
    let result = cmd.validate(&ctx);
    assert!(result.is_err());
    assert!(result.unwrap_err().to_string().contains("Worker count"));
}

#[test]
fn many_workers_are_fine_when_not_distributed() {
    let config = Config::default();
    let cmd = ServeStart::new(config.clone(), local_8080(), None, false, 150);
    assert!(cmd.validate(&CommandContext::new(config)).is_ok());
    assert_eq!(cmd.workers_label(), "150");
    let auto = ServeStart::new(config.clone(), local_8080(), None, false, 0);
    assert_eq!(auto.workers_label(), "auto");
}

#[test]
fn test_serve_status_validation() {
    let config = Config::default();
    let cmd = ServeStatus::new(config.clone(), false);
    let ctx = CommandContext::new(config);
    assert!(cmd.validate(&ctx).is_ok());
}

#[test]
fn test_serve_reload_validation() {
    let config = Config::default();
    let cmd = ServeReload::new(config.clone(), None);
    let ctx = CommandContext::new(config);
    assert!(cmd.validate(&ctx).is_ok());
}

#[test]
fn reload_with_missing_configuration_file() {
    let config = Config::default();
    let cmd = ServeReload::new(config.clone(), Some("/no/such/inferno.toml".to_string()));
    let ctx = CommandContext::new(config);
    assert_eq!(
        cmd.validate(&ctx),
        Err("Configuration file does not exist: \"/no/such/inferno.toml\"".to_string())
    );
    assert!(cmd.check_config_path(true).is_ok());
}

#[test]
fn test_serve_stop_validation_zero_timeout() {
    let config = Config::default();
    let cmd = ServeStop::new(config.clone(), false, 0);
    let ctx = CommandContext::new(config);
    let result = cmd.validate(&ctx);
    assert!(result.is_err());
    assert!(result.unwrap_err().to_string().contains("Timeout must be greater than 0"));
}

#[test]
fn test_serve_stop_validation_excessive_timeout() {
    let config = Config::default();
    let cmd = ServeStop::new(config.clone(), false, 400);
    let ctx = CommandContext::new(config);
    let result = cmd.validate(&ctx);
    assert!(result.is_err());
    assert!(result.unwrap_err().to_string().contains("Timeout must be <= 300"));
}
