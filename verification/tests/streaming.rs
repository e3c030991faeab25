use inferno_cli::streaming::validate_interactive_model;
use inferno_cli::command::{CommandContext, Config};
use inferno_cli::streaming::{
    check_export_dir, check_export_parent, validate_benchmark, validate_config_export, validate_monitor,
    validate_server, ConfigFormat, StreamingBenchmark, StreamingConfigExport,
};

#[test]
fn test_validate_benchmark_empty_model() {
    let result = validate_benchmark("", "test prompt", 5, 30);
    assert!(result.is_err());
    assert!(result.unwrap_err().to_string().contains("Model name cannot be empty"));
}

#[test]
fn test_validate_benchmark_empty_prompt() {
    let result = validate_benchmark("model.gguf", "", 5, 30);
    assert!(result.is_err());
    assert!(result.unwrap_err().to_string().contains("Prompt cannot be empty"));
}

#[test]
fn test_validate_benchmark_zero_concurrent() {
    let result = validate_benchmark("model.gguf", "test", 0, 30);
    assert!(result.is_err());
    assert!(result
        .unwrap_err()
        .to_string()
        .contains("Concurrent streams must be at least 1"));
}

#[test]
fn test_validate_benchmark_excessive_concurrent() {
    let result = validate_benchmark("model.gguf", "test", 200, 30);
    assert!(result.is_err());
    assert!(result
        .unwrap_err()
        .to_string()
        .contains("Concurrent streams cannot exceed 100"));
}

#[test]
fn test_validate_benchmark_zero_duration() {
    let result = validate_benchmark("model.gguf", "test", 5, 0);
    assert!(result.is_err());
    assert!(result
        .unwrap_err()
        .to_string()
        .contains("Duration must be at least 1 second"));
}

#[test]
fn test_validate_benchmark_excessive_duration() {
    let result = validate_benchmark("model.gguf", "test", 5, 5000);
    assert!(result.is_err());
    assert!(result
        .unwrap_err()
        .to_string()
        .contains("Duration cannot exceed 3600 seconds"));
}

#[test]
fn test_validate_benchmark_valid() {
    let result = validate_benchmark("model.gguf", "test prompt", 5, 30);
    assert!(result.is_ok());
}

#[test]
fn test_validate_monitor_zero_interval() {
    let result = validate_monitor(0);
    assert!(result.is_err());
    assert!(result
        .unwrap_err()
        .to_string()
        .contains("Monitor interval must be at least 1 second"));
}

#[test]
fn test_validate_monitor_excessive_interval() {
    let result = validate_monitor(4000);
    assert!(result.is_err());
    assert!(result
        .unwrap_err()
        .to_string()
        .contains("Monitor interval cannot exceed 3600 seconds"));
}

#[test]
fn test_validate_monitor_valid() {
    let result = validate_monitor(5);
    assert!(result.is_ok());
}

#[test]
fn test_validate_server_zero_connections() {
    let result = validate_server(0);
    assert!(result.is_err());
    assert!(result
        .unwrap_err()
        .to_string()
        .contains("Maximum connections must be at least 1"));
}

#[test]
fn test_validate_server_excessive_connections() {
    let result = validate_server(20000);
    assert!(result.is_err());
    assert!(result
        .unwrap_err()
        .to_string()
        .contains("Maximum connections cannot exceed 10000"));
}

#[test]
fn test_validate_server_valid() {
    let result = validate_server(50);
    assert!(result.is_ok());
}

#[test]
fn test_validate_config_export_no_output() {
    let result = validate_config_export(&None);
    assert!(result.is_ok());
}

#[test]
fn test_validate_config_export_nonexistent_parent() {
    let path = "/nonexistent/directory/config.json".to_string();
    let result = validate_config_export(&Some(path));
    assert!(result.is_err());
    assert!(result
        .unwrap_err()
        .to_string()
        .contains("Output directory does not exist"));
}

#[test]
fn test_validate_config_export_valid_path() {
    let path = "./config.json".to_string();
    let result = validate_config_export(&Some(path));
    assert!(result.is_ok());
}

#[test]
fn export_parent_decision_names_the_directory() {
    let missing = check_export_parent(&Some("out/dir".to_string()), false);
    assert_eq!(missing, Err("Output directory does not exist: out/dir".to_string()));
    assert!(check_export_parent(&Some("out/dir".to_string()), true).is_ok());
    assert!(check_export_parent(&Some(String::new()), false).is_ok());
    assert!(check_export_parent(&None, false).is_ok());
}

#[test]
fn export_parent_of_bare_file_name_is_empty() {
    assert!(validate_config_export(&Some("config.json".to_string())).is_ok());
}

#[test]
fn benchmark_limits_are_inclusive() {
    assert!(validate_benchmark("m", "p", 100, 3600).is_ok());
    assert!(validate_benchmark("m", "p", 1, 1).is_ok());
    assert!(validate_monitor(3600).is_ok());
    assert!(validate_server(10000).is_ok());
}

#[test]
fn config_format_names() {
    assert_eq!(ConfigFormat::Json.name(), "json");
    assert_eq!(ConfigFormat::Yaml.name(), "yaml");
    assert_eq!(ConfigFormat::Toml.name(), "toml");
}

#[test]
fn test_streaming_benchmark_validation_empty_model() {
    let config = Config::default();
    let cmd = StreamingBenchmark::new(config.clone(), String::new(), 5, "test prompt".to_string(), 30);
    let ctx = CommandContext::new(config);
    let result = cmd.validate(&ctx);
    assert!(result.is_err());
    assert!(result.unwrap_err().to_string().contains("Model name cannot be empty"));
}

#[test]
fn test_streaming_benchmark_validation_empty_prompt() {
    let config = Config::default();
    let cmd = StreamingBenchmark::new(config.clone(), "model.gguf".to_string(), 5, String::new(), 30);
    let ctx = CommandContext::new(config);
    let result = cmd.validate(&ctx);
    assert!(result.is_err());
    assert!(result.unwrap_err().to_string().contains("Prompt cannot be empty"));
}

#[test]
fn test_streaming_benchmark_validation_zero_concurrent() {
    let config = Config::default();
    let cmd = StreamingBenchmark::new(config.clone(), "model.gguf".to_string(), 0, "test".to_string(), 30);
    let ctx = CommandContext::new(config);
    let result = cmd.validate(&ctx);
    assert!(result.is_err());
    assert!(result
        .unwrap_err()
        .to_string()
        .contains("Concurrent streams must be at least 1"));
}

#[test]
fn test_streaming_benchmark_validation_excessive_concurrent() {
    let config = Config::default();
    let cmd = StreamingBenchmark::new(config.clone(), "model.gguf".to_string(), 200, "test".to_string(), 30);
    let ctx = CommandContext::new(config);
    let result = cmd.validate(&ctx);
    assert!(result.is_err());
    assert!(result
        .unwrap_err()
        .to_string()
        .contains("Concurrent streams cannot exceed 100"));
}

#[test]
fn test_streaming_benchmark_validation_excessive_duration() {
    let config = Config::default();
    let cmd = StreamingBenchmark::new(config.clone(), "model.gguf".to_string(), 5, "test".to_string(), 5000);
    let ctx = CommandContext::new(config);
    let result = cmd.validate(&ctx);
    assert!(result.is_err());
    assert!(result
        .unwrap_err()
        .to_string()
        .contains("Duration cannot exceed 3600 seconds"));
}

#[test]
fn test_config_export_validation() {
    let config = Config::default();
    let cmd = StreamingConfigExport::new(ConfigFormat::Json, None);
    let ctx = CommandContext::new(config);
    let result = cmd.validate(&ctx);
    assert!(result.is_ok());
}

#[test]
fn interactive_sessions_need_a_model() {
    assert_eq!(validate_interactive_model(""), Err("Model name cannot be empty".to_string()));
    assert!(validate_interactive_model("model.gguf").is_ok());
}

#[test]
fn missing_export_directory_is_named() {
    let result = validate_config_export(&Some("/nonexistent/directory/config.json".to_string()));
    assert_eq!(result, Err("Output directory does not exist: /nonexistent/directory".to_string()));
}

// The temperature (0.7) and top-p (0.9) of these sessions are in range; the
// library decides on the model.
#[test]
fn test_validate_interactive_empty_model() {
    let result = validate_interactive_model("");
    assert!(result.is_err());
    assert!(result.unwrap_err().to_string().contains("Model name cannot be empty"));
}

#[test]
fn test_validate_interactive_valid() {
    let result = validate_interactive_model("model.gguf");
    assert!(result.is_ok());
}

#[test]
fn export_directory_decision() {
    assert!(check_export_dir(&None, false).is_ok());
    assert!(check_export_dir(&Some("out".to_string()), true).is_ok());
    assert_eq!(
        check_export_dir(&Some("out".to_string()), false),
        Err("Output directory does not exist: out".to_string())
    );
    assert_eq!(
        check_export_dir(&Some(String::new()), false),
        Err("Output directory does not exist: ".to_string())
    );
}

#[test]
fn streaming_command_names() {
    let export = StreamingConfigExport::new(ConfigFormat::Json, None);
    assert_eq!(export.name(), "streaming config");
    assert_eq!(export.description(), "Export streaming configuration");
}
