use inferno_cli::tuning::{validate_monitor_target, validate_validation_target};
use inferno_cli::command::{CommandContext, Config};
use inferno_cli::tuning::{
    parse_key_value_pairs, profile_options, session_name, OptimizeAnalyze, OptimizeApply,
    OptimizeReport, OptimizeTune,
};

#[test]
fn test_analyze_validation_zero_duration() {
    let config = Config::default();
    let cmd = OptimizeAnalyze::new(config.clone(), "target".to_string(), 0, false);
    let ctx = CommandContext::new(config);
    let result = cmd.validate(&ctx);
    assert!(result.is_err());
    assert!(result.unwrap_err().to_string().contains("Duration must be greater than 0"));
}

#[test]
fn test_tune_validation_invalid_strategy() {
    let config = Config::default();
    let cmd = OptimizeTune::new(config.clone(), "target".to_string(), 100, "invalid".to_string());
    let ctx = CommandContext::new(config);
    let result = cmd.validate(&ctx);
    assert!(result.is_err());
    assert!(result.unwrap_err().to_string().contains("Strategy must be one of"));
}

#[test]
fn performance_optimization_v2_test_report_validation_invalid_format() {
    let config = Config::default();
    let cmd = OptimizeReport::new(config.clone(), "target".to_string(), "24h".to_string(), "invalid".to_string());
    let ctx = CommandContext::new(config);
    let result = cmd.validate(&ctx);
    assert!(result.is_err());
    assert!(result.unwrap_err().to_string().contains("Format must be one of"));
}

#[test]
fn optimization_commands_check_their_arguments() {
    let config = Config::default();
    let ctx = CommandContext::new(config);
    assert!(OptimizeTune::new(config, "t".to_string(), 5, "bayesian".to_string()).validate(&ctx).is_ok());
    assert_eq!(
        OptimizeTune::new(config, "t".to_string(), 0, "grid".to_string()).validate(&ctx),
        Err("Iterations must be greater than 0".to_string())
    );
    assert_eq!(
        OptimizeApply::new(config, "t".to_string(), String::new(), true).validate(&ctx),
        Err("Recommendations path cannot be empty".to_string())
    );
    assert!(OptimizeApply::new(config, "t".to_string(), "r.json".to_string(), false).validate(&ctx).is_ok());
    assert_eq!(
        OptimizeReport::new(config, "t".to_string(), "1w".to_string(), "pdf".to_string()).validate(&ctx),
        Err("Time range must be one of: 1h, 24h, 7d, 30d".to_string())
    );
    assert!(OptimizeAnalyze::new(config, "t".to_string(), 3, true).validate(&ctx).is_ok());
}

#[test]
fn optimization_report_location() {
    let config = Config::default();
    let r = OptimizeReport::new(config, "gpu".to_string(), "7d".to_string(), "markdown".to_string());
    assert!(r.validate(&CommandContext::new(config)).is_ok());
    assert_eq!(r.report_path(), "reports/optimization-gpu.markdown");
}

#[test]
fn key_value_parameters() {
    let input = vec![
        "a=1".to_string(),
        "b=2".to_string(),
        "a=3".to_string(),
        "noequals".to_string(),
        "c=x=y".to_string(),
        "=empty".to_string(),
    ];
    let mut pairs = parse_key_value_pairs(Some(input));
    pairs.sort();
    assert_eq!(
        pairs,
        vec![
            ("".to_string(), "empty".to_string()),
            ("a".to_string(), "3".to_string()),
            ("b".to_string(), "2".to_string()),
            ("c".to_string(), "x=y".to_string()),
        ]
    );
    assert!(parse_key_value_pairs(None).is_empty());
}

#[test]
fn profiling_options_and_session() {
    let opts = profile_options(true, false, true, false, true);
    let names: Vec<&str> = opts.iter().map(|(k, _)| k.as_str()).collect();
    assert_eq!(names, vec!["cpu", "io", "gpu"]);
    assert!(opts.iter().all(|(_, v)| v == "true"));
    assert!(profile_options(false, false, false, false, false).is_empty());
    assert_eq!(session_name(None), "current");
    assert_eq!(session_name(Some("nightly".to_string())), "nightly");
}

#[test]
fn monitor_and_validation_targets() {
    assert_eq!(validate_monitor_target("", 5), Err("Target cannot be empty".to_string()));
    assert_eq!(validate_monitor_target("t", 0), Err("Interval must be greater than 0".to_string()));
    assert!(validate_monitor_target("t", 1).is_ok());
    assert_eq!(validate_validation_target("t", ""), Err("Baseline path cannot be empty".to_string()));
    assert!(validate_validation_target("t", "b.json").is_ok());
}
