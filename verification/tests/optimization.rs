use inferno_cli::optimization::{validate_distill_paths, validate_prune_paths};
use inferno_cli::command::{CommandContext, Config};
use inferno_cli::optimization::{OptimizeBenchmark, OptimizeProfile, OptimizeQuantize};

#[test]
fn test_quantize_validation_invalid_precision() {
    let config = Config::default();
    let cmd = OptimizeQuantize::new(
        config.clone(),
        "input.gguf".to_string(),
        "output.gguf".to_string(),
        "invalid".to_string(),
    );
    let ctx = CommandContext::new(config);
    let result = cmd.validate(&ctx);
    assert!(result.is_err());
    assert!(result.unwrap_err().to_string().contains("Precision must be one of"));
}

#[test]
fn test_benchmark_validation_invalid_technique() {
    let config = Config::default();
    let cmd = OptimizeBenchmark::new(config.clone(), "model.gguf".to_string(), vec!["invalid".to_string()]);
    let ctx = CommandContext::new(config);
    let result = cmd.validate(&ctx);
    assert!(result.is_err());
    assert!(result.unwrap_err().to_string().contains("Invalid technique"));
}

#[test]
fn first_unknown_technique_is_reported() {
    let config = Config::default();
    let techniques = vec!["prune".to_string(), "shrink".to_string(), "bogus".to_string()];
    let cmd = OptimizeBenchmark::new(config.clone(), "model.gguf".to_string(), techniques);
    assert_eq!(
        cmd.validate(&CommandContext::new(config)),
        Err("Invalid technique: shrink. Must be one of: quantize, prune, distill, all".to_string())
    );
    let ok = OptimizeBenchmark::new(config.clone(), "m".to_string(), vec!["all".to_string(), "distill".to_string()]);
    assert!(ok.validate(&CommandContext::new(config)).is_ok());
    let none = OptimizeBenchmark::new(config.clone(), "m".to_string(), Vec::new());
    assert!(none.validate(&CommandContext::new(config)).is_ok());
}

#[test]
fn quantize_checks_paths_first() {
    let config = Config::default();
    let ctx = CommandContext::new(config);
    let cmd = OptimizeQuantize::new(config, String::new(), String::new(), "bad".to_string());
    assert_eq!(cmd.validate(&ctx), Err("Input path cannot be empty".to_string()));
    let cmd = OptimizeQuantize::new(config, "in".to_string(), String::new(), "bad".to_string());
    assert_eq!(cmd.validate(&ctx), Err("Output path cannot be empty".to_string()));
    let cmd = OptimizeQuantize::new(config, "in".to_string(), "out".to_string(), "int4".to_string());
    assert!(cmd.validate(&ctx).is_ok());
}

#[test]
fn profile_needs_a_model() {
    let config = Config::default();
    let ctx = CommandContext::new(config);
    let cmd = OptimizeProfile::new(config, String::new(), true);
    assert_eq!(cmd.validate(&ctx), Err("Model path cannot be empty".to_string()));
    assert!(OptimizeProfile::new(config, "m.gguf".to_string(), false).validate(&ctx).is_ok());
}

#[test]
fn prune_and_distill_paths() {
    assert_eq!(validate_prune_paths("", "o"), Err("Input path cannot be empty".to_string()));
    assert_eq!(validate_prune_paths("i", ""), Err("Output path cannot be empty".to_string()));
    assert!(validate_prune_paths("i", "o").is_ok());
    assert_eq!(validate_distill_paths("", "s", "o"), Err("Teacher path cannot be empty".to_string()));
    assert_eq!(validate_distill_paths("t", "", "o"), Err("Student path cannot be empty".to_string()));
    assert_eq!(validate_distill_paths("t", "s", ""), Err("Output path cannot be empty".to_string()));
    assert!(validate_distill_paths("t", "s", "o").is_ok());
}

#[test]
fn optimization_command_names() {
    let q = OptimizeQuantize::new(
        Config::default(),
        "in.gguf".to_string(),
        "out.gguf".to_string(),
        "int8".to_string(),
    );
    assert_eq!(q.name(), "optimize quantize");
    assert_eq!(q.description(), "Quantize model to reduce size and improve performance");
    let b = OptimizeBenchmark::new(Config::default(), "m.gguf".to_string(), vec![]);
    assert_eq!(b.name(), "optimize benchmark");
}
