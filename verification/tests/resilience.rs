use inferno_cli::resilience::{classify_breaker_call, reports_progress, resilience_pattern, CallOutcome, PatternTally, ResiliencePattern};
use inferno_cli::resilience::validate_resilience_test;
use inferno_cli::command::{CommandContext, Config};
use inferno_cli::resilience::{BulkheadList, CircuitBreakerList, CircuitBreakerReset, ResilienceStatus};

#[test]
fn test_resilience_status_validation() {
    let config = Config::default();
    let cmd = ResilienceStatus::new(config.clone());
    let ctx = CommandContext::new(config);
    assert!(cmd.validate(&ctx).is_ok());
}

#[test]
fn test_circuit_breaker_reset_validation_empty() {
    let config = Config::default();
    let cmd = CircuitBreakerReset::new(config.clone(), String::new());
    let ctx = CommandContext::new(config);
    let result = cmd.validate(&ctx);
    assert!(result.is_err());
    assert!(result
        .unwrap_err()
        .to_string()
        .contains("Circuit breaker name cannot be empty"));
}

#[test]
fn listing_commands_accept_any_context() {
    let config = Config::default();
    let ctx = CommandContext::new(config);
    assert!(CircuitBreakerList::new(config).validate(&ctx).is_ok());
    assert!(BulkheadList::new(config).validate(&ctx).is_ok());
    assert!(CircuitBreakerReset::new(config, "inference".to_string()).validate(&ctx).is_ok());
}

#[test]
fn resilience_test_counts() {
    assert_eq!(validate_resilience_test("", 5), Err("Pattern name cannot be empty".to_string()));
    assert_eq!(validate_resilience_test("retry", 0), Err("Request count must be at least 1".to_string()));
    assert_eq!(validate_resilience_test("retry", 20000), Err("Request count cannot exceed 10000".to_string()));
    assert!(validate_resilience_test("retry", 10000).is_ok());
}

#[test]
fn resilience_patterns_and_outcomes() {
    assert_eq!(resilience_pattern("circuit-breaker"), Some(ResiliencePattern::CircuitBreaker));
    assert_eq!(resilience_pattern("retry"), Some(ResiliencePattern::Retry));
    assert_eq!(resilience_pattern("bulkhead"), Some(ResiliencePattern::Bulkhead));
    assert_eq!(resilience_pattern("Retry"), None);
    assert_eq!(classify_breaker_call(&Ok(())), CallOutcome::Succeeded);
    assert_eq!(
        classify_breaker_call(&Err("Circuit breaker is open".to_string())),
        CallOutcome::Rejected
    );
    assert_eq!(classify_breaker_call(&Err("Simulated failure".to_string())), CallOutcome::Failed);
    let mut tally = PatternTally::new();
    tally.record(CallOutcome::Succeeded);
    tally.record(CallOutcome::Rejected);
    tally.record(CallOutcome::Succeeded);
    assert_eq!((tally.succeeded, tally.rejected, tally.failed), (2, 1, 0));
    assert!(reports_progress(10));
    assert!(!reports_progress(11));
}
