use inferno_cli::qa::{draft_test_case, run_settings, test_timeout_secs};
use inferno_cli::command::{CommandContext, Config};
use inferno_cli::qa::{
    parse_chaos_fault, parse_chaos_target, parse_environment, parse_execution_mode,
    parse_load_profile, parse_ml_test_type, parse_priority, parse_report_format,
    parse_runner, parse_security_test_type, parse_tags, parse_test_type, run_environment,
    run_type_filter, ChaosFaultType, ChaosTarget, LoadProfile, MLTestType, QABenchmark, QAReport,
    QASuite, QATest, QualityReportFormat, SecurityTestType, TestEnvironment, TestExecutionMode,
    TestPriority, TestRunner, TestType,
};

#[test]
fn qa_framework_v2_test_report_validation_invalid_format() {
    let config = Config::default();
    let cmd = QAReport::new(config.clone(), "invalid".to_string(), None, false);
    let ctx = CommandContext::new(config);
    let result = cmd.validate(&ctx);
    assert!(result.is_err());
    assert!(result.unwrap_err().to_string().contains("Format must be one of"));
}

#[test]
fn test_suite_validation_invalid_action() {
    let config = Config::default();
    let cmd = QASuite::new(config.clone(), "invalid".to_string(), "suite".to_string(), None);
    let ctx = CommandContext::new(config);
    let result = cmd.validate(&ctx);
    assert!(result.is_err());
    assert!(result.unwrap_err().to_string().contains("Action must be one of"));
}

#[test]
fn test_benchmark_validation_zero_iterations() {
    let config = Config::default();
    let cmd = QABenchmark::new(config.clone(), None, 0, false);
    let ctx = CommandContext::new(config);
    let result = cmd.validate(&ctx);
    assert!(result.is_err());
    assert!(result.unwrap_err().to_string().contains("Iterations must be greater than 0"));
}

#[test]
fn suites_need_names_except_for_listing() {
    let config = Config::default();
    let ctx = CommandContext::new(config);
    assert_eq!(
        QASuite::new(config, "delete".to_string(), String::new(), None).validate(&ctx),
        Err("Suite name is required for delete action".to_string())
    );
    assert!(QASuite::new(config, "list".to_string(), String::new(), None).validate(&ctx).is_ok());
    assert!(QASuite::new(config, "create".to_string(), "smoke".to_string(), Some(vec!["t1".to_string()]))
        .validate(&ctx)
        .is_ok());
    assert!(QATest::new(config, None, Some("smoke".to_string()), true, false).validate(&ctx).is_ok());
    assert!(QABenchmark::new(config, None, 3, true).validate(&ctx).is_ok());
}

#[test]
fn test_report_location() {
    let config = Config::default();
    let r = QAReport::new(config, "junit".to_string(), None, true);
    assert!(r.validate(&CommandContext::new(config)).is_ok());
    assert_eq!(r.report_path(), "reports/test-report.junit");
    let r = QAReport::new(config, "html".to_string(), Some("qa.html".to_string()), false);
    assert_eq!(r.report_path(), "qa.html");
}

#[test]
fn test_types_of_new_cases() {
    assert_eq!(parse_test_type("Unit"), Ok(TestType::Unit));
    assert_eq!(parse_test_type("END-TO-END"), Ok(TestType::E2E));
    assert_eq!(parse_test_type("ml_model"), Ok(TestType::MLModel));
    assert_eq!(parse_test_type("bogus"), Err("Invalid test type: bogus".to_string()));
}

#[test]
fn run_filters() {
    assert_eq!(run_type_filter(&Some("E2E".to_string())), Some(TestType::E2E));
    assert_eq!(run_type_filter(&Some("end-to-end".to_string())), None);
    assert_eq!(run_type_filter(&None), None);
    assert_eq!(run_environment(&Some("Prod".to_string())), Some(TestEnvironment::Production));
    assert_eq!(run_environment(&Some("qa".to_string())), None);
}

#[test]
fn defaults_for_new_cases() {
    assert_eq!(parse_priority(&None), TestPriority::Medium);
    assert_eq!(parse_priority(&Some("CRITICAL".to_string())), TestPriority::Critical);
    assert_eq!(parse_priority(&Some("urgent".to_string())), TestPriority::Medium);
    assert_eq!(parse_environment(&None), TestEnvironment::Testing);
    assert_eq!(parse_environment(&Some("dev".to_string())), TestEnvironment::Development);
    assert_eq!(parse_environment(&Some("moon".to_string())), TestEnvironment::Testing);
    assert_eq!(parse_runner(&Some("K8S".to_string())), TestRunner::Kubernetes);
    assert_eq!(parse_runner(&None), TestRunner::Local);
    assert_eq!(parse_execution_mode(&Some("Parallel".to_string())), TestExecutionMode::Parallel);
    assert_eq!(parse_execution_mode(&Some("random".to_string())), TestExecutionMode::Sequential);
}

#[test]
fn tags_are_trimmed() {
    assert_eq!(
        parse_tags(&Some(" smoke, fast ,gpu".to_string())),
        vec!["smoke".to_string(), "fast".to_string(), "gpu".to_string()]
    );
    assert_eq!(parse_tags(&Some(String::new())), vec![String::new()]);
    assert!(parse_tags(&None).is_empty());
}

#[test]
fn load_profiles() {
    assert_eq!(
        parse_load_profile("RAMP", Some(50), None),
        LoadProfile::Ramp { start_rps: 1, end_rps: 50, duration_secs: 60 }
    );
    assert_eq!(parse_load_profile("constant", None, None), LoadProfile::Constant { rps: 10 });
    assert_eq!(
        parse_load_profile("spike", None, Some(5)),
        LoadProfile::Spike { base_rps: 10, spike_rps: 200, spike_duration_secs: 30 }
    );
    assert_eq!(parse_load_profile("wave", Some(99), None), LoadProfile::Constant { rps: 10 });
}

#[test]
fn experiment_kinds() {
    assert_eq!(parse_security_test_type("Penetration"), SecurityTestType::PenetrationTesting);
    assert_eq!(parse_security_test_type("fuzz"), SecurityTestType::VulnerabilityScanning);
    assert_eq!(parse_ml_test_type("DRIFT"), MLTestType::DataDriftDetection);
    assert_eq!(parse_ml_test_type("x"), MLTestType::AccuracyTesting);
    assert_eq!(parse_chaos_fault("CPU_STRESS"), ChaosFaultType::CpuStress);
    assert_eq!(parse_chaos_fault("meteor"), ChaosFaultType::NetworkLatency);
    assert_eq!(parse_chaos_target("Pod"), ChaosTarget::Pod);
    assert_eq!(parse_chaos_target("cluster"), ChaosTarget::Service);
    assert_eq!(parse_report_format(&Some("YAML".to_string())), QualityReportFormat::Yaml);
    assert_eq!(parse_report_format(&Some("xml".to_string())), QualityReportFormat::Json);
    assert_eq!(parse_report_format(&None), QualityReportFormat::Json);
}

#[test]
fn run_settings_follow_the_mode() {
    let s = run_settings(TestExecutionMode::Parallel, Some(4));
    assert!(s.parallel_execution);
    assert_eq!(s.max_concurrency, 4);
    assert_eq!(s.timeout_secs, 3600);
    let s = run_settings(TestExecutionMode::Distributed, None);
    assert!(!s.parallel_execution);
    assert_eq!(s.max_concurrency, 1);
    assert_eq!(test_timeout_secs(None), 300);
    assert_eq!(test_timeout_secs(Some(5)), 5);
}

#[test]
fn new_test_case_from_arguments() {
    let draft = draft_test_case(
        "login".to_string(),
        None,
        "E2E",
        &Some("HIGH".to_string()),
        &Some("prod".to_string()),
        &Some("k8s".to_string()),
        None,
        &Some("smoke, auth ,smoke".to_string()),
    )
    .unwrap();
    assert_eq!(draft.name, "login");
    assert_eq!(draft.description, "Test case description");
    assert_eq!(draft.test_type, TestType::E2E);
    assert_eq!(draft.priority, TestPriority::High);
    assert_eq!(draft.environment, TestEnvironment::Production);
    assert_eq!(draft.runner, TestRunner::Kubernetes);
    assert_eq!(draft.tags, vec!["smoke".to_string(), "auth".to_string()]);
    assert_eq!(draft.timeout_secs, 300);
    assert_eq!(draft.retry_count, 0);
    assert_eq!(draft.author, "cli_user");
    assert_eq!(draft.version, "1.0.0");

    let plain = draft_test_case(
        "unit one".to_string(),
        Some("checks one thing".to_string()),
        "unit",
        &None,
        &None,
        &None,
        Some(60),
        &None,
    )
    .unwrap();
    assert_eq!(plain.description, "checks one thing");
    assert_eq!(plain.priority, TestPriority::Medium);
    assert_eq!(plain.environment, TestEnvironment::Testing);
    assert_eq!(plain.runner, TestRunner::Local);
    assert!(plain.tags.is_empty());
    assert_eq!(plain.timeout_secs, 60);

    let bad = draft_test_case("x".to_string(), None, "fuzz", &None, &None, &None, None, &None);
    assert_eq!(bad.err().unwrap(), "Invalid test type: fuzz");
}
