use inferno_cli::benchmark::{analysis_fits, cycle_sample, memory_benchmark_totals};
use inferno_cli::benchmark::{cycle_growth, snapshot_of, stress_input, tally_clients, ClientOutcome, ClientResult};
use inferno_cli::benchmark::validate_compare_paths;
use inferno_cli::benchmark::{
    analyze_memory_patterns, benchmark_kind, parse_backend_types, simulated_processing_ms,
    BackendType, BenchmarkBaseline, BenchmarkKind, BenchmarkProfile, BenchmarkReport, BenchmarkRun,
    MemorySnapshot, MemoryUsage,
};
use inferno_cli::command::{CommandContext, Config};

fn snap(rss: u64, inference_id: u32, model_loaded: bool) -> MemorySnapshot {
    MemorySnapshot {
        timestamp_nanos: 0,
        heap_used: 0,
        heap_total: 0,
        rss,
        vms: 0,
        inference_id,
        model_loaded,
    }
}

fn baseline(rss: u64) -> MemoryUsage {
    MemoryUsage { heap_used: 0, heap_total: 0, rss, vms: 0 }
}

#[test]
fn test_run_validation_invalid_type() {
    let config = Config::default();
    let cmd = BenchmarkRun::new(config.clone(), "invalid".to_string(), 100, false);
    let ctx = CommandContext::new(config);
    let result = cmd.validate(&ctx);
    assert!(result.is_err());
    assert!(result.unwrap_err().to_string().contains("Benchmark type must be one of"));
}

#[test]
fn performance_benchmark_v2_test_report_validation_invalid_format() {
    let config = Config::default();
    let cmd = BenchmarkReport::new(config.clone(), "results.json".to_string(), "invalid".to_string(), None);
    let ctx = CommandContext::new(config);
    let result = cmd.validate(&ctx);
    assert!(result.is_err());
    assert!(result.unwrap_err().to_string().contains("Format must be one of"));
}

#[test]
fn benchmark_commands_check_their_arguments() {
    let config = Config::default();
    let ctx = CommandContext::new(config);
    assert!(BenchmarkRun::new(config, "latency".to_string(), 1, true).validate(&ctx).is_ok());
    assert_eq!(
        BenchmarkRun::new(config, "cpu".to_string(), 0, true).validate(&ctx),
        Err("Iterations must be greater than 0".to_string())
    );
    let base = BenchmarkBaseline::new(config, "out".to_string(), vec!["gguf".to_string()], 10);
    assert!(base.validate(&ctx).is_ok());
    assert_eq!(
        BenchmarkBaseline::new(config, "out".to_string(), Vec::new(), 10).validate(&ctx),
        Err("At least one backend is required".to_string())
    );
    assert_eq!(
        BenchmarkBaseline::new(config, "out".to_string(), vec!["x".to_string()], 0).validate(&ctx),
        Err("Duration must be greater than 0".to_string())
    );
    assert_eq!(
        BenchmarkProfile::new(config, String::new(), 5, false).validate(&ctx),
        Err("Target cannot be empty".to_string())
    );
    assert!(BenchmarkProfile::new(config, "cpu".to_string(), 5, true).validate(&ctx).is_ok());
}

#[test]
fn report_location() {
    let config = Config::default();
    let r = BenchmarkReport::new(config, "r.json".to_string(), "csv".to_string(), None);
    assert_eq!(r.report_path(), "reports/benchmark-report.csv");
    let r = BenchmarkReport::new(config, "r.json".to_string(), "csv".to_string(), Some("out.csv".to_string()));
    assert_eq!(r.report_path(), "out.csv");
}

#[test]
fn benchmark_selection() {
    assert_eq!(benchmark_kind("memory"), Ok(BenchmarkKind::Memory));
    assert_eq!(benchmark_kind("all"), Ok(BenchmarkKind::All));
    assert_eq!(benchmark_kind("cache"), Ok(BenchmarkKind::Cache));
    assert_eq!(benchmark_kind("Memory"), Err("Unknown benchmark type: Memory".to_string()));
}

#[test]
fn backend_lists() {
    assert_eq!(
        parse_backend_types(" GGUF , foo,onnx"),
        Ok(vec![BackendType::Gguf, BackendType::Onnx])
    );
    assert_eq!(parse_backend_types("foo"), Err("No valid backend types specified".to_string()));
    assert_eq!(parse_backend_types(""), Err("No valid backend types specified".to_string()));
}

#[test]
fn simulated_request_time() {
    assert_eq!(simulated_processing_ms("abc"), 50);
    assert_eq!(simulated_processing_ms("hello world"), 110);
    assert_eq!(simulated_processing_ms("é"), 50);
}

#[test]
fn memory_analysis_of_no_snapshots() {
    let t = analyze_memory_patterns(&[], baseline(1000));
    assert_eq!(t.peak_rss, 1000);
    assert_eq!(t.final_rss, 1000);
    assert_eq!(t.total_growth, 0);
    assert_eq!(t.inference_count, 0);
    assert!(!t.grew && !t.reclaimed);
}

#[test]
fn memory_analysis_figures() {
    let snaps = vec![
        snap(1500, 0, true),
        snap(1800, 1, true),
        snap(1700, 2, true),
        snap(2100, 3, true),
        snap(900, 0, false),
    ];
    let t = analyze_memory_patterns(&snaps, baseline(1000));
    assert_eq!(t.baseline_rss, 1000);
    assert_eq!(t.peak_rss, 2100);
    assert_eq!(t.final_rss, 900);
    assert_eq!(t.total_growth, -100);
    assert_eq!(t.model_load_overhead, 500);
    assert_eq!(t.inference_count, 3);
    assert_eq!(t.first_inference_rss, 1800);
    assert_eq!(t.last_inference_rss, 2100);
    assert_eq!(t.growth, 400);
    assert_eq!(t.reclaim, 100);
    assert!(t.grew);
    assert!(t.reclaimed);
}

#[test]
fn load_overhead_saturates_below_baseline() {
    let snaps = vec![snap(800, 0, true), snap(850, 1, true)];
    let t = analyze_memory_patterns(&snaps, baseline(1000));
    assert_eq!(t.model_load_overhead, 0);
    assert_eq!(t.growth, 0);
    assert!(!t.grew);
}

#[test]
fn compare_paths() {
    assert_eq!(validate_compare_paths("", "c"), Err("Baseline path cannot be empty".to_string()));
    assert_eq!(validate_compare_paths("b", ""), Err("Current path cannot be empty".to_string()));
    assert!(validate_compare_paths("b", "c").is_ok());
}

#[test]
fn stress_test_tally() {
    let results = vec![
        ClientResult::Finished(ClientOutcome { client_id: 0, requests: 10, successes: 10, failures: 0 }),
        ClientResult::Finished(ClientOutcome { client_id: 1, requests: 8, successes: 5, failures: 3 }),
        ClientResult::Crashed("task panicked".to_string()),
    ];
    let t = tally_clients(&results);
    assert_eq!(t.total_requests, 18);
    assert_eq!(t.successful_requests, 15);
    assert_eq!(t.failed_requests, 3);
    assert_eq!(
        t.errors,
        vec![
            "Client 1: 3 failures out of 8 requests".to_string(),
            "Client task failed: task panicked".to_string()
        ]
    );
    assert_eq!(stress_input(2, 17), "Stress test input from client 2 request 17");
}

#[test]
fn profiling_cycles() {
    let usage = MemoryUsage { heap_used: 1, heap_total: 2, rss: 3, vms: 4 };
    let s = snapshot_of(usage, 99, 5, true);
    assert_eq!((s.timestamp_nanos, s.heap_used, s.heap_total, s.rss, s.vms), (99, 1, 2, 3, 4));
    assert_eq!((s.inference_id, s.model_loaded), (5, true));
    assert_eq!(cycle_growth(2, 100, 50), (0, false));
    assert_eq!(cycle_growth(1, 0, 20 * 1024 * 1024), (20 * 1024 * 1024, false));
    assert_eq!(cycle_growth(2, 0, 20 * 1024 * 1024), (20 * 1024 * 1024, true));
    assert_eq!(cycle_growth(3, 0, 10 * 1024 * 1024), (10 * 1024 * 1024, false));
}

#[test]
fn memory_benchmark_cycles_and_totals() {
    let mib: u64 = 1024 * 1024;
    let up = cycle_sample(5, 2, 100 * mib, 107 * mib + 10, 101 * mib);
    assert_eq!(up.start_memory_mb, 100);
    assert_eq!(up.loaded_memory_mb, 107);
    assert_eq!(up.end_memory_mb, 101);
    assert_eq!(up.memory_delta_mb, 7);
    let down = cycle_sample(1, 0, 100 * mib, 97 * mib - 1, 96 * mib);
    assert_eq!(down.memory_delta_mb, -3);

    let totals = memory_benchmark_totals(200 * mib, &vec![210 * mib, 250 * mib + 7, 190 * mib]);
    assert_eq!(totals.initial_memory_mb, 200);
    assert_eq!(totals.peak_memory_mb, 250);
    assert_eq!(totals.total_peak_delta_mb, 50);
    let flat = memory_benchmark_totals(64 * mib, &vec![]);
    assert_eq!(flat.peak_memory_mb, 64);
    assert_eq!(flat.total_peak_delta_mb, 0);
}

#[test]
fn analysis_range_is_checked() {
    let base = MemoryUsage { heap_used: 0, heap_total: 0, rss: 100, vms: 0 };
    let snap = |rss: u64, id: u32| MemorySnapshot {
        timestamp_nanos: 0,
        heap_used: 0,
        heap_total: 0,
        rss,
        vms: 0,
        inference_id: id,
        model_loaded: true,
    };
    assert!(analysis_fits(&[snap(120, 1), snap(150, 2), snap(130, 3)], base));
    assert!(analysis_fits(&[], base));
    let huge = i64::MAX as u64;
    assert!(!analysis_fits(&[snap(huge + 1, 1)], base));
    assert!(!analysis_fits(&[], MemoryUsage { heap_used: 0, heap_total: 0, rss: huge + 1, vms: 0 }));
    assert!(!analysis_fits(&[snap(0, 1), snap(huge, 2), snap(0, 3), snap(huge, 4)], base));
    assert!(analysis_fits(&[snap(0, 1), snap(huge, 2), snap(0, 3)], base));
}
