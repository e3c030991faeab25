//! Quality assurance commands: argument checks, report locations, and the
//! reading of the names that describe tests, runs and experiments.

use crate::command::{CommandContext, Config};
use crate::text::{
    count_char, lemma_split_count,
    chars_of, concat, concat3, lowercase, split_chars, split_on, str_eq, string_of, to_lowercase,
    trim, trimmed,
};
use vstd::prelude::*;

verus! {

// ---------------------------------------------------------------------------
// Subcommands
// ---------------------------------------------------------------------------

/// Performance testing subcommands.
pub enum PerformanceCommands {
    Create {
        name: String,
        target: String,
        load_profile: String,
        duration: u64,
        users: Option<u32>,
        rps: Option<u32>,
        ramp_up: Option<u64>,
        thresholds: Option<String>,
    },
    Run { test_id: String, duration: Option<u64>, live_metrics: bool },
    Results { test_id: Option<String>, date_range: Option<String>, trends: bool },
}

/// Security testing subcommands.
pub enum SecurityCommands {
    Create {
        name: String,
        test_type: String,
        target: String,
        scanner_config: Option<String>,
        scripts: Option<String>,
    },
    Scan { test_id: String, intensity: Option<String>, detailed: bool },
    Vulnerabilities { severity: Option<String>, status: Option<String>, export: Option<String> },
}

/// Model testing subcommands.
pub enum MLModelCommands {
    Create {
        name: String,
        model_path: String,
        test_type: String,
        dataset: Option<String>,
        thresholds: Option<String>,
    },
    Validate { test_id: String, dataset: Option<String>, fairness: bool, robustness: bool },
    Compare { model_a: String, model_b: String, metrics: Option<String> },
}

/// Quality gate subcommands.
pub enum QualityGateCommands {
    Create { name: String, thresholds: String, criteria: Option<String> },
    Evaluate { gate_id: String, run_id: String, override_thresholds: Option<String> },
    List { status: bool, history: bool },
}

/// Test automation subcommands.
pub enum AutomationCommands {
    Configure { level: String, triggers: Option<String>, schedule: Option<String> },
    Status { scheduled: bool, history: bool },
    Trigger { automation_id: String, parameters: Option<String> },
}

/// Test analytics subcommands.
pub enum AnalyticsCommands {
    Generate { analytics_type: String, time_range: Option<String>, predictions: bool, export: Option<String> },
    Trends { metric: String, period: Option<String>, forecast: bool },
    Insights { scope: Option<String>, recommendations: bool },
}

/// Dashboard subcommands.
pub enum DashboardCommands {
    Start { port: Option<u16>, realtime: bool, config: Option<String> },
    Snapshot { format: Option<String>, metrics: bool, output: Option<String> },
    Configure { layout: Option<String>, widgets: Option<String>, theme: Option<String> },
}

// ---------------------------------------------------------------------------
// Names of tests, runs and experiments
// ---------------------------------------------------------------------------

/// The kind of a test case.
#[derive(Clone, Copy, Debug, PartialEq, Eq, Structural)]
pub enum TestType {
    Unit,
    Integration,
    E2E,
    Performance,
    Security,
    MLModel,
    Chaos,
}

/// The test type a lowercase name gives a new test case.
pub open spec fn test_type_named(lower: Seq<char>) -> Option<TestType> {
    if lower == "unit"@ {
        Some(TestType::Unit)
    } else if lower == "integration"@ {
        Some(TestType::Integration)
    } else if lower == "e2e"@ || lower == "end-to-end"@ {
        Some(TestType::E2E)
    } else if lower == "performance"@ {
        Some(TestType::Performance)
    } else if lower == "security"@ {
        Some(TestType::Security)
    } else if lower == "ml"@ || lower == "ml_model"@ {
        Some(TestType::MLModel)
    } else if lower == "chaos"@ {
        Some(TestType::Chaos)
    } else {
        None
    }
}

/// Reads the type of a new test case, ignoring case; an unknown type is an
/// error.
pub fn parse_test_type(name: &str) -> (r: Result<TestType, String>)
    ensures
        r matches Ok(t) ==> test_type_named(lowercase(name@)) == Some(t),
        r is Err <==> test_type_named(lowercase(name@)) is None,
        r matches Err(m) ==> m@ == "Invalid test type: "@ + name@,
{
    let lower = to_lowercase(name);
    let l = lower.as_str();
    if str_eq(l, "unit") {
        Ok(TestType::Unit)
    } else if str_eq(l, "integration") {
        Ok(TestType::Integration)
    } else if str_eq(l, "e2e") || str_eq(l, "end-to-end") {
        Ok(TestType::E2E)
    } else if str_eq(l, "performance") {
        Ok(TestType::Performance)
    } else if str_eq(l, "security") {
        Ok(TestType::Security)
    } else if str_eq(l, "ml") || str_eq(l, "ml_model") {
        Ok(TestType::MLModel)
    } else if str_eq(l, "chaos") {
        Ok(TestType::Chaos)
    } else {
        Err(concat("Invalid test type: ", name))
    }
}

/// The test type a lowercase name selects when filtering a run; the
/// aliases of new test cases are not recognised here.
pub open spec fn run_test_type_named(lower: Seq<char>) -> Option<TestType> {
    if lower == "unit"@ {
        Some(TestType::Unit)
    } else if lower == "integration"@ {
        Some(TestType::Integration)
    } else if lower == "e2e"@ {
        Some(TestType::E2E)
    } else if lower == "performance"@ {
        Some(TestType::Performance)
    } else if lower == "security"@ {
        Some(TestType::Security)
    } else if lower == "ml"@ {
        Some(TestType::MLModel)
    } else if lower == "chaos"@ {
        Some(TestType::Chaos)
    } else {
        None
    }
}

/// The test type a run is restricted to, if one is named and known.
pub fn run_type_filter(name: &Option<String>) -> (r: Option<TestType>)
    ensures
        name is None ==> r is None,
        name matches Some(n) ==> r == run_test_type_named(lowercase(n@)),
{
    match name {
        None => None,
        Some(n) => {
            let lower = to_lowercase(n.as_str());
            let l = lower.as_str();
            if str_eq(l, "unit") {
                Some(TestType::Unit)
            } else if str_eq(l, "integration") {
                Some(TestType::Integration)
            } else if str_eq(l, "e2e") {
                Some(TestType::E2E)
            } else if str_eq(l, "performance") {
                Some(TestType::Performance)
            } else if str_eq(l, "security") {
                Some(TestType::Security)
            } else if str_eq(l, "ml") {
                Some(TestType::MLModel)
            } else if str_eq(l, "chaos") {
                Some(TestType::Chaos)
            } else {
                None
            }
        },
    }
}

/// How urgent a test case is.
#[derive(Clone, Copy, Debug, PartialEq, Eq, Structural)]
pub enum TestPriority {
    Low,
    Medium,
    High,
    Critical,
}

/// The priority a name gives; anything unknown, or no name, is medium.
pub open spec fn priority_named(name: Option<Seq<char>>) -> TestPriority {
    match name {
        Some(n) => {
            let l = lowercase(n);
            if l == "low"@ {
                TestPriority::Low
            } else if l == "high"@ {
                TestPriority::High
            } else if l == "critical"@ {
                TestPriority::Critical
            } else {
                TestPriority::Medium
            }
        },
        None => TestPriority::Medium,
    }
}

/// The text of an optional argument.
pub open spec fn opt_text(s: Option<String>) -> Option<Seq<char>> {
    match s {
        Some(t) => Some(t@),
        None => None,
    }
}

/// Reads the priority of a new test case.
pub fn parse_priority(name: &Option<String>) -> (r: TestPriority)
    ensures
        r == priority_named(opt_text(*name)),
{
    match name {
        None => TestPriority::Medium,
        Some(n) => {
            let lower = to_lowercase(n.as_str());
            let l = lower.as_str();
            if str_eq(l, "low") {
                TestPriority::Low
            } else if str_eq(l, "high") {
                TestPriority::High
            } else if str_eq(l, "critical") {
                TestPriority::Critical
            } else {
                TestPriority::Medium
            }
        },
    }
}

/// Where a test runs.
#[derive(Clone, Copy, Debug, PartialEq, Eq, Structural)]
pub enum TestEnvironment {
    Development,
    Staging,
    Production,
    Testing,
}

/// The environment a lowercase name stands for, if it is known.
pub open spec fn environment_named(lower: Seq<char>) -> Option<TestEnvironment> {
    if lower == "development"@ || lower == "dev"@ {
        Some(TestEnvironment::Development)
    } else if lower == "staging"@ {
        Some(TestEnvironment::Staging)
    } else if lower == "production"@ || lower == "prod"@ {
        Some(TestEnvironment::Production)
    } else if lower == "testing"@ || lower == "test"@ {
        Some(TestEnvironment::Testing)
    } else {
        None
    }
}

/// The environment a name selects for a run: the one it names, ignoring
/// case, if known.
pub fn run_environment(name: &Option<String>) -> (r: Option<TestEnvironment>)
    ensures
        name is None ==> r is None,
        name matches Some(n) ==> r == environment_named(lowercase(n@)),
{
    match name {
        None => None,
        Some(n) => {
            let lower = to_lowercase(n.as_str());
            let l = lower.as_str();
            if str_eq(l, "development") || str_eq(l, "dev") {
                Some(TestEnvironment::Development)
            } else if str_eq(l, "staging") {
                Some(TestEnvironment::Staging)
            } else if str_eq(l, "production") || str_eq(l, "prod") {
                Some(TestEnvironment::Production)
            } else if str_eq(l, "testing") || str_eq(l, "test") {
                Some(TestEnvironment::Testing)
            } else {
                None
            }
        },
    }
}

/// The environment of a new test case: the one named, else testing.
pub fn parse_environment(name: &Option<String>) -> (r: TestEnvironment)
    ensures
        name is None ==> r == TestEnvironment::Testing,
        name matches Some(n) ==> r == (match environment_named(lowercase(n@)) {
            Some(e) => e,
            None => TestEnvironment::Testing,
        }),
{
    match run_environment(name) {
        Some(e) => e,
        None => TestEnvironment::Testing,
    }
}

/// What executes a test.
#[derive(Clone, Copy, Debug, PartialEq, Eq, Structural)]
pub enum TestRunner {
    Local,
    Docker,
    Kubernetes,
    Cloud,
}

/// The runner a name selects; anything unknown, or no name, is local.
pub open spec fn runner_named(name: Option<Seq<char>>) -> TestRunner {
    match name {
        Some(n) => {
            let l = lowercase(n);
            if l == "docker"@ {
                TestRunner::Docker
            } else if l == "kubernetes"@ || l == "k8s"@ {
                TestRunner::Kubernetes
            } else if l == "cloud"@ {
                TestRunner::Cloud
            } else {
                TestRunner::Local
            }
        },
        None => TestRunner::Local,
    }
}

/// Reads the runner of a new test case.
pub fn parse_runner(name: &Option<String>) -> (r: TestRunner)
    ensures
        r == runner_named(opt_text(*name)),
{
    match name {
        None => TestRunner::Local,
        Some(n) => {
            let lower = to_lowercase(n.as_str());
            let l = lower.as_str();
            if str_eq(l, "docker") {
                TestRunner::Docker
            } else if str_eq(l, "kubernetes") || str_eq(l, "k8s") {
                TestRunner::Kubernetes
            } else if str_eq(l, "cloud") {
                TestRunner::Cloud
            } else {
                TestRunner::Local
            }
        },
    }
}

/// How the tests of a run are executed.
#[derive(Clone, Copy, Debug, PartialEq, Eq, Structural)]
pub enum TestExecutionMode {
    Sequential,
    Parallel,
    Distributed,
}

/// The mode a name selects; anything unknown, or no name, is sequential.
pub open spec fn execution_mode_named(name: Option<Seq<char>>) -> TestExecutionMode {
    match name {
        Some(n) => {
            let l = lowercase(n);
            if l == "parallel"@ {
                TestExecutionMode::Parallel
            } else if l == "distributed"@ {
                TestExecutionMode::Distributed
            } else {
                TestExecutionMode::Sequential
            }
        },
        None => TestExecutionMode::Sequential,
    }
}

/// Reads the execution mode of a run.
pub fn parse_execution_mode(name: &Option<String>) -> (r: TestExecutionMode)
    ensures
        r == execution_mode_named(opt_text(*name)),
{
    match name {
        None => TestExecutionMode::Sequential,
        Some(n) => {
            let lower = to_lowercase(n.as_str());
            let l = lower.as_str();
            if str_eq(l, "parallel") {
                TestExecutionMode::Parallel
            } else if str_eq(l, "distributed") {
                TestExecutionMode::Distributed
            } else {
                TestExecutionMode::Sequential
            }
        },
    }
}

/// The tags of a comma-separated list, each trimmed; no list gives none.
pub open spec fn tags_of(list: Option<Seq<char>>) -> Seq<Seq<char>> {
    match list {
        Some(l) => split_on(l, ',').map_values(|p: Seq<char>| trim(p)),
        None => Seq::empty(),
    }
}

/// Reads a comma-separated list of tags.
pub fn parse_tags(list: &Option<String>) -> (r: Vec<String>)
    ensures
        r@.len() == tags_of(opt_text(*list)).len(),
        forall|i: int| 0 <= i < r@.len() ==> #[trigger] r@[i]@ == tags_of(opt_text(*list))[i],
{
    match list {
        None => Vec::new(),
        Some(l) => {
            let chars = chars_of(l.as_str());
            let pieces = split_chars(chars.as_slice(), ',');
            let ghost expected = split_on(l@, ',').map_values(|p: Seq<char>| trim(p));
            let mut out: Vec<String> = Vec::new();
            let mut i: usize = 0;
            while i < pieces.len()
                invariant
                    pieces@.len() == split_on(l@, ',').len(),
                    forall|j: int| 0 <= j < pieces@.len() ==> #[trigger] pieces@[j]@ == split_on(
                        l@,
                        ',',
                    )[j],
                    expected == split_on(l@, ',').map_values(|p: Seq<char>| trim(p)),
                    i <= pieces@.len(),
                    out@.len() == i,
                    forall|j: int| 0 <= j < i ==> #[trigger] out@[j]@ == expected[j],
                decreases pieces.len() - i,
            {
                let t = trimmed(pieces[i].as_slice());
                out.push(string_of(t.as_slice()));
                i = i + 1;
            }
            out
        },
    }
}

/// How a performance test generates load.
#[derive(Clone, Copy, Debug, PartialEq, Eq, Structural)]
pub enum LoadProfile {
    Constant { rps: u32 },
    /// From `start_rps` to `end_rps` over `duration_secs`.
    Ramp { start_rps: u32, end_rps: u32, duration_secs: u64 },
    /// A base load with a burst of `spike_rps` for `spike_duration_secs`.
    Spike { base_rps: u32, spike_rps: u32, spike_duration_secs: u64 },
}

/// The load profile a name selects, with the given rate and ramp-up time
/// or their defaults; an unknown name gives a constant 10 requests per
/// second.
pub open spec fn load_profile_named(lower: Seq<char>, rps: Option<u32>, ramp_up: Option<u64>) -> LoadProfile {
    if lower == "constant"@ {
        LoadProfile::Constant { rps: rps.unwrap_or(10) }
    } else if lower == "ramp"@ {
        LoadProfile::Ramp { start_rps: 1, end_rps: rps.unwrap_or(100), duration_secs: ramp_up.unwrap_or(60) }
    } else if lower == "spike"@ {
        LoadProfile::Spike { base_rps: 10, spike_rps: rps.unwrap_or(200), spike_duration_secs: 30 }
    } else {
        LoadProfile::Constant { rps: 10 }
    }
}

/// Reads the load profile of a performance test.
pub fn parse_load_profile(name: &str, rps: Option<u32>, ramp_up: Option<u64>) -> (r: LoadProfile)
    ensures
        r == load_profile_named(lowercase(name@), rps, ramp_up),
{
    let lower = to_lowercase(name);
    let l = lower.as_str();
    if str_eq(l, "constant") {
        LoadProfile::Constant { rps: rps.unwrap_or(10) }
    } else if str_eq(l, "ramp") {
        LoadProfile::Ramp {
            start_rps: 1,
            end_rps: rps.unwrap_or(100),
            duration_secs: ramp_up.unwrap_or(60),
        }
    } else if str_eq(l, "spike") {
        LoadProfile::Spike { base_rps: 10, spike_rps: rps.unwrap_or(200), spike_duration_secs: 30 }
    } else {
        LoadProfile::Constant { rps: 10 }
    }
}

/// The kind of a security test.
#[derive(Clone, Copy, Debug, PartialEq, Eq, Structural)]
pub enum SecurityTestType {
    VulnerabilityScanning,
    PenetrationTesting,
    ComplianceChecking,
    AuthenticationTesting,
    AuthorizationTesting,
}

/// The security test a lowercase name selects; anything unknown is a
/// vulnerability scan.
pub open spec fn security_test_type_named(lower: Seq<char>) -> SecurityTestType {
    if lower == "penetration"@ {
        SecurityTestType::PenetrationTesting
    } else if lower == "compliance"@ {
        SecurityTestType::ComplianceChecking
    } else if lower == "authentication"@ {
        SecurityTestType::AuthenticationTesting
    } else if lower == "authorization"@ {
        SecurityTestType::AuthorizationTesting
    } else {
        SecurityTestType::VulnerabilityScanning
    }
}

/// Reads the kind of a security test, ignoring case.
pub fn parse_security_test_type(name: &str) -> (r: SecurityTestType)
    ensures
        r == security_test_type_named(lowercase(name@)),
{
    let lower = to_lowercase(name);
    let l = lower.as_str();
    if str_eq(l, "penetration") {
        SecurityTestType::PenetrationTesting
    } else if str_eq(l, "compliance") {
        SecurityTestType::ComplianceChecking
    } else if str_eq(l, "authentication") {
        SecurityTestType::AuthenticationTesting
    } else if str_eq(l, "authorization") {
        SecurityTestType::AuthorizationTesting
    } else {
        SecurityTestType::VulnerabilityScanning
    }
}

/// The kind of a model test.
#[derive(Clone, Copy, Debug, PartialEq, Eq, Structural)]
pub enum MLTestType {
    AccuracyTesting,
    PerformanceTesting,
    FairnessTesting,
    RobustnessTesting,
    DataDriftDetection,
}

/// The model test a lowercase name selects; anything unknown tests
/// accuracy.
pub open spec fn ml_test_type_named(lower: Seq<char>) -> MLTestType {
    if lower == "performance"@ {
        MLTestType::PerformanceTesting
    } else if lower == "fairness"@ {
        MLTestType::FairnessTesting
    } else if lower == "robustness"@ {
        MLTestType::RobustnessTesting
    } else if lower == "drift"@ {
        MLTestType::DataDriftDetection
    } else {
        MLTestType::AccuracyTesting
    }
}

/// Reads the kind of a model test, ignoring case.
pub fn parse_ml_test_type(name: &str) -> (r: MLTestType)
    ensures
        r == ml_test_type_named(lowercase(name@)),
{
    let lower = to_lowercase(name);
    let l = lower.as_str();
    if str_eq(l, "performance") {
        MLTestType::PerformanceTesting
    } else if str_eq(l, "fairness") {
        MLTestType::FairnessTesting
    } else if str_eq(l, "robustness") {
        MLTestType::RobustnessTesting
    } else if str_eq(l, "drift") {
        MLTestType::DataDriftDetection
    } else {
        MLTestType::AccuracyTesting
    }
}

/// The fault a chaos experiment injects.
#[derive(Clone, Copy, Debug, PartialEq, Eq, Structural)]
pub enum ChaosFaultType {
    NetworkLatency,
    NetworkPartition,
    CpuStress,
    MemoryStress,
    DiskStress,
    ServiceKill,
}

/// The fault a lowercase name selects; anything unknown is network
/// latency.
pub open spec fn chaos_fault_named(lower: Seq<char>) -> ChaosFaultType {
    if lower == "network_partition"@ {
        ChaosFaultType::NetworkPartition
    } else if lower == "cpu_stress"@ {
        ChaosFaultType::CpuStress
    } else if lower == "memory_stress"@ {
        ChaosFaultType::MemoryStress
    } else if lower == "disk_stress"@ {
        ChaosFaultType::DiskStress
    } else if lower == "service_kill"@ {
        ChaosFaultType::ServiceKill
    } else {
        ChaosFaultType::NetworkLatency
    }
}

/// Reads the fault of a chaos experiment, ignoring case.
pub fn parse_chaos_fault(name: &str) -> (r: ChaosFaultType)
    ensures
        r == chaos_fault_named(lowercase(name@)),
{
    let lower = to_lowercase(name);
    let l = lower.as_str();
    if str_eq(l, "network_partition") {
        ChaosFaultType::NetworkPartition
    } else if str_eq(l, "cpu_stress") {
        ChaosFaultType::CpuStress
    } else if str_eq(l, "memory_stress") {
        ChaosFaultType::MemoryStress
    } else if str_eq(l, "disk_stress") {
        ChaosFaultType::DiskStress
    } else if str_eq(l, "service_kill") {
        ChaosFaultType::ServiceKill
    } else {
        ChaosFaultType::NetworkLatency
    }
}

/// What a chaos experiment targets.
#[derive(Clone, Copy, Debug, PartialEq, Eq, Structural)]
pub enum ChaosTarget {
    Pod,
    Node,
    Service,
    Network,
}

/// The target a lowercase name selects; anything unknown is a service.
pub open spec fn chaos_target_named(lower: Seq<char>) -> ChaosTarget {
    if lower == "pod"@ {
        ChaosTarget::Pod
    } else if lower == "node"@ {
        ChaosTarget::Node
    } else if lower == "network"@ {
        ChaosTarget::Network
    } else {
        ChaosTarget::Service
    }
}

/// Reads the target of a chaos experiment, ignoring case.
pub fn parse_chaos_target(name: &str) -> (r: ChaosTarget)
    ensures
        r == chaos_target_named(lowercase(name@)),
{
    let lower = to_lowercase(name);
    let l = lower.as_str();
    if str_eq(l, "pod") {
        ChaosTarget::Pod
    } else if str_eq(l, "node") {
        ChaosTarget::Node
    } else if str_eq(l, "network") {
        ChaosTarget::Network
    } else {
        ChaosTarget::Service
    }
}

/// The format a quality report is written in.
#[derive(Clone, Copy, Debug, PartialEq, Eq, Structural)]
pub enum QualityReportFormat {
    Json,
    Yaml,
}

/// Reads the format of a quality report: YAML when named so, ignoring
/// case, and JSON otherwise.
pub fn parse_report_format(name: &Option<String>) -> (r: QualityReportFormat)
    ensures
        r == (match name {
            Some(n) => if lowercase(n@) == "yaml"@ {
                QualityReportFormat::Yaml
            } else {
                QualityReportFormat::Json
            },
            None => QualityReportFormat::Json,
        }),
{
    match name {
        None => QualityReportFormat::Json,
        Some(n) => {
            let lower = to_lowercase(n.as_str());
            if str_eq(lower.as_str(), "yaml") {
                QualityReportFormat::Yaml
            } else {
                QualityReportFormat::Json
            }
        },
    }
}

// ---------------------------------------------------------------------------
// Commands
// ---------------------------------------------------------------------------

/// Run a test suite or specific tests.
pub struct QATest {
    pub config: Config,
    pub test_name: Option<String>,
    pub suite: Option<String>,
    pub parallel: bool,
    pub fail_fast: bool,
}

impl QATest {
    /// The name the command is known by.
    pub fn name(&self) -> (r: &'static str)
        ensures
            r@ == "qa test"@,
    {
        "qa test"
    }

    /// What the command does, in one line.
    pub fn description(&self) -> (r: &'static str)
        ensures
            r@ == "Run test suite or specific tests"@,
    {
        "Run test suite or specific tests"
    }

    pub fn new(
        config: Config,
        test_name: Option<String>,
        suite: Option<String>,
        parallel: bool,
        fail_fast: bool,
    ) -> (r: Self)
        ensures
            r.config == config,
            r.test_name == test_name,
            r.suite == suite,
            r.parallel == parallel,
            r.fail_fast == fail_fast,
    {
        QATest { config, test_name, suite, parallel, fail_fast }
    }

    /// Running tests takes no arguments to check.
    pub fn validate(&self, ctx: &CommandContext) -> (r: Result<(), String>)
        ensures
            r is Ok,
    {
        Ok(())
    }
}

/// The formats of a test report.
pub open spec fn is_test_report_format(f: Seq<char>) -> bool {
    f == "html"@ || f == "json"@ || f == "junit"@ || f == "markdown"@
}

/// Generate a test execution report.
pub struct QAReport {
    pub config: Config,
    pub format: String,
    pub output_path: Option<String>,
    pub include_logs: bool,
}

impl QAReport {
    /// The name the command is known by.
    pub fn name(&self) -> (r: &'static str)
        ensures
            r@ == "qa report"@,
    {
        "qa report"
    }

    /// What the command does, in one line.
    pub fn description(&self) -> (r: &'static str)
        ensures
            r@ == "Generate test execution reports"@,
    {
        "Generate test execution reports"
    }

    pub fn new(config: Config, format: String, output_path: Option<String>, include_logs: bool) -> (r:
        Self)
        ensures
            r.config == config,
            r.format == format,
            r.output_path == output_path,
            r.include_logs == include_logs,
    {
        QAReport { config, format, output_path, include_logs }
    }

    pub fn validate(&self, ctx: &CommandContext) -> (r: Result<(), String>)
        ensures
            r is Ok <==> is_test_report_format(self.format@),
            r matches Err(m) ==> m@ == "Format must be one of: html, json, junit, markdown"@,
    {
        let f = self.format.as_str();
        if !(str_eq(f, "html") || str_eq(f, "json") || str_eq(f, "junit") || str_eq(f, "markdown")) {
            return Err("Format must be one of: html, json, junit, markdown".to_owned());
        }
        Ok(())
    }

    /// Where the report is written: the given path, or a file named after
    /// the format under `reports/`.
    pub fn report_path(&self) -> (r: String)
        ensures
            self.output_path matches Some(p) ==> r@ == p@,
            self.output_path is None ==> r@ == "reports/test-report."@ + self.format@,
    {
        match &self.output_path {
            Some(p) => p.clone(),
            None => concat("reports/test-report.", self.format.as_str()),
        }
    }
}

/// The actions on test suites.
pub open spec fn is_suite_action(a: Seq<char>) -> bool {
    a == "create"@ || a == "list"@ || a == "delete"@ || a == "update"@
}

/// Manage test suites.
pub struct QASuite {
    pub config: Config,
    pub action: String,
    pub suite_name: String,
    pub tests: Option<Vec<String>>,
}

impl QASuite {
    /// The name the command is known by.
    pub fn name(&self) -> (r: &'static str)
        ensures
            r@ == "qa suite"@,
    {
        "qa suite"
    }

    /// What the command does, in one line.
    pub fn description(&self) -> (r: &'static str)
        ensures
            r@ == "Manage test suites"@,
    {
        "Manage test suites"
    }

    pub fn new(config: Config, action: String, suite_name: String, tests: Option<Vec<String>>) -> (r:
        Self)
        ensures
            r.config == config,
            r.action == action,
            r.suite_name == suite_name,
            r.tests == tests,
    {
        QASuite { config, action, suite_name, tests }
    }

    /// The message of the first check that the arguments fail, if any:
    /// every action but `list` names a suite.
    pub open spec fn validation_error(&self) -> Option<Seq<char>> {
        if !is_suite_action(self.action@) {
            Some("Action must be one of: create, list, delete, update"@)
        } else if self.suite_name@.len() == 0 && self.action@ != "list"@ {
            Some("Suite name is required for "@ + self.action@ + " action"@)
        } else {
            None
        }
    }

    pub fn validate(&self, ctx: &CommandContext) -> (r: Result<(), String>)
        ensures
            r is Ok <==> self.validation_error() is None,
            r matches Err(m) ==> self.validation_error() == Some(m@),
    {
        let a = self.action.as_str();
        if !(str_eq(a, "create") || str_eq(a, "list") || str_eq(a, "delete") || str_eq(a, "update")) {
            return Err("Action must be one of: create, list, delete, update".to_owned());
        }
        if self.suite_name.as_str().is_empty() && !str_eq(a, "list") {
            return Err(concat3("Suite name is required for ", a, " action"));
        }
        Ok(())
    }
}

/// Run performance benchmarks of the test suite.
pub struct QABenchmark {
    pub config: Config,
    pub benchmark_name: Option<String>,
    pub iterations: u32,
    pub warmup: bool,
}

impl QABenchmark {
    /// The name the command is known by.
    pub fn name(&self) -> (r: &'static str)
        ensures
            r@ == "qa benchmark"@,
    {
        "qa benchmark"
    }

    /// What the command does, in one line.
    pub fn description(&self) -> (r: &'static str)
        ensures
            r@ == "Run performance benchmarks"@,
    {
        "Run performance benchmarks"
    }

    pub fn new(config: Config, benchmark_name: Option<String>, iterations: u32, warmup: bool) -> (r:
        Self)
        ensures
            r.config == config,
            r.benchmark_name == benchmark_name,
            r.iterations == iterations,
            r.warmup == warmup,
    {
        QABenchmark { config, benchmark_name, iterations, warmup }
    }

    pub fn validate(&self, ctx: &CommandContext) -> (r: Result<(), String>)
        ensures
            r is Ok <==> self.iterations > 0,
            r matches Err(m) ==> m@ == "Iterations must be greater than 0"@,
    {
        if self.iterations == 0 {
            return Err("Iterations must be greater than 0".to_owned());
        }
        Ok(())
    }
}


/// A list of tags has one tag more than it has commas, and each tag is
/// trimmed.
pub proof fn lemma_tag_count(list: Seq<char>)
    ensures
        tags_of(Some(list)).len() == count_char(list, ',') + 1,
        forall|i: int|
            0 <= i < tags_of(Some(list)).len() ==> #[trigger] tags_of(Some(list))[i] == trim(
                split_on(list, ',')[i],
            ),
{
    lemma_split_count(list, ',');
}


/// How a test run executes its tests.
#[derive(Clone, Copy, Debug, PartialEq, Eq, Structural)]
pub struct RunSettings {
    /// Tests run side by side in the parallel mode only.
    pub parallel_execution: bool,
    /// The number of tests that may run at once; one unless given.
    pub max_concurrency: usize,
    /// The time limit of the whole run, in seconds.
    pub timeout_secs: u64,
}

/// The settings of a run in the given mode, with the given parallelism.
pub fn run_settings(mode: TestExecutionMode, parallel: Option<usize>) -> (r: RunSettings)
    ensures
        r.parallel_execution == (mode == TestExecutionMode::Parallel),
        r.max_concurrency == (match parallel {
            Some(n) => n,
            None => 1,
        }),
        r.timeout_secs == 3600,
{
    RunSettings {
        parallel_execution: mode == TestExecutionMode::Parallel,
        max_concurrency: match parallel {
            Some(n) => n,
            None => 1,
        },
        timeout_secs: 3600,
    }
}

/// The time limit of a new test case in seconds: the one given, else five
/// minutes.
pub fn test_timeout_secs(timeout: Option<u64>) -> (r: u64)
    ensures
        r == (match timeout {
            Some(t) => t,
            None => 300,
        }),
{
    match timeout {
        Some(t) => t,
        None => 300,
    }
}


// ---------------------------------------------------------------------------
// New test cases
// ---------------------------------------------------------------------------

/// The views of a list of strings.
pub open spec fn texts(v: Seq<String>) -> Seq<Seq<char>> {
    v.map_values(|s: String| s@)
}

/// The tags of a list, each once, in the order of first mention.
pub fn distinct_tags(tags: Vec<String>) -> (r: Vec<String>)
    ensures
        texts(r@).no_duplicates(),
        forall|t: Seq<char>| texts(r@).contains(t) <==> texts(tags@).contains(t),
{
    let ghost all = texts(tags@);
    let mut out: Vec<String> = Vec::new();
    let mut i: usize = 0;
    while i < tags.len()
        invariant
            i <= tags@.len(),
            all == texts(tags@),
            texts(out@).no_duplicates(),
            forall|t: Seq<char>| texts(out@).contains(t) <==> all.take(i as int).contains(t),
        decreases tags.len() - i,
    {
        let tag = &tags[i];
        let mut seen = false;
        let mut j: usize = 0;
        while j < out.len()
            invariant
                j <= out@.len(),
                seen <==> exists|k: int| 0 <= k < j && out@[k]@ == tag@,
            decreases out.len() - j,
        {
            if str_eq(out[j].as_str(), tag.as_str()) {
                seen = true;
            }
            j = j + 1;
        }
        proof {
            assert(all.take(i as int + 1) =~= all.take(i as int).push(tag@));
            if seen {
                let k = choose|k: int| 0 <= k < out@.len() && out@[k]@ == tag@;
                assert(texts(out@)[k] == tag@);
            } else {
                assert forall|k: int| 0 <= k < texts(out@).len() implies texts(out@)[k] != tag@ by {
                    assert(out@[k]@ == texts(out@)[k]);
                }
            }
        }
        let ghost before = out@;
        assert(all[i as int] == tag@);
        if !seen {
            out.push(tag.clone());
            proof {
                assert(texts(out@) =~= texts(before).push(tag@));
            }
        }
        proof {
            assert forall|t: Seq<char>| texts(out@).contains(t) <==> all.take(i as int + 1).contains(
                t,
            ) by {
                if all.take(i as int + 1).contains(t) && t != tag@ {
                    let k = choose|k: int| 0 <= k < i + 1 && #[trigger] all.take(i as int + 1)[k] == t;
                    assert(all.take(i as int)[k] == t);
                    assert(texts(before).contains(t));
                    let k2 = choose|k2: int| 0 <= k2 < texts(before).len() && #[trigger] texts(before)[k2] == t;
                    if !seen {
                        assert(texts(out@)[k2] == t);
                    }
                }
                if texts(out@).contains(t) && t != tag@ {
                    let k = choose|k: int| 0 <= k < texts(out@).len() && #[trigger] texts(out@)[k] == t;
                    if !seen {
                        assert(texts(before)[k] == t);
                    }
                    assert(texts(before).contains(t));
                }
                if t == tag@ {
                    assert(all.take(i as int + 1)[i as int] == t);
                    if seen {
                        let k3 = choose|k3: int| 0 <= k3 < j && #[trigger] out@[k3]@ == tag@;
                        assert(texts(out@)[k3] == t);
                    }
                    if !seen {
                        assert(texts(out@)[before.len() as int] == t);
                    }
                }
            }
        }
        i = i + 1;
    }
    proof {
        assert(all.take(tags@.len() as int) =~= all);
    }
    out
}

/// A new test case as the command line describes it; its identifier, its
/// timestamps and its configuration are added when it is stored.
pub struct TestCaseDraft {
    pub name: String,
    pub description: String,
    pub test_type: TestType,
    pub priority: TestPriority,
    pub environment: TestEnvironment,
    pub runner: TestRunner,
    /// Each tag once.
    pub tags: Vec<String>,
    pub timeout_secs: u64,
    pub retry_count: u32,
    pub author: String,
    pub version: String,
    pub created_by: String,
}

/// The description a test case gets when none is given.
pub open spec fn default_description() -> Seq<char> {
    "Test case description"@
}

/// Describes a new test case from its command-line arguments: its type must
/// be known (any case); priority, environment and runner fall back to
/// medium, testing and local; tags are trimmed and kept once each; the
/// timeout defaults to five minutes; the author is the command line.
pub fn draft_test_case(
    name: String,
    description: Option<String>,
    test_type: &str,
    priority: &Option<String>,
    environment: &Option<String>,
    runner: &Option<String>,
    timeout: Option<u64>,
    tags: &Option<String>,
) -> (r: Result<TestCaseDraft, String>)
    ensures
        r is Err <==> test_type_named(lowercase(test_type@)) is None,
        r matches Err(m) ==> m@ == "Invalid test type: "@ + test_type@,
        r matches Ok(d) ==> {
            &&& d.name == name
            &&& d.description@ == (match description {
                Some(s) => s@,
                None => default_description(),
            })
            &&& test_type_named(lowercase(test_type@)) == Some(d.test_type)
            &&& d.priority == priority_named(opt_text(*priority))
            &&& d.environment == (match environment {
                Some(n) => match environment_named(lowercase(n@)) {
                    Some(e) => e,
                    None => TestEnvironment::Testing,
                },
                None => TestEnvironment::Testing,
            })
            &&& d.runner == runner_named(opt_text(*runner))
            &&& texts(d.tags@).no_duplicates()
            &&& forall|t: Seq<char>| texts(d.tags@).contains(t) <==> tags_of(opt_text(*tags)).contains(t)
            &&& d.timeout_secs == (match timeout {
                Some(s) => s,
                None => 300,
            })
            &&& d.retry_count == 0
            &&& d.author@ == "cli_user"@
            &&& d.version@ == "1.0.0"@
            &&& d.created_by@ == "cli_user"@
        },
{
    let kind = match parse_test_type(test_type) {
        Ok(k) => k,
        Err(e) => return Err(e),
    };
    let parsed = parse_tags(tags);
    proof {
        assert(texts(parsed@) =~= tags_of(opt_text(*tags)));
    }
    let unique = distinct_tags(parsed);
    let description = match description {
        Some(d) => d,
        None => "Test case description".to_owned(),
    };
    Ok(TestCaseDraft {
        name,
        description,
        test_type: kind,
        priority: parse_priority(priority),
        environment: parse_environment(environment),
        runner: parse_runner(runner),
        tags: unique,
        timeout_secs: test_timeout_secs(timeout),
        retry_count: 0,
        author: "cli_user".to_owned(),
        version: "1.0.0".to_owned(),
        created_by: "cli_user".to_owned(),
    })
}


/// Each priority name, in any case, gives its own level; only an unknown
/// name, or none, gives the medium level.
pub proof fn lemma_priority_levels(name: Option<Seq<char>>)
    ensures
        name matches Some(n) && lowercase(n) == "low"@ ==> priority_named(name) == TestPriority::Low,
        name matches Some(n) && lowercase(n) == "high"@ ==> priority_named(name)
            == TestPriority::High,
        name matches Some(n) && lowercase(n) == "critical"@ ==> priority_named(name)
            == TestPriority::Critical,
        priority_named(name) == TestPriority::Medium <==> (name is None || (name matches Some(n)
            && lowercase(n) != "low"@ && lowercase(n) != "high"@ && lowercase(n)
            != "critical"@)),
{
    reveal_strlit("low");
    reveal_strlit("high");
    reveal_strlit("critical");
    assert("low"@[0] == 'l' && "high"@[0] == 'h' && "critical"@[0] == 'c');
}

} // verus!
