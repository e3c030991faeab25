//! Response cache commands: argument checks, the settings a user can
//! change, and the requests that the cache test and the cache benchmark
//! issue.

use crate::command::{CommandContext, Config};
use crate::text::{char_count, concat, decimal, decimal_string, lemma_repeat_len, repeat, repeat_str};
use vstd::prelude::*;

verus! {

// ---------------------------------------------------------------------------
// Arguments
// ---------------------------------------------------------------------------

/// The hash algorithm named on the command line.
#[derive(Clone, Copy, Debug, PartialEq, Eq, Structural)]
pub enum HashAlgorithmArg {
    Sha256,
    Blake3,
    Xxhash,
}

/// The hash algorithm with which the cache derives its keys.
#[derive(Clone, Copy, Debug, PartialEq, Eq, Structural)]
pub enum HashAlgorithm {
    Sha256,
    Blake3,
    Xxhash,
}

impl From<HashAlgorithmArg> for HashAlgorithm {
    fn from(arg: HashAlgorithmArg) -> (r: Self) {
        match arg {
            HashAlgorithmArg::Sha256 => HashAlgorithm::Sha256,
            HashAlgorithmArg::Blake3 => HashAlgorithm::Blake3,
            HashAlgorithmArg::Xxhash => HashAlgorithm::Xxhash,
        }
    }
}

impl vstd::std_specs::convert::FromSpecImpl<HashAlgorithmArg> for HashAlgorithm {
    open spec fn obeys_from_spec() -> bool {
        true
    }

    open spec fn from_spec(v: HashAlgorithmArg) -> Self {
        match v {
            HashAlgorithmArg::Sha256 => HashAlgorithm::Sha256,
            HashAlgorithmArg::Blake3 => HashAlgorithm::Blake3,
            HashAlgorithmArg::Xxhash => HashAlgorithm::Xxhash,
        }
    }
}

/// The format in which the cache configuration is exported.
#[derive(Clone, Copy, Debug, PartialEq, Eq, Structural)]
pub enum ExportFormat {
    Json,
    Yaml,
    Toml,
}

/// The cache settings that `configure` may change; `None` leaves a
/// setting as it is.
pub struct CacheSettingsConfig {
    pub enabled: Option<bool>,
    pub max_entries: Option<usize>,
    pub max_memory_mb: Option<u64>,
    pub ttl_seconds: Option<u64>,
    pub deduplication: Option<bool>,
    pub compression: Option<bool>,
    pub hash_algorithm: Option<HashAlgorithmArg>,
}

/// The response cache subcommands.
pub enum ResponseCacheCommand {
    Stats,
    Test { requests: usize, test_dedup: bool, test_compression: bool },
    Clear { pattern: Option<String> },
    Invalidate { pattern: String },
    Configure {
        enabled: Option<bool>,
        max_entries: Option<usize>,
        max_memory_mb: Option<u64>,
        ttl_seconds: Option<u64>,
        deduplication: Option<bool>,
        compression: Option<bool>,
        hash_algorithm: Option<HashAlgorithmArg>,
    },
    Benchmark { iterations: usize, data_size: usize, hit_rate: u8 },
    Monitor { interval: u64, detailed: bool },
    Export { output: Option<String>, format: ExportFormat },
}

/// The arguments of the `response-cache` command.
pub struct ResponseCacheArgs {
    pub command: ResponseCacheCommand,
}

// ---------------------------------------------------------------------------
// Checks
// ---------------------------------------------------------------------------

/// The largest number of requests that a cache test may issue.
pub const MAX_TEST_REQUESTS: usize = 10000;

/// The complaint about a cache test's request count, if any.
pub open spec fn test_requests_error(requests: usize) -> Option<Seq<char>> {
    if requests == 0 {
        Some("Request count must be at least 1"@)
    } else if requests > MAX_TEST_REQUESTS {
        Some("Request count cannot exceed 10000"@)
    } else {
        None
    }
}

/// A cache test issues between 1 and 10000 requests.
pub fn validate_test_requests(requests: usize) -> (r: Result<(), String>)
    ensures
        r is Ok <==> test_requests_error(requests) is None,
        r matches Err(m) ==> test_requests_error(requests) == Some(m@),
{
    if requests == 0 {
        return Err("Request count must be at least 1".to_owned());
    }
    if requests > MAX_TEST_REQUESTS {
        return Err("Request count cannot exceed 10000".to_owned());
    }
    Ok(())
}

/// Invalidation needs a pattern.
pub fn validate_invalidate_pattern(pattern: &str) -> (r: Result<(), String>)
    ensures
        r is Ok <==> pattern@.len() > 0,
        r matches Err(m) ==> m@ == "Pattern cannot be empty"@,
{
    if pattern.is_empty() {
        return Err("Pattern cannot be empty".to_owned());
    }
    Ok(())
}

/// The complaint about a requested entry limit, if any.
pub open spec fn max_entries_error(max_entries: Option<usize>) -> Option<Seq<char>> {
    if max_entries == Some(0usize) {
        Some("Max entries must be at least 1"@)
    } else {
        None
    }
}

/// An entry limit, where one is given, is at least 1.
pub fn validate_max_entries(max_entries: Option<usize>) -> (r: Result<(), String>)
    ensures
        r is Ok <==> max_entries_error(max_entries) is None,
        r matches Err(m) ==> max_entries_error(max_entries) == Some(m@),
{
    if let Some(entries) = max_entries {
        if entries == 0 {
            return Err("Max entries must be at least 1".to_owned());
        }
    }
    Ok(())
}

/// The settings of `configure` are checked before any is applied.
pub fn validate_cache_settings(settings: &CacheSettingsConfig) -> (r: Result<(), String>)
    ensures
        r is Ok <==> max_entries_error(settings.max_entries) is None,
        r matches Err(m) ==> max_entries_error(settings.max_entries) == Some(m@),
{
    validate_max_entries(settings.max_entries)
}

/// A benchmark's target hit rate is a percentage.
pub fn validate_hit_rate(hit_rate: u8) -> (r: Result<(), String>)
    ensures
        r is Ok <==> hit_rate <= 100,
        r matches Err(m) ==> m@ == "Hit rate cannot exceed 100%"@,
{
    if hit_rate > 100 {
        return Err("Hit rate cannot exceed 100%".to_owned());
    }
    Ok(())
}

// ---------------------------------------------------------------------------
// The requests of the cache test and the cache benchmark
// ---------------------------------------------------------------------------

/// A request that a cache test puts into the cache: its prompt, the
/// response stored for it, and the metadata recorded with it.
pub struct TestCacheEntry {
    pub prompt: String,
    pub response: String,
    pub token_count: u32,
    pub processing_time_ms: u64,
}

/// The prompt of the `i`-th distinct test request.
pub open spec fn test_prompt(i: nat) -> Seq<char> {
    "test request "@ + decimal(i)
}

/// The response stored for the `i`-th distinct test request.
pub open spec fn test_response(i: nat) -> Seq<char> {
    repeat("Response for request "@ + decimal(i), 10)
}

/// The prompt of the `i`-th request that carries duplicate content.
pub open spec fn duplicate_prompt(i: nat) -> Seq<char> {
    "duplicate request "@ + decimal(i)
}

/// The content that every duplicate request stores.
pub open spec fn duplicate_content() -> Seq<char> {
    repeat("This is duplicate content"@, 50)
}

/// The number of requests that a cache test fills the cache with: half of
/// those asked for, each later looked up once.
pub open spec fn unique_test_requests(requests: usize) -> usize {
    requests / 2
}

/// The `i`-th distinct request of a cache test. The stored text is ASCII,
/// so a quarter of its characters is a quarter of its bytes.
pub fn cache_test_entry(i: u64) -> (r: TestCacheEntry)
    requires
        i <= u64::MAX - 100,
    ensures
        r.prompt@ == test_prompt(i as nat),
        r.response@ == test_response(i as nat),
        r.token_count == test_response(i as nat).len() / 4,
        r.processing_time_ms == 100 + i,
{
    let digits = decimal_string(i);
    let prompt = concat("test request ", digits.as_str());
    let unit = concat("Response for request ", digits.as_str());
    let response = repeat_str(unit.as_str(), 10);
    let unit_len = char_count(unit.as_str());
    proof {
        lemma_repeat_len(unit@, 10);
        lemma_decimal_len_bound(i as nat);
        reveal_strlit("Response for request ");
    }
    let token_count = ((unit_len * 10) / 4) as u32;
    TestCacheEntry { prompt, response, token_count, processing_time_ms: 100 + i }
}

/// The `i`-th request of the deduplication phase: each stores the same
/// content under its own prompt.
pub fn duplicate_test_entry(i: u64) -> (r: TestCacheEntry)
    ensures
        r.prompt@ == duplicate_prompt(i as nat),
        r.response@ == duplicate_content(),
        r.token_count == duplicate_content().len() / 4,
        r.processing_time_ms == 150,
{
    let digits = decimal_string(i);
    let prompt = concat("duplicate request ", digits.as_str());
    let unit = "This is duplicate content";
    let response = repeat_str(unit, 50);
    let unit_len = char_count(unit);
    proof {
        lemma_repeat_len(unit@, 50);
        reveal_strlit("This is duplicate content");
    }
    let token_count = ((unit_len * 50) / 4) as u32;
    TestCacheEntry { prompt, response, token_count, processing_time_ms: 150 }
}

/// A decimal rendering has at most twenty digits for a 64-bit value.
proof fn lemma_decimal_len_bound(n: nat)
    requires
        n <= u64::MAX,
    ensures
        decimal(n).len() <= 20,
{
    reveal_with_fuel(pow10, 21);
    assert(pow10(20) == 100000000000000000000nat);
    lemma_decimal_len_below(n, 20);
}

proof fn lemma_decimal_len_below(n: nat, k: nat)
    requires
        k >= 1,
        n < pow10(k),
    ensures
        decimal(n).len() <= k,
    decreases n,
{
    if n >= 10 {
        assert(n / 10 < pow10((k - 1) as nat)) by {
            if k == 1 {
                reveal_with_fuel(pow10, 2);
            } else {
                assert(pow10(k) == 10 * pow10((k - 1) as nat));
                assert(n / 10 < pow10((k - 1) as nat)) by (nonlinear_arith)
                    requires
                        n < 10 * pow10((k - 1) as nat),
                ;
            }
        }
        if k == 1 {
            reveal_with_fuel(pow10, 2);
        } else {
            lemma_decimal_len_below(n / 10, (k - 1) as nat);
        }
    }
}

/// Ten to the power `k`.
pub open spec fn pow10(k: nat) -> nat
    decreases k,
{
    if k == 0 {
        1
    } else {
        10 * pow10((k - 1) as nat)
    }
}

/// The number of requests a benchmark puts into the cache beforehand so
/// that the target share of its iterations hits.
pub open spec fn prepopulated(iterations: nat, hit_rate: nat) -> nat {
    iterations * hit_rate / 100
}

/// The number of pre-populated benchmark requests.
pub fn prepopulated_entries(iterations: usize, hit_rate: u8) -> (r: usize)
    requires
        iterations * hit_rate <= usize::MAX,
    ensures
        r == prepopulated(iterations as nat, hit_rate as nat),
        hit_rate <= 100 ==> r <= iterations,
{
    proof {
        if hit_rate <= 100 {
            assert(iterations * hit_rate <= iterations * 100) by (nonlinear_arith)
                requires
                    hit_rate <= 100,
            ;
        }
    }
    (iterations * (hit_rate as usize)) / 100
}

/// The request that the `i`-th benchmark iteration issues, given how many
/// requests were pre-populated.
pub open spec fn benchmark_request(i: nat, cache_entries: nat) -> nat {
    if i < cache_entries {
        i
    } else {
        cache_entries + i
    }
}

/// The request of the `i`-th benchmark iteration. An iteration before the
/// pre-populated count asks for a pre-populated request; every later one
/// asks for a request that was never pre-populated, and no two iterations
/// ask for the same request.
pub fn benchmark_request_id(i: usize, cache_entries: usize) -> (r: usize)
    requires
        i < cache_entries || cache_entries + i <= usize::MAX,
    ensures
        r == benchmark_request(i as nat, cache_entries as nat),
        r < cache_entries <==> i < cache_entries,
{
    if i < cache_entries {
        i
    } else {
        cache_entries + i
    }
}

/// Distinct benchmark iterations ask for distinct requests.
pub proof fn lemma_benchmark_requests_distinct(i: nat, j: nat, cache_entries: nat)
    requires
        i != j,
    ensures
        benchmark_request(i, cache_entries) != benchmark_request(j, cache_entries),
{
}

// ---------------------------------------------------------------------------
// Commands
// ---------------------------------------------------------------------------

/// Show response cache statistics.
pub struct CacheStats {
    pub config: Config,
}

impl CacheStats {
    /// The name the command is known by.
    pub fn name(&self) -> (r: &'static str)
        ensures
            r@ == "response cache stats"@,
    {
        "response cache stats"
    }

    /// What the command does, in one line.
    pub fn description(&self) -> (r: &'static str)
        ensures
            r@ == "Show response cache statistics"@,
    {
        "Show response cache statistics"
    }

    pub fn new(config: Config) -> (r: Self)
        ensures
            r.config == config,
    {
        CacheStats { config }
    }

    /// Showing statistics takes no arguments to check.
    pub fn validate(&self, ctx: &CommandContext) -> (r: Result<(), String>)
        ensures
            r is Ok,
    {
        Ok(())
    }
}

/// Clear response cache entries.
pub struct CacheClear {
    pub config: Config,
    pub pattern: Option<String>,
}

impl CacheClear {
    /// The name the command is known by.
    pub fn name(&self) -> (r: &'static str)
        ensures
            r@ == "response cache clear"@,
    {
        "response cache clear"
    }

    /// What the command does, in one line.
    pub fn description(&self) -> (r: &'static str)
        ensures
            r@ == "Clear response cache entries"@,
    {
        "Clear response cache entries"
    }

    pub fn new(config: Config, pattern: Option<String>) -> (r: Self)
        ensures
            r.config == config,
            r.pattern == pattern,
    {
        CacheClear { config, pattern }
    }

    /// Clearing takes no arguments to check.
    pub fn validate(&self, ctx: &CommandContext) -> (r: Result<(), String>)
        ensures
            r is Ok,
    {
        Ok(())
    }
}

/// Exercise the response cache with generated requests.
pub struct CacheTest {
    pub config: Config,
    pub requests: usize,
    pub test_dedup: bool,
    pub test_compression: bool,
}

impl CacheTest {
    /// The name the command is known by.
    pub fn name(&self) -> (r: &'static str)
        ensures
            r@ == "response cache test"@,
    {
        "response cache test"
    }

    /// What the command does, in one line.
    pub fn description(&self) -> (r: &'static str)
        ensures
            r@ == "Test response cache functionality"@,
    {
        "Test response cache functionality"
    }

    pub fn new(config: Config, requests: usize, test_dedup: bool, test_compression: bool) -> (r:
        Self)
        ensures
            r.config == config,
            r.requests == requests,
            r.test_dedup == test_dedup,
            r.test_compression == test_compression,
    {
        CacheTest { config, requests, test_dedup, test_compression }
    }

    pub fn validate(&self, ctx: &CommandContext) -> (r: Result<(), String>)
        ensures
            r is Ok <==> test_requests_error(self.requests) is None,
            r matches Err(m) ==> test_requests_error(self.requests) == Some(m@),
    {
        validate_test_requests(self.requests)
    }

    /// The number of distinct requests the test stores and looks up again.
    pub fn unique_requests(&self) -> (r: usize)
        ensures
            r == unique_test_requests(self.requests),
            r <= self.requests,
    {
        self.requests / 2
    }
}

/// Invalidate the cache entries that match a pattern.
pub struct CacheInvalidate {
    pub config: Config,
    pub pattern: String,
}

impl CacheInvalidate {
    /// The name the command is known by.
    pub fn name(&self) -> (r: &'static str)
        ensures
            r@ == "response cache invalidate"@,
    {
        "response cache invalidate"
    }

    /// What the command does, in one line.
    pub fn description(&self) -> (r: &'static str)
        ensures
            r@ == "Invalidate cache entries matching pattern"@,
    {
        "Invalidate cache entries matching pattern"
    }

    pub fn new(config: Config, pattern: String) -> (r: Self)
        ensures
            r.config == config,
            r.pattern == pattern,
    {
        CacheInvalidate { config, pattern }
    }

    pub fn validate(&self, ctx: &CommandContext) -> (r: Result<(), String>)
        ensures
            r is Ok <==> self.pattern@.len() > 0,
            r matches Err(m) ==> m@ == "Pattern cannot be empty"@,
    {
        validate_invalidate_pattern(self.pattern.as_str())
    }
}

/// Change response cache settings.
pub struct CacheConfigure {
    pub config: Config,
    pub enabled: Option<bool>,
    pub max_entries: Option<usize>,
    pub ttl_seconds: Option<u64>,
}

impl CacheConfigure {
    /// The name the command is known by.
    pub fn name(&self) -> (r: &'static str)
        ensures
            r@ == "response cache configure"@,
    {
        "response cache configure"
    }

    /// What the command does, in one line.
    pub fn description(&self) -> (r: &'static str)
        ensures
            r@ == "Configure response cache settings"@,
    {
        "Configure response cache settings"
    }

    pub fn new(
        config: Config,
        enabled: Option<bool>,
        max_entries: Option<usize>,
        ttl_seconds: Option<u64>,
    ) -> (r: Self)
        ensures
            r.config == config,
            r.enabled == enabled,
            r.max_entries == max_entries,
            r.ttl_seconds == ttl_seconds,
    {
        CacheConfigure { config, enabled, max_entries, ttl_seconds }
    }

    pub fn validate(&self, ctx: &CommandContext) -> (r: Result<(), String>)
        ensures
            r is Ok <==> max_entries_error(self.max_entries) is None,
            r matches Err(m) ==> max_entries_error(self.max_entries) == Some(m@),
    {
        validate_max_entries(self.max_entries)
    }
}

} // verus!
