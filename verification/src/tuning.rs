//! Performance optimization commands: argument checks, report locations,
//! the options of a profiling session, and `key=value` parameter lists.

use crate::command::{CommandContext, Config};
use crate::text::{chars_eq, chars_of, concat, concat3, str_eq, string_of};
use vstd::prelude::*;

verus! {

// ---------------------------------------------------------------------------
// Subcommands
// ---------------------------------------------------------------------------

/// Profiling subcommands.
pub enum ProfileCommand {
    Start {
        name: String,
        profile_type: Option<String>,
        duration: Option<u64>,
        sample_rate: Option<u32>,
        cpu: bool,
        memory: bool,
        io: bool,
        network: bool,
        gpu: bool,
    },
    Stop { name: Option<String>, output: Option<String> },
    Analyze {
        profile: String,
        depth: Option<u32>,
        recommend: bool,
        baseline: Option<String>,
        export: Option<String>,
    },
    List { status: Option<String>, all: bool },
    Compare { profile1: String, profile2: String, metrics: bool, format: Option<String> },
}

/// Optimization subcommands.
pub enum OptimizeCommand {
    Run {
        target: String,
        level: Option<String>,
        strategy: Option<String>,
        dry_run: bool,
        force: bool,
        overrides: Option<Vec<String>>,
    },
    Preset { name: String, models: Option<Vec<String>>, list: bool },
    Rollback { id: String, point: Option<String>, force: bool },
    History { limit: Option<usize>, metrics: bool, export: Option<String> },
    Plan { targets: Vec<String>, budget: Option<String>, time_limit: Option<u64>, detailed: bool },
}

/// Cache tuning subcommands.
pub enum CacheCommand {
    Stats { level: Option<String>, detailed: bool, history: bool },
    Clear { level: Option<String>, pattern: Option<String>, force: bool },
    Warmup { models: Option<Vec<String>>, patterns: Option<String>, parallel: bool },
    Policy { policy: String, parameters: Option<Vec<String>>, level: Option<String> },
    Analyze { period: Option<String>, recommend: bool, export: Option<String> },
}

/// I/O tuning subcommands.
pub enum IOCommand {
    Stats { device: Option<String>, latency: bool, throughput: bool },
    Config {
        buffer_size: Option<usize>,
        read_ahead: Option<bool>,
        write_behind: Option<bool>,
        queue_depth: Option<u32>,
    },
    Schedule { scheduler: Option<String>, priorities: Option<Vec<String>>, bandwidth: Option<Vec<String>> },
    Test { test_type: Option<String>, size: Option<u64>, block_size: Option<usize>, duration: Option<u64> },
}

/// Network tuning subcommands.
pub enum NetworkCommand {
    Stats { interface: Option<String>, latency: bool, bandwidth: bool, errors: bool },
    Config {
        buffers: Option<Vec<String>>,
        window_size: Option<u32>,
        keep_alive: Option<bool>,
        compression: Option<bool>,
    },
    Pool { min: Option<usize>, max: Option<usize>, idle_timeout: Option<u64>, validation: Option<u64> },
    Test { test_type: Option<String>, host: Option<String>, duration: Option<u64>, parallel: Option<usize> },
}

/// Benchmark subcommands of the optimization system.
pub enum BenchmarkCommand {
    Run {
        suite: Option<String>,
        models: Option<Vec<String>>,
        iterations: Option<u32>,
        parallel: bool,
        output: Option<String>,
    },
    Compare { baseline: String, comparison: String, metrics: Option<Vec<String>>, format: Option<String> },
    Suite { name: String, config: Option<String>, tests: Option<Vec<String>> },
    Export { id: String, format: Option<String>, output: Option<String> },
    Continuous { enable: bool, schedule: Option<String>, detect_regression: bool, alerts: Option<Vec<String>> },
}

/// A profiling session and its state.
pub struct ProfileInfo {
    pub name: String,
    pub status: String,
}

/// A memory leak that leak detection reported.
pub struct MemoryLeak {
    pub location: String,
    pub size: u64,
    pub count: u32,
}

// ---------------------------------------------------------------------------
// Profiling options
// ---------------------------------------------------------------------------

/// The areas a profiling session records, in the order cpu, memory, io,
/// network, gpu; each is enabled with the value `true`.
pub open spec fn profile_option_names(cpu: bool, memory: bool, io: bool, network: bool, gpu: bool) -> Seq<
    Seq<char>,
> {
    let a = if cpu {
        seq!["cpu"@]
    } else {
        Seq::empty()
    };
    let b = if memory {
        a.push("memory"@)
    } else {
        a
    };
    let c = if io {
        b.push("io"@)
    } else {
        b
    };
    let d = if network {
        c.push("network"@)
    } else {
        c
    };
    if gpu {
        d.push("gpu"@)
    } else {
        d
    }
}

/// The options of a profiling session: one `(area, "true")` pair per
/// area asked for.
pub fn profile_options(cpu: bool, memory: bool, io: bool, network: bool, gpu: bool) -> (r: Vec<
    (String, String),
>)
    ensures
        r@.len() == profile_option_names(cpu, memory, io, network, gpu).len(),
        forall|i: int|
            0 <= i < r@.len() ==> #[trigger] r@[i].0@ == profile_option_names(
                cpu,
                memory,
                io,
                network,
                gpu,
            )[i] && r@[i].1@ == "true"@,
{
    let mut r: Vec<(String, String)> = Vec::new();
    if cpu {
        r.push(("cpu".to_owned(), "true".to_owned()));
    }
    if memory {
        r.push(("memory".to_owned(), "true".to_owned()));
    }
    if io {
        r.push(("io".to_owned(), "true".to_owned()));
    }
    if network {
        r.push(("network".to_owned(), "true".to_owned()));
    }
    if gpu {
        r.push(("gpu".to_owned(), "true".to_owned()));
    }
    r
}

/// The session a `stop` ends: the one named, or `current`.
pub fn session_name(name: Option<String>) -> (r: String)
    ensures
        name matches Some(n) ==> r@ == n@,
        name is None ==> r@ == "current"@,
{
    match name {
        Some(n) => n,
        None => "current".to_owned(),
    }
}

// ---------------------------------------------------------------------------
// key=value parameters
// ---------------------------------------------------------------------------

/// The index of the first `c` in `s`, if any.
pub open spec fn first_index_of(s: Seq<char>, c: char) -> Option<int>
    decreases s.len(),
{
    if s.len() == 0 {
        None
    } else {
        match first_index_of(s.drop_last(), c) {
            Some(i) => Some(i),
            None => if s.last() == c {
                Some(s.len() - 1)
            } else {
                None
            },
        }
    }
}

/// The key and value of a `key=value` parameter: the text before and after
/// its first `=`. A parameter without `=` has none.
pub open spec fn key_value_of(s: Seq<char>) -> Option<(Seq<char>, Seq<char>)> {
    match first_index_of(s, '=') {
        Some(i) => Some((s.take(i), s.skip(i + 1))),
        None => None,
    }
}

/// The parameters of a list, each key mapped to the value it was last
/// given.
pub open spec fn parameter_map(list: Seq<Seq<char>>) -> Map<Seq<char>, Seq<char>>
    decreases list.len(),
{
    if list.len() == 0 {
        Map::empty()
    } else {
        let m = parameter_map(list.drop_last());
        match key_value_of(list.last()) {
            Some(kv) => m.insert(kv.0, kv.1),
            None => m,
        }
    }
}

/// The map that a list of `(key, value)` pairs with distinct keys stands
/// for.
pub open spec fn pairs_map(pairs: Seq<(Seq<char>, Seq<char>)>) -> Map<Seq<char>, Seq<char>>
    decreases pairs.len(),
{
    if pairs.len() == 0 {
        Map::empty()
    } else {
        pairs_map(pairs.drop_last()).insert(pairs.last().0, pairs.last().1)
    }
}

/// True when no key occurs twice among `pairs`.
pub open spec fn distinct_keys(pairs: Seq<(Seq<char>, Seq<char>)>) -> bool {
    forall|i: int, j: int| 0 <= i < j < pairs.len() ==> #[trigger] pairs[i].0 != #[trigger] pairs[j].0
}

/// The pairs of `v` by their characters.
pub open spec fn pair_views(v: Seq<(String, String)>) -> Seq<(Seq<char>, Seq<char>)> {
    v.map_values(|p: (String, String)| (p.0@, p.1@))
}

/// Splits a parameter at its first `=`.
fn split_parameter(s: &str) -> (r: Option<(String, String)>)
    ensures
        r matches Some(kv) ==> key_value_of(s@) == Some((kv.0@, kv.1@)),
        r is None ==> key_value_of(s@) is None,
{
    let v = chars_of(s);
    let mut i: usize = 0;
    while i < v.len()
        invariant
            v@ == s@,
            i <= v@.len(),
            first_index_of(v@.take(i as int), '=') is None,
        decreases v.len() - i,
    {
        proof {
            assert(v@.take(i + 1).drop_last() == v@.take(i as int));
        }
        if v[i] == '=' {
            let key = string_of(&v.as_slice()[0..i]);
            let value = string_of(&v.as_slice()[i + 1..v.len()]);
            proof {
                lemma_first_index_prefix(v@, i as int + 1);
                assert(v@.subrange(0, i as int) == v@.take(i as int));
                assert(v@.subrange(i + 1, v@.len() as int) == v@.skip(i + 1));
            }
            return Some((key, value));
        }
        i = i + 1;
    }
    proof {
        assert(v@.take(v@.len() as int) == v@);
    }
    None
}

/// The first occurrence found in a prefix is the first occurrence.
proof fn lemma_first_index_prefix(s: Seq<char>, k: int)
    requires
        0 <= k <= s.len(),
        first_index_of(s.take(k), '=') is Some,
    ensures
        first_index_of(s, '=') == first_index_of(s.take(k), '='),
    decreases s.len() - k,
{
    if k < s.len() {
        assert(s.take(k + 1).drop_last() == s.take(k));
        lemma_first_index_prefix(s, k + 1);
    } else {
        assert(s.take(k) == s);
    }
}

/// Replacing the value of a present key updates the map at that key.
proof fn lemma_pairs_map_update(pairs: Seq<(Seq<char>, Seq<char>)>, i: int, v: Seq<char>)
    requires
        0 <= i < pairs.len(),
        distinct_keys(pairs),
    ensures
        pairs_map(pairs.update(i, (pairs[i].0, v))) == pairs_map(pairs).insert(pairs[i].0, v),
        distinct_keys(pairs.update(i, (pairs[i].0, v))),
    decreases pairs.len(),
{
    let u = pairs.update(i, (pairs[i].0, v));
    assert forall|a: int, b: int| 0 <= a < b < u.len() implies #[trigger] u[a].0 != #[trigger] u[b].0 by {
        assert(u[a].0 == pairs[a].0 && u[b].0 == pairs[b].0);
    }
    if i == pairs.len() - 1 {
        assert(u.drop_last() == pairs.drop_last());
        lemma_pairs_map_key_absent(pairs.drop_last(), pairs.last().0);
        assert(pairs_map(pairs).insert(pairs[i].0, v) =~= pairs_map(pairs.drop_last()).insert(
            pairs[i].0,
            v,
        ));
    } else {
        let d = pairs.drop_last();
        assert(distinct_keys(d));
        lemma_pairs_map_update(d, i, v);
        assert(u.drop_last() == d.update(i, (d[i].0, v)));
        assert(pairs.last().0 != pairs[i].0);
        assert(pairs_map(u) =~= pairs_map(pairs).insert(pairs[i].0, v));
    }
}

/// A key that occurs in no pair is not in the map; when the keys are
/// distinct, the last pair's key occurs in no earlier pair.
proof fn lemma_pairs_map_key_absent(pairs: Seq<(Seq<char>, Seq<char>)>, k: Seq<char>)
    requires
        forall|j: int| 0 <= j < pairs.len() ==> #[trigger] pairs[j].0 != k,
    ensures
        !pairs_map(pairs).contains_key(k),
    decreases pairs.len(),
{
    if pairs.len() > 0 {
        lemma_pairs_map_key_absent(pairs.drop_last(), k);
    }
}

/// A key is in the map exactly when some pair has it.
proof fn lemma_pairs_map_has_key(pairs: Seq<(Seq<char>, Seq<char>)>, i: int)
    requires
        0 <= i < pairs.len(),
    ensures
        pairs_map(pairs).contains_key(pairs[i].0),
    decreases pairs.len(),
{
    if i < pairs.len() - 1 {
        lemma_pairs_map_has_key(pairs.drop_last(), i);
    }
}

/// The index of the pair whose key is `key`, if any.
fn find_key(pairs: &Vec<(String, String)>, key: &str) -> (r: Option<usize>)
    ensures
        r matches Some(i) ==> i < pairs@.len() && pairs@[i as int].0@ == key@,
        r is None ==> forall|m: int| 0 <= m < pairs@.len() ==> #[trigger] pairs@[m].0@ != key@,
{
    let kc = chars_of(key);
    let mut j: usize = 0;
    while j < pairs.len()
        invariant
            kc@ == key@,
            j <= pairs@.len(),
            forall|m: int| 0 <= m < j ==> #[trigger] pairs@[m].0@ != key@,
        decreases pairs.len() - j,
    {
        let oc = chars_of(pairs[j].0.as_str());
        if chars_eq(oc.as_slice(), kc.as_slice()) {
            return Some(j);
        }
        j = j + 1;
    }
    None
}

/// Reads `key=value` parameters into pairs with distinct keys, each key
/// with the value it was last given. Parameters without `=` are skipped.
pub fn parse_key_value_pairs(pairs: Option<Vec<String>>) -> (r: Vec<(String, String)>)
    ensures
        distinct_keys(pair_views(r@)),
        pairs_map(pair_views(r@)) == parameter_map(
            match pairs {
                Some(v) => v@.map_values(|s: String| s@),
                None => Seq::empty(),
            },
        ),
{
    let list = match pairs {
        Some(v) => v,
        None => Vec::new(),
    };
    let ghost texts = list@.map_values(|s: String| s@);
    let mut out: Vec<(String, String)> = Vec::new();
    let mut i: usize = 0;
    while i < list.len()
        invariant
            texts == list@.map_values(|s: String| s@),
            i <= list@.len(),
            distinct_keys(pair_views(out@)),
            pairs_map(pair_views(out@)) == parameter_map(texts.take(i as int)),
        decreases list.len() - i,
    {
        proof {
            assert(texts.take(i + 1).drop_last() == texts.take(i as int));
            assert(texts.take(i + 1).last() == list@[i as int]@);
        }
        match split_parameter(list[i].as_str()) {
            Some((key, value)) => {
                let found = find_key(&out, key.as_str());
                let ghost before = pair_views(out@);
                match found {
                    Some(at) => {
                        proof {
                            lemma_pairs_map_update(before, at as int, value@);
                        }
                        let old_key = out[at].0.clone();
                        out.set(at, (old_key, value));
                        proof {
                            assert(pair_views(out@) =~= before.update(
                                at as int,
                                (before[at as int].0, value@),
                            ));
                        }
                    },
                    None => {
                        out.push((key, value));
                        proof {
                            assert(pair_views(out@) =~= before.push((key@, value@)));
                            assert(pair_views(out@).drop_last() =~= before);
                            let u = pair_views(out@);
                            assert forall|a: int, b: int|
                                0 <= a < b < u.len() implies #[trigger] u[a].0
                                != #[trigger] u[b].0 by {
                                if b == u.len() - 1 {
                                    assert(u[a].0 == before[a].0);
                                    assert(before[a].0 == out@[a].0@);
                                } else {
                                    assert(u[a] == before[a] && u[b] == before[b]);
                                }
                            }
                        }
                    },
                }
            },
            None => {},
        }
        i = i + 1;
    }
    proof {
        assert(texts.take(texts.len() as int) == texts);
    }
    out
}

// ---------------------------------------------------------------------------
// Commands
// ---------------------------------------------------------------------------

/// Analyse performance bottlenecks.
pub struct OptimizeAnalyze {
    pub config: Config,
    pub target: String,
    pub duration: u64,
    pub detailed: bool,
}

impl OptimizeAnalyze {
    /// The name the command is known by.
    pub fn name(&self) -> (r: &'static str)
        ensures
            r@ == "optimize analyze"@,
    {
        "optimize analyze"
    }

    /// What the command does, in one line.
    pub fn description(&self) -> (r: &'static str)
        ensures
            r@ == "Analyze performance bottlenecks"@,
    {
        "Analyze performance bottlenecks"
    }

    pub fn new(config: Config, target: String, duration: u64, detailed: bool) -> (r: Self)
        ensures
            r.config == config,
            r.target == target,
            r.duration == duration,
            r.detailed == detailed,
    {
        OptimizeAnalyze { config, target, duration, detailed }
    }

    /// The message of the first check that the arguments fail, if any.
    pub open spec fn validation_error(&self) -> Option<Seq<char>> {
        if self.target@.len() == 0 {
            Some("Target cannot be empty"@)
        } else if self.duration == 0 {
            Some("Duration must be greater than 0"@)
        } else {
            None
        }
    }

    pub fn validate(&self, ctx: &CommandContext) -> (r: Result<(), String>)
        ensures
            r is Ok <==> self.validation_error() is None,
            r matches Err(m) ==> self.validation_error() == Some(m@),
    {
        if self.target.as_str().is_empty() {
            return Err("Target cannot be empty".to_owned());
        }
        if self.duration == 0 {
            return Err("Duration must be greater than 0".to_owned());
        }
        Ok(())
    }
}

/// The search strategies of auto-tuning.
pub open spec fn is_tuning_strategy(s: Seq<char>) -> bool {
    s == "grid"@ || s == "random"@ || s == "bayesian"@
}

/// Auto-tune performance parameters.
pub struct OptimizeTune {
    pub config: Config,
    pub target: String,
    pub iterations: u32,
    pub strategy: String,
}

impl OptimizeTune {
    /// The name the command is known by.
    pub fn name(&self) -> (r: &'static str)
        ensures
            r@ == "optimize tune"@,
    {
        "optimize tune"
    }

    /// What the command does, in one line.
    pub fn description(&self) -> (r: &'static str)
        ensures
            r@ == "Auto-tune performance parameters"@,
    {
        "Auto-tune performance parameters"
    }

    pub fn new(config: Config, target: String, iterations: u32, strategy: String) -> (r: Self)
        ensures
            r.config == config,
            r.target == target,
            r.iterations == iterations,
            r.strategy == strategy,
    {
        OptimizeTune { config, target, iterations, strategy }
    }

    /// The message of the first check that the arguments fail, if any.
    pub open spec fn validation_error(&self) -> Option<Seq<char>> {
        if self.target@.len() == 0 {
            Some("Target cannot be empty"@)
        } else if self.iterations == 0 {
            Some("Iterations must be greater than 0"@)
        } else if !is_tuning_strategy(self.strategy@) {
            Some("Strategy must be one of: grid, random, bayesian"@)
        } else {
            None
        }
    }

    pub fn validate(&self, ctx: &CommandContext) -> (r: Result<(), String>)
        ensures
            r is Ok <==> self.validation_error() is None,
            r matches Err(m) ==> self.validation_error() == Some(m@),
    {
        if self.target.as_str().is_empty() {
            return Err("Target cannot be empty".to_owned());
        }
        if self.iterations == 0 {
            return Err("Iterations must be greater than 0".to_owned());
        }
        let s = self.strategy.as_str();
        if !(str_eq(s, "grid") || str_eq(s, "random") || str_eq(s, "bayesian")) {
            return Err("Strategy must be one of: grid, random, bayesian".to_owned());
        }
        Ok(())
    }
}

/// Apply optimization recommendations.
pub struct OptimizeApply {
    pub config: Config,
    pub target: String,
    pub recommendations_path: String,
    pub dry_run: bool,
}

impl OptimizeApply {
    /// The name the command is known by.
    pub fn name(&self) -> (r: &'static str)
        ensures
            r@ == "optimize apply"@,
    {
        "optimize apply"
    }

    /// What the command does, in one line.
    pub fn description(&self) -> (r: &'static str)
        ensures
            r@ == "Apply optimization recommendations"@,
    {
        "Apply optimization recommendations"
    }

    pub fn new(config: Config, target: String, recommendations_path: String, dry_run: bool) -> (r:
        Self)
        ensures
            r.config == config,
            r.target == target,
            r.recommendations_path == recommendations_path,
            r.dry_run == dry_run,
    {
        OptimizeApply { config, target, recommendations_path, dry_run }
    }

    /// The message of the first check that the arguments fail, if any.
    pub open spec fn validation_error(&self) -> Option<Seq<char>> {
        if self.target@.len() == 0 {
            Some("Target cannot be empty"@)
        } else if self.recommendations_path@.len() == 0 {
            Some("Recommendations path cannot be empty"@)
        } else {
            None
        }
    }

    pub fn validate(&self, ctx: &CommandContext) -> (r: Result<(), String>)
        ensures
            r is Ok <==> self.validation_error() is None,
            r matches Err(m) ==> self.validation_error() == Some(m@),
    {
        if self.target.as_str().is_empty() {
            return Err("Target cannot be empty".to_owned());
        }
        if self.recommendations_path.as_str().is_empty() {
            return Err("Recommendations path cannot be empty".to_owned());
        }
        Ok(())
    }
}

/// The periods an optimization report covers.
pub open spec fn is_time_range(t: Seq<char>) -> bool {
    t == "1h"@ || t == "24h"@ || t == "7d"@ || t == "30d"@
}

/// The formats of an optimization report.
pub open spec fn is_optimization_report_format(f: Seq<char>) -> bool {
    f == "html"@ || f == "json"@ || f == "pdf"@ || f == "markdown"@
}

/// Generate an optimization report.
pub struct OptimizeReport {
    pub config: Config,
    pub target: String,
    pub time_range: String,
    pub format: String,
}

impl OptimizeReport {
    /// The name the command is known by.
    pub fn name(&self) -> (r: &'static str)
        ensures
            r@ == "optimize report"@,
    {
        "optimize report"
    }

    /// What the command does, in one line.
    pub fn description(&self) -> (r: &'static str)
        ensures
            r@ == "Generate optimization report"@,
    {
        "Generate optimization report"
    }

    pub fn new(config: Config, target: String, time_range: String, format: String) -> (r: Self)
        ensures
            r.config == config,
            r.target == target,
            r.time_range == time_range,
            r.format == format,
    {
        OptimizeReport { config, target, time_range, format }
    }

    /// The message of the first check that the arguments fail, if any.
    pub open spec fn validation_error(&self) -> Option<Seq<char>> {
        if self.target@.len() == 0 {
            Some("Target cannot be empty"@)
        } else if !is_time_range(self.time_range@) {
            Some("Time range must be one of: 1h, 24h, 7d, 30d"@)
        } else if !is_optimization_report_format(self.format@) {
            Some("Format must be one of: html, json, pdf, markdown"@)
        } else {
            None
        }
    }

    pub fn validate(&self, ctx: &CommandContext) -> (r: Result<(), String>)
        ensures
            r is Ok <==> self.validation_error() is None,
            r matches Err(m) ==> self.validation_error() == Some(m@),
    {
        if self.target.as_str().is_empty() {
            return Err("Target cannot be empty".to_owned());
        }
        let t = self.time_range.as_str();
        if !(str_eq(t, "1h") || str_eq(t, "24h") || str_eq(t, "7d") || str_eq(t, "30d")) {
            return Err("Time range must be one of: 1h, 24h, 7d, 30d".to_owned());
        }
        let f = self.format.as_str();
        if !(str_eq(f, "html") || str_eq(f, "json") || str_eq(f, "pdf") || str_eq(f, "markdown")) {
            return Err("Format must be one of: html, json, pdf, markdown".to_owned());
        }
        Ok(())
    }

    /// Where the report is written: named after the target, with the
    /// format as its extension, under `reports/`.
    pub fn report_path(&self) -> (r: String)
        ensures
            r@ == "reports/optimization-"@ + self.target@ + "."@ + self.format@,
    {
        let stem = concat3("reports/optimization-", self.target.as_str(), ".");
        concat(stem.as_str(), self.format.as_str())
    }
}


// ---------------------------------------------------------------------------
// Laws of key=value parameters
// ---------------------------------------------------------------------------

/// The last value given to a key is the one kept; a parameter without `=`
/// changes nothing.
pub proof fn lemma_last_value_wins(list: Seq<Seq<char>>, param: Seq<char>)
    ensures
        key_value_of(param) matches Some(kv) ==> parameter_map(list.push(param)).contains_key(kv.0)
            && parameter_map(list.push(param))[kv.0] == kv.1,
        key_value_of(param) is None ==> parameter_map(list.push(param)) == parameter_map(list),
{
    assert(list.push(param).drop_last() == list);
}

/// A parameter's key holds no `=`: everything after the first `=` is its
/// value.
pub proof fn lemma_key_has_no_separator(param: Seq<char>)
    ensures
        key_value_of(param) matches Some(kv) ==> (forall|i: int|
            0 <= i < kv.0.len() ==> #[trigger] kv.0[i] != '=') && kv.0 + seq!['='] + kv.1 == param,
{
    match first_index_of(param, '=') {
        Some(i) => {
            lemma_first_index_of(param);
            assert(param.take(i) + seq!['='] + param.skip(i + 1) =~= param);
            assert forall|j: int| 0 <= j < i implies #[trigger] param.take(i)[j] != '=' by {
                assert(param.take(i)[j] == param[j]);
            }
        },
        None => {},
    }
}

/// The first index of `c`, when there is one, holds `c`, and no earlier
/// index does.
proof fn lemma_first_index_of(s: Seq<char>)
    ensures
        first_index_of(s, '=') matches Some(i) ==> 0 <= i < s.len() && s[i] == '=' && forall|j: int|
            0 <= j < i ==> #[trigger] s[j] != '=',
        first_index_of(s, '=') is None ==> forall|j: int| 0 <= j < s.len() ==> #[trigger] s[j] != '=',
    decreases s.len(),
{
    if s.len() > 0 {
        let init = s.drop_last();
        lemma_first_index_of(init);
        assert forall|j: int| 0 <= j < init.len() implies #[trigger] init[j] == s[j] by {}
        match first_index_of(init, '=') {
            Some(i) => {
                assert forall|j: int| 0 <= j < i implies #[trigger] s[j] != '=' by {
                    assert(init[j] == s[j]);
                }
                assert(init[i] == s[i]);
            },
            None => {
                assert forall|j: int| 0 <= j < s.len() - 1 implies #[trigger] s[j] != '=' by {
                    assert(init[j] == s[j]);
                }
                if s.last() == '=' {
                    assert(s[s.len() - 1] == '=');
                } else {
                    assert forall|j: int| 0 <= j < s.len() implies #[trigger] s[j] != '=' by {
                        if j < s.len() - 1 {
                            assert(init[j] == s[j]);
                        }
                    }
                }
            },
        }
    }
}


/// The complaint about a monitoring target and interval, if any; the alert
/// threshold, a floating-point percentage, is checked after them by the
/// caller.
pub open spec fn monitor_error(target: Seq<char>, interval: u64) -> Option<Seq<char>> {
    if target.len() == 0 {
        Some("Target cannot be empty"@)
    } else if interval == 0 {
        Some("Interval must be greater than 0"@)
    } else {
        None
    }
}

/// Checks the target and interval of performance monitoring.
pub fn validate_monitor_target(target: &str, interval: u64) -> (r: Result<(), String>)
    ensures
        r is Ok <==> monitor_error(target@, interval) is None,
        r matches Err(m) ==> monitor_error(target@, interval) == Some(m@),
{
    if target.is_empty() {
        return Err("Target cannot be empty".to_owned());
    }
    if interval == 0 {
        return Err("Interval must be greater than 0".to_owned());
    }
    Ok(())
}

/// The complaint about the target and baseline of a validation, if any;
/// the threshold, a floating-point value, is checked after them by the
/// caller.
pub open spec fn validation_target_error(target: Seq<char>, baseline_path: Seq<char>) -> Option<
    Seq<char>,
> {
    if target.len() == 0 {
        Some("Target cannot be empty"@)
    } else if baseline_path.len() == 0 {
        Some("Baseline path cannot be empty"@)
    } else {
        None
    }
}

/// Checks the target and baseline of an optimization validation.
pub fn validate_validation_target(target: &str, baseline_path: &str) -> (r: Result<(), String>)
    ensures
        r is Ok <==> validation_target_error(target@, baseline_path@) is None,
        r matches Err(m) ==> validation_target_error(target@, baseline_path@) == Some(m@),
{
    if target.is_empty() {
        return Err("Target cannot be empty".to_owned());
    }
    if baseline_path.is_empty() {
        return Err("Baseline path cannot be empty".to_owned());
    }
    Ok(())
}

} // verus!
