//! Performance benchmark commands: argument checks, the choice of
//! benchmark, backend selection, and the analysis of memory snapshots
//! taken while a model runs.

use crate::command::{CommandContext, Config};
use crate::text::{
    chars_of, concat, concat3, concat5, decimal, decimal_string, lowercase, split_chars, split_on, str_eq, string_of, to_lowercase, trim,
    trimmed,
};
use vstd::prelude::*;
use vstd::string::StringSliceAdditionalSpecFns;

verus! {

// ---------------------------------------------------------------------------
// Memory analysis
// ---------------------------------------------------------------------------

/// Memory figures of the process, in bytes.
#[derive(Clone, Copy, Debug)]
pub struct MemoryUsage {
    pub heap_used: u64,
    pub heap_total: u64,
    /// Resident set size.
    pub rss: u64,
    /// Virtual memory size.
    pub vms: u64,
}

/// Memory figures taken at one moment of a profiling run.
#[derive(Clone, Copy, Debug)]
pub struct MemorySnapshot {
    /// Time since the run began, in nanoseconds.
    pub timestamp_nanos: u64,
    pub heap_used: u64,
    pub heap_total: u64,
    pub rss: u64,
    pub vms: u64,
    /// The inference cycle the snapshot follows; 0 before the first.
    pub inference_id: u32,
    pub model_loaded: bool,
}

/// The exact figures of a memory analysis; the ratios derived from them
/// (average growth per cycle, share of growth reclaimed) are computed by
/// the caller.
#[derive(Clone, Copy, Debug)]
pub struct MemoryTotals {
    pub baseline_rss: u64,
    /// The largest resident size seen.
    pub peak_rss: u64,
    /// The resident size of the last snapshot.
    pub final_rss: u64,
    /// Final minus baseline resident size.
    pub total_growth: i64,
    /// The resident size the loaded model added before any inference.
    pub model_load_overhead: u64,
    /// The number of snapshots taken after an inference cycle.
    pub inference_count: usize,
    pub first_inference_rss: u64,
    pub last_inference_rss: u64,
    /// The sum of the increases between consecutive inference snapshots.
    pub growth: i64,
    /// The sum of the decreases between consecutive inference snapshots.
    pub reclaim: i64,
    /// True when some step between inference snapshots increased.
    pub grew: bool,
    /// True when some step between inference snapshots decreased.
    pub reclaimed: bool,
}

/// The largest resident size in a non-empty run of snapshots.
pub open spec fn max_rss(s: Seq<MemorySnapshot>) -> u64
    decreases s.len(),
{
    if s.len() <= 1 {
        s[0].rss
    } else {
        let m = max_rss(s.drop_last());
        if s.last().rss > m {
            s.last().rss
        } else {
            m
        }
    }
}

/// True for the snapshot taken once the model is loaded and before any
/// inference.
pub open spec fn is_load_snapshot(x: MemorySnapshot) -> bool {
    x.model_loaded && x.inference_id == 0
}

/// The index of the first snapshot taken after loading, if any.
pub open spec fn load_index(s: Seq<MemorySnapshot>) -> Option<int>
    decreases s.len(),
{
    if s.len() == 0 {
        None
    } else {
        match load_index(s.drop_last()) {
            Some(i) => Some(i),
            None => if is_load_snapshot(s.last()) {
                Some(s.len() - 1)
            } else {
                None
            },
        }
    }
}

/// True for a snapshot taken after an inference cycle.
pub open spec fn after_inference() -> spec_fn(MemorySnapshot) -> bool {
    |x: MemorySnapshot| x.inference_id > 0
}

/// The snapshots taken after inference cycles, in order.
pub open spec fn inference_snapshots(s: Seq<MemorySnapshot>) -> Seq<MemorySnapshot> {
    s.filter(after_inference())
}

/// The sum of the increases of resident size between consecutive
/// snapshots.
pub open spec fn rss_growth(t: Seq<MemorySnapshot>) -> int
    decreases t.len(),
{
    if t.len() < 2 {
        0
    } else {
        let step = t.last().rss - t[t.len() - 2].rss;
        rss_growth(t.drop_last()) + if step > 0 {
            step
        } else {
            0
        }
    }
}

/// The sum of the decreases of resident size between consecutive
/// snapshots.
pub open spec fn rss_reclaim(t: Seq<MemorySnapshot>) -> int
    decreases t.len(),
{
    if t.len() < 2 {
        0
    } else {
        let step = t[t.len() - 2].rss - t.last().rss;
        rss_reclaim(t.drop_last()) + if step > 0 {
            step
        } else {
            0
        }
    }
}

/// True when some step between consecutive snapshots increases.
pub open spec fn some_increase(t: Seq<MemorySnapshot>) -> bool {
    exists|i: int| 1 <= i < t.len() && #[trigger] t[i].rss > t[i - 1].rss
}

/// True when some step between consecutive snapshots decreases.
pub open spec fn some_decrease(t: Seq<MemorySnapshot>) -> bool {
    exists|i: int| 1 <= i < t.len() && #[trigger] t[i].rss < t[i - 1].rss
}

/// The figures of the analysis of `s` against `baseline`.
pub open spec fn memory_totals(s: Seq<MemorySnapshot>, baseline: MemoryUsage) -> MemoryTotals {
    let inf = inference_snapshots(s);
    if s.len() == 0 {
        MemoryTotals {
            baseline_rss: baseline.rss,
            peak_rss: baseline.rss,
            final_rss: baseline.rss,
            total_growth: 0,
            model_load_overhead: 0,
            inference_count: 0,
            first_inference_rss: baseline.rss,
            last_inference_rss: baseline.rss,
            growth: 0,
            reclaim: 0,
            grew: false,
            reclaimed: false,
        }
    } else {
        MemoryTotals {
            baseline_rss: baseline.rss,
            peak_rss: max_rss(s),
            final_rss: s.last().rss,
            total_growth: (s.last().rss - baseline.rss) as i64,
            model_load_overhead: match load_index(s) {
                Some(i) => if s[i].rss >= baseline.rss {
                    (s[i].rss - baseline.rss) as u64
                } else {
                    0
                },
                None => 0,
            },
            inference_count: inf.len() as usize,
            first_inference_rss: if inf.len() > 0 {
                inf[0].rss
            } else {
                baseline.rss
            },
            last_inference_rss: if inf.len() > 0 {
                inf.last().rss
            } else {
                baseline.rss
            },
            growth: rss_growth(inf) as i64,
            reclaim: rss_reclaim(inf) as i64,
            grew: some_increase(inf),
            reclaimed: some_decrease(inf),
        }
    }
}

/// True when the analysis of `s` stays within the ranges of its integer
/// types, as the arithmetic of the analysis requires.
pub open spec fn analysis_in_range(s: Seq<MemorySnapshot>, baseline: MemoryUsage) -> bool {
    &&& baseline.rss <= i64::MAX
    &&& forall|i: int| 0 <= i < s.len() ==> #[trigger] s[i].rss <= i64::MAX
    &&& rss_growth(inference_snapshots(s)) <= i64::MAX
    &&& rss_reclaim(inference_snapshots(s)) <= i64::MAX
}

proof fn lemma_growth_monotone(t: Seq<MemorySnapshot>, k: int)
    requires
        0 <= k <= t.len(),
    ensures
        rss_growth(t.take(k)) <= rss_growth(t),
        rss_reclaim(t.take(k)) <= rss_reclaim(t),
        rss_growth(t) >= 0,
        rss_reclaim(t) >= 0,
    decreases t.len(),
{
    if t.len() > 0 {
        if k < t.len() {
            lemma_growth_monotone(t.drop_last(), k);
            assert(t.drop_last().take(k) == t.take(k));
        } else {
            assert(t.take(k) == t);
            lemma_growth_monotone(t.drop_last(), 0);
        }
    }
}

/// The figures gathered over the snapshots read so far.
#[derive(Clone, Copy, Debug)]
struct Running {
    peak: u64,
    load: Option<usize>,
    count: usize,
    first: u64,
    last: u64,
    growth: i64,
    reclaim: i64,
    grew: bool,
    reclaimed: bool,
}

/// The figures gathered over the snapshots `t`.
spec fn running(t: Seq<MemorySnapshot>, baseline: MemoryUsage) -> Running {
    let f = inference_snapshots(t);
    Running {
        peak: if t.len() > 0 {
            max_rss(t)
        } else {
            0
        },
        load: match load_index(t) {
            Some(i) => Some(i as usize),
            None => None,
        },
        count: f.len() as usize,
        first: if f.len() > 0 {
            f[0].rss
        } else {
            baseline.rss
        },
        last: if f.len() > 0 {
            f.last().rss
        } else {
            baseline.rss
        },
        growth: rss_growth(f) as i64,
        reclaim: rss_reclaim(f) as i64,
        grew: some_increase(f),
        reclaimed: some_decrease(f),
    }
}

/// Takes one more snapshot into the running figures.
#[verifier::spinoff_prover]
fn take_snapshot(st: Running, x: MemorySnapshot, baseline: MemoryUsage, k: usize, Ghost(t): Ghost<
    Seq<MemorySnapshot>,
>) -> (r: Running)
    requires
        st == running(t, baseline),
        k == t.len(),
        t.len() < usize::MAX,
        x.rss <= i64::MAX,
        forall|i: int| 0 <= i < t.len() ==> #[trigger] t[i].rss <= i64::MAX,
        rss_growth(inference_snapshots(t.push(x))) <= i64::MAX,
        rss_reclaim(inference_snapshots(t.push(x))) <= i64::MAX,
    ensures
        r == running(t.push(x), baseline),
{
    let ghost u = t.push(x);
    let ghost f = inference_snapshots(t);
    proof {
        assert(u.drop_last() == t);
        t.lemma_filter_push(x, after_inference());
        t.lemma_filter_len(after_inference());
    }
    let mut r = st;
    if k == 0 || x.rss > st.peak {
        r.peak = x.rss;
    }
    if st.load.is_none() && x.model_loaded && x.inference_id == 0 {
        r.load = Some(k);
    }
    if x.inference_id > 0 {
        let ghost g = f.push(x);
        proof {
            assert(g.drop_last() == f);
            assert(inference_snapshots(u) == g);
            lemma_some_step_push(f, x);
            lemma_growth_monotone(f, 0);
            if f.len() > 0 {
                assert(g[g.len() - 2] == f.last());
                assert(f.last().rss <= i64::MAX) by {
                    lemma_filter_elements(t, f.len() - 1);
                }
            } else {
                assert(g.len() == 1);
            }
        }
        if st.count > 0 {
            if x.rss > st.last {
                r.growth = st.growth + ((x.rss - st.last) as i64);
                r.grew = true;
            } else if x.rss < st.last {
                r.reclaim = st.reclaim + ((st.last - x.rss) as i64);
                r.reclaimed = true;
            }
        } else {
            r.first = x.rss;
        }
        r.last = x.rss;
        r.count = st.count + 1;
    }
    r
}

/// Every element of the inference snapshots is one of the snapshots.
proof fn lemma_filter_elements(t: Seq<MemorySnapshot>, j: int)
    requires
        0 <= j < inference_snapshots(t).len(),
    ensures
        t.contains(inference_snapshots(t)[j]),
{
    t.lemma_filter_contains_rev(after_inference(), inference_snapshots(t)[j]);
    assert(inference_snapshots(t).contains(inference_snapshots(t)[j]));
}

/// Analyses the memory snapshots of a profiling run against the memory in
/// use before it began.
pub fn analyze_memory_patterns(snapshots: &[MemorySnapshot], baseline: MemoryUsage) -> (r:
    MemoryTotals)
    requires
        analysis_in_range(snapshots@, baseline),
    ensures
        r == memory_totals(snapshots@, baseline),
{
    let ghost s = snapshots@;
    if snapshots.len() == 0 {
        return MemoryTotals {
            baseline_rss: baseline.rss,
            peak_rss: baseline.rss,
            final_rss: baseline.rss,
            total_growth: 0,
            model_load_overhead: 0,
            inference_count: 0,
            first_inference_rss: baseline.rss,
            last_inference_rss: baseline.rss,
            growth: 0,
            reclaim: 0,
            grew: false,
            reclaimed: false,
        };
    }
    let mut st = Running {
        peak: 0,
        load: None,
        count: 0,
        first: baseline.rss,
        last: baseline.rss,
        growth: 0,
        reclaim: 0,
        grew: false,
        reclaimed: false,
    };
    proof {
        reveal(Seq::filter);
        assert(s.take(0) =~= Seq::<MemorySnapshot>::empty());
        assert(inference_snapshots(s.take(0)) =~= Seq::<MemorySnapshot>::empty());
        assert(!some_increase(Seq::<MemorySnapshot>::empty()));
        assert(!some_decrease(Seq::<MemorySnapshot>::empty()));
    }
    let mut k: usize = 0;
    while k < snapshots.len()
        invariant
            s == snapshots@,
            analysis_in_range(s, baseline),
            0 <= k <= s.len(),
            st == running(s.take(k as int), baseline),
        decreases s.len() - k,
    {
        let x = snapshots[k];
        proof {
            assert(s.take(k + 1) == s.take(k as int).push(x));
            lemma_filter_prefix_growth(s, k + 1);
        }
        st = take_snapshot(st, x, baseline, k, Ghost(s.take(k as int)));
        k = k + 1;
    }
    proof {
        assert(s.take(s.len() as int) == s);
    }
    let last = snapshots[snapshots.len() - 1].rss;
    let total_growth = (last as i64) - (baseline.rss as i64);
    let overhead = match st.load {
        Some(i) => {
            proof {
                lemma_load_index_bound(s);
            }
            snapshots[i].rss.saturating_sub(baseline.rss)
        },
        None => 0,
    };
    MemoryTotals {
        baseline_rss: baseline.rss,
        peak_rss: st.peak,
        final_rss: last,
        total_growth,
        model_load_overhead: overhead,
        inference_count: st.count,
        first_inference_rss: st.first,
        last_inference_rss: st.last,
        growth: st.growth,
        reclaim: st.reclaim,
        grew: st.grew,
        reclaimed: st.reclaimed,
    }
}

/// Whether the analysis of these snapshots stays within the ranges of its
/// integer types, so that `analyze_memory_patterns` can be asked for it.
pub fn analysis_fits(snapshots: &[MemorySnapshot], baseline: MemoryUsage) -> (r: bool)
    ensures
        r == analysis_in_range(snapshots@, baseline),
{
    let max: u64 = 9223372036854775807;
    let ghost s = snapshots@;
    if baseline.rss > max {
        return false;
    }
    let mut k: usize = 0;
    let mut have = false;
    let mut last: u64 = 0;
    let mut g: u64 = 0;
    let mut rc: u64 = 0;
    proof {
        reveal(Seq::filter);
        assert(s.take(0) =~= Seq::<MemorySnapshot>::empty());
        assert(inference_snapshots(s.take(0)) =~= Seq::<MemorySnapshot>::empty());
    }
    while k < snapshots.len()
        invariant
            s == snapshots@,
            k <= s.len(),
            max == i64::MAX,
            baseline.rss <= i64::MAX,
            forall|i: int| 0 <= i < k ==> #[trigger] s[i].rss <= i64::MAX,
            have == (inference_snapshots(s.take(k as int)).len() > 0),
            have ==> last == inference_snapshots(s.take(k as int)).last().rss,
            g == rss_growth(inference_snapshots(s.take(k as int))),
            rc == rss_reclaim(inference_snapshots(s.take(k as int))),
            g <= i64::MAX,
            rc <= i64::MAX,
        decreases s.len() - k,
    {
        let x = snapshots[k];
        let ghost t = s.take(k as int);
        let ghost f = inference_snapshots(t);
        proof {
            assert(s.take(k + 1) == t.push(x));
            t.lemma_filter_push(x, after_inference());
            lemma_filter_prefix_growth(s, k + 1);
        }
        if x.rss > max {
            return false;
        }
        if x.inference_id > 0 {
            proof {
                assert(f.push(x).drop_last() == f);
                if f.len() > 0 {
                    assert(f.push(x)[f.len() - 1] == f.last());
                }
            }
            if have {
                if x.rss > last {
                    let d = x.rss - last;
                    if d > max - g {
                        return false;
                    }
                    g = g + d;
                } else if x.rss < last {
                    let d = last - x.rss;
                    if d > max - rc {
                        return false;
                    }
                    rc = rc + d;
                }
            }
            have = true;
            last = x.rss;
        }
        k = k + 1;
    }
    proof {
        assert(s.take(s.len() as int) == s);
    }
    true
}

proof fn lemma_load_index_bound(s: Seq<MemorySnapshot>)
    ensures
        load_index(s) matches Some(i) ==> 0 <= i < s.len() && is_load_snapshot(s[i]),
    decreases s.len(),
{
    if s.len() > 0 {
        lemma_load_index_bound(s.drop_last());
    }
}

/// The growth and reclaim of the inference snapshots among a prefix of
/// the snapshots are bounded by those among all of them.
proof fn lemma_filter_prefix_growth(s: Seq<MemorySnapshot>, k: int)
    requires
        0 <= k <= s.len(),
    ensures
        rss_growth(inference_snapshots(s.take(k))) <= rss_growth(inference_snapshots(s)),
        rss_reclaim(inference_snapshots(s.take(k))) <= rss_reclaim(inference_snapshots(s)),
    decreases s.len() - k,
{
    if k < s.len() {
        lemma_filter_prefix_growth(s, k + 1);
        let t = s.take(k);
        assert(s.take(k + 1) == t.push(s[k]));
        t.lemma_filter_push(s[k], after_inference());
        if s[k].inference_id > 0 {
            let f = inference_snapshots(t);
            lemma_growth_monotone(f.push(s[k]), f.len() as int);
            assert(f.push(s[k]).take(f.len() as int) == f);
        }
    } else {
        assert(s.take(k) == s);
    }
}

/// Whether some step increases (or decreases) after one more snapshot.
proof fn lemma_some_step_push(t: Seq<MemorySnapshot>, x: MemorySnapshot)
    ensures
        some_increase(t.push(x)) == (some_increase(t) || (t.len() > 0 && x.rss > t.last().rss)),
        some_decrease(t.push(x)) == (some_decrease(t) || (t.len() > 0 && x.rss < t.last().rss)),
{
    let u = t.push(x);
    if some_increase(u) {
        let i = choose|i: int| 1 <= i < u.len() && #[trigger] u[i].rss > u[i - 1].rss;
        if i < t.len() {
            assert(t[i].rss > t[i - 1].rss);
        }
    }
    if some_increase(t) {
        let i = choose|i: int| 1 <= i < t.len() && #[trigger] t[i].rss > t[i - 1].rss;
        assert(u[i].rss > u[i - 1].rss);
    }
    if t.len() > 0 && x.rss > t.last().rss {
        assert(u[t.len() as int].rss > u[t.len() - 1].rss);
    }
    if some_decrease(u) {
        let i = choose|i: int| 1 <= i < u.len() && #[trigger] u[i].rss < u[i - 1].rss;
        if i < t.len() {
            assert(t[i].rss < t[i - 1].rss);
        }
    }
    if some_decrease(t) {
        let i = choose|i: int| 1 <= i < t.len() && #[trigger] t[i].rss < t[i - 1].rss;
        assert(u[i].rss < u[i - 1].rss);
    }
    if t.len() > 0 && x.rss < t.last().rss {
        assert(u[t.len() as int].rss < u[t.len() - 1].rss);
    }
}


// ---------------------------------------------------------------------------
// Choosing what to run
// ---------------------------------------------------------------------------

/// The benchmarks that `benchmark` can run.
#[derive(Clone, Copy, Debug, PartialEq, Eq, Structural)]
pub enum BenchmarkKind {
    Inference,
    Memory,
    Concurrent,
    Cache,
    /// Inference, memory and concurrency in turn.
    All,
}

/// The benchmark a type name selects.
pub open spec fn benchmark_kind_named(name: Seq<char>) -> Option<BenchmarkKind> {
    if name == "inference"@ {
        Some(BenchmarkKind::Inference)
    } else if name == "memory"@ {
        Some(BenchmarkKind::Memory)
    } else if name == "concurrent"@ {
        Some(BenchmarkKind::Concurrent)
    } else if name == "cache"@ {
        Some(BenchmarkKind::Cache)
    } else if name == "all"@ {
        Some(BenchmarkKind::All)
    } else {
        None
    }
}

/// Selects the benchmark to run; an unknown type is an error.
pub fn benchmark_kind(bench_type: &str) -> (r: Result<BenchmarkKind, String>)
    ensures
        r matches Ok(k) ==> benchmark_kind_named(bench_type@) == Some(k),
        r is Err <==> benchmark_kind_named(bench_type@) is None,
        r matches Err(m) ==> m@ == "Unknown benchmark type: "@ + bench_type@,
{
    if str_eq(bench_type, "inference") {
        Ok(BenchmarkKind::Inference)
    } else if str_eq(bench_type, "memory") {
        Ok(BenchmarkKind::Memory)
    } else if str_eq(bench_type, "concurrent") {
        Ok(BenchmarkKind::Concurrent)
    } else if str_eq(bench_type, "cache") {
        Ok(BenchmarkKind::Cache)
    } else if str_eq(bench_type, "all") {
        Ok(BenchmarkKind::All)
    } else {
        Err(concat("Unknown benchmark type: ", bench_type))
    }
}

/// The inference backends a baseline can measure.
#[derive(Clone, Copy, Debug, PartialEq, Eq, Structural)]
pub enum BackendType {
    Gguf,
    Onnx,
}

/// The backend a list entry names, ignoring case and surrounding white
/// space.
pub open spec fn backend_named(entry: Seq<char>) -> Option<BackendType> {
    let n = lowercase(trim(entry));
    if n == "gguf"@ {
        Some(BackendType::Gguf)
    } else if n == "onnx"@ {
        Some(BackendType::Onnx)
    } else {
        None
    }
}

/// The backends named by a list of entries, in order; unknown entries are
/// skipped.
pub open spec fn backends_named(entries: Seq<Seq<char>>) -> Seq<BackendType>
    decreases entries.len(),
{
    if entries.len() == 0 {
        Seq::empty()
    } else {
        let rest = backends_named(entries.drop_last());
        match backend_named(entries.last()) {
            Some(b) => rest.push(b),
            None => rest,
        }
    }
}

/// Reads a comma-separated list of backends. A list that names no known
/// backend is an error.
pub fn parse_backend_types(list: &str) -> (r: Result<Vec<BackendType>, String>)
    ensures
        r matches Ok(v) ==> v@ == backends_named(split_on(list@, ',')) && v@.len() > 0,
        r is Err <==> backends_named(split_on(list@, ',')).len() == 0,
        r matches Err(m) ==> m@ == "No valid backend types specified"@,
{
    let chars = chars_of(list);
    let pieces = split_chars(chars.as_slice(), ',');
    let ghost entries = split_on(list@, ',');
    let mut out: Vec<BackendType> = Vec::new();
    let mut i: usize = 0;
    while i < pieces.len()
        invariant
            pieces@.len() == entries.len(),
            forall|j: int| 0 <= j < pieces@.len() ==> #[trigger] pieces@[j]@ == entries[j],
            i <= pieces@.len(),
            out@ == backends_named(entries.take(i as int)),
        decreases pieces.len() - i,
    {
        let t = trimmed(pieces[i].as_slice());
        let ts = string_of(t.as_slice());
        let lower = to_lowercase(ts.as_str());
        proof {
            assert(entries.take(i + 1).drop_last() == entries.take(i as int));
            assert(entries.take(i + 1).last() == entries[i as int]);
        }
        if str_eq(lower.as_str(), "gguf") {
            out.push(BackendType::Gguf);
        } else if str_eq(lower.as_str(), "onnx") {
            out.push(BackendType::Onnx);
        }
        i = i + 1;
    }
    proof {
        assert(entries.take(entries.len() as int) == entries);
    }
    if out.len() == 0 {
        return Err("No valid backend types specified".to_owned());
    }
    Ok(out)
}

/// The time a simulated inference request takes: ten milliseconds per
/// byte of input, and at least fifty.
pub fn simulated_processing_ms(input: &str) -> (r: u64)
    requires
        input.spec_bytes().len() * 10 <= u64::MAX,
    ensures
        r == (if input.spec_bytes().len() * 10 >= 50 {
            input.spec_bytes().len() * 10
        } else {
            50
        }),
{
    let n = input.as_bytes().len() as u64;
    let t = n * 10;
    if t >= 50 {
        t
    } else {
        50
    }
}

// ---------------------------------------------------------------------------
// Commands
// ---------------------------------------------------------------------------

/// The benchmark types that `run` accepts.
pub open spec fn is_run_type(t: Seq<char>) -> bool {
    t == "cpu"@ || t == "memory"@ || t == "throughput"@ || t == "latency"@ || t == "all"@
}

/// Run performance benchmarks.
pub struct BenchmarkRun {
    pub config: Config,
    pub benchmark_type: String,
    pub iterations: u32,
    pub warmup: bool,
}

impl BenchmarkRun {
    /// The name the command is known by.
    pub fn name(&self) -> (r: &'static str)
        ensures
            r@ == "benchmark run"@,
    {
        "benchmark run"
    }

    /// What the command does, in one line.
    pub fn description(&self) -> (r: &'static str)
        ensures
            r@ == "Run performance benchmarks"@,
    {
        "Run performance benchmarks"
    }

    pub fn new(config: Config, benchmark_type: String, iterations: u32, warmup: bool) -> (r: Self)
        ensures
            r.config == config,
            r.benchmark_type == benchmark_type,
            r.iterations == iterations,
            r.warmup == warmup,
    {
        BenchmarkRun { config, benchmark_type, iterations, warmup }
    }

    /// The message of the first check that the arguments fail, if any.
    pub open spec fn validation_error(&self) -> Option<Seq<char>> {
        if !is_run_type(self.benchmark_type@) {
            Some("Benchmark type must be one of: cpu, memory, throughput, latency, all"@)
        } else if self.iterations == 0 {
            Some("Iterations must be greater than 0"@)
        } else {
            None
        }
    }

    pub fn validate(&self, ctx: &CommandContext) -> (r: Result<(), String>)
        ensures
            r is Ok <==> self.validation_error() is None,
            r matches Err(m) ==> self.validation_error() == Some(m@),
    {
        let t = self.benchmark_type.as_str();
        if !(str_eq(t, "cpu") || str_eq(t, "memory") || str_eq(t, "throughput") || str_eq(
            t,
            "latency",
        ) || str_eq(t, "all")) {
            return Err(
                "Benchmark type must be one of: cpu, memory, throughput, latency, all".to_owned(),
            );
        }
        if self.iterations == 0 {
            return Err("Iterations must be greater than 0".to_owned());
        }
        Ok(())
    }
}

/// Establish a performance baseline.
pub struct BenchmarkBaseline {
    pub config: Config,
    pub output_path: String,
    pub backends: Vec<String>,
    pub duration: u64,
}

impl BenchmarkBaseline {
    /// The name the command is known by.
    pub fn name(&self) -> (r: &'static str)
        ensures
            r@ == "benchmark baseline"@,
    {
        "benchmark baseline"
    }

    /// What the command does, in one line.
    pub fn description(&self) -> (r: &'static str)
        ensures
            r@ == "Establish performance baseline"@,
    {
        "Establish performance baseline"
    }

    pub fn new(config: Config, output_path: String, backends: Vec<String>, duration: u64) -> (r:
        Self)
        ensures
            r.config == config,
            r.output_path == output_path,
            r.backends@ == backends@,
            r.duration == duration,
    {
        BenchmarkBaseline { config, output_path, backends, duration }
    }

    /// The message of the first check that the arguments fail, if any.
    pub open spec fn validation_error(&self) -> Option<Seq<char>> {
        if self.output_path@.len() == 0 {
            Some("Output path cannot be empty"@)
        } else if self.backends@.len() == 0 {
            Some("At least one backend is required"@)
        } else if self.duration == 0 {
            Some("Duration must be greater than 0"@)
        } else {
            None
        }
    }

    pub fn validate(&self, ctx: &CommandContext) -> (r: Result<(), String>)
        ensures
            r is Ok <==> self.validation_error() is None,
            r matches Err(m) ==> self.validation_error() == Some(m@),
    {
        if self.output_path.as_str().is_empty() {
            return Err("Output path cannot be empty".to_owned());
        }
        if self.backends.len() == 0 {
            return Err("At least one backend is required".to_owned());
        }
        if self.duration == 0 {
            return Err("Duration must be greater than 0".to_owned());
        }
        Ok(())
    }
}

/// The report formats that `report` accepts.
pub open spec fn is_benchmark_report_format(f: Seq<char>) -> bool {
    f == "html"@ || f == "json"@ || f == "markdown"@ || f == "csv"@
}

/// Generate a report of benchmark results.
pub struct BenchmarkReport {
    pub config: Config,
    pub results_path: String,
    pub format: String,
    pub output_path: Option<String>,
}

impl BenchmarkReport {
    /// The name the command is known by.
    pub fn name(&self) -> (r: &'static str)
        ensures
            r@ == "benchmark report"@,
    {
        "benchmark report"
    }

    /// What the command does, in one line.
    pub fn description(&self) -> (r: &'static str)
        ensures
            r@ == "Generate benchmark report"@,
    {
        "Generate benchmark report"
    }

    pub fn new(config: Config, results_path: String, format: String, output_path: Option<String>) -> (r:
        Self)
        ensures
            r.config == config,
            r.results_path == results_path,
            r.format == format,
            r.output_path == output_path,
    {
        BenchmarkReport { config, results_path, format, output_path }
    }

    /// The message of the first check that the arguments fail, if any.
    pub open spec fn validation_error(&self) -> Option<Seq<char>> {
        if self.results_path@.len() == 0 {
            Some("Results path cannot be empty"@)
        } else if !is_benchmark_report_format(self.format@) {
            Some("Format must be one of: html, json, markdown, csv"@)
        } else {
            None
        }
    }

    pub fn validate(&self, ctx: &CommandContext) -> (r: Result<(), String>)
        ensures
            r is Ok <==> self.validation_error() is None,
            r matches Err(m) ==> self.validation_error() == Some(m@),
    {
        if self.results_path.as_str().is_empty() {
            return Err("Results path cannot be empty".to_owned());
        }
        let f = self.format.as_str();
        if !(str_eq(f, "html") || str_eq(f, "json") || str_eq(f, "markdown") || str_eq(f, "csv")) {
            return Err("Format must be one of: html, json, markdown, csv".to_owned());
        }
        Ok(())
    }

    /// Where the report is written: the given path, or a file named after
    /// the format under `reports/`.
    pub fn report_path(&self) -> (r: String)
        ensures
            self.output_path matches Some(p) ==> r@ == p@,
            self.output_path is None ==> r@ == "reports/benchmark-report."@ + self.format@,
    {
        match &self.output_path {
            Some(p) => p.clone(),
            None => concat("reports/benchmark-report.", self.format.as_str()),
        }
    }
}

/// Profile the performance of a target.
pub struct BenchmarkProfile {
    pub config: Config,
    pub target: String,
    pub duration: u64,
    pub detailed: bool,
}

impl BenchmarkProfile {
    /// The name the command is known by.
    pub fn name(&self) -> (r: &'static str)
        ensures
            r@ == "benchmark profile"@,
    {
        "benchmark profile"
    }

    /// What the command does, in one line.
    pub fn description(&self) -> (r: &'static str)
        ensures
            r@ == "Profile performance metrics"@,
    {
        "Profile performance metrics"
    }

    pub fn new(config: Config, target: String, duration: u64, detailed: bool) -> (r: Self)
        ensures
            r.config == config,
            r.target == target,
            r.duration == duration,
            r.detailed == detailed,
    {
        BenchmarkProfile { config, target, duration, detailed }
    }

    /// The message of the first check that the arguments fail, if any.
    pub open spec fn validation_error(&self) -> Option<Seq<char>> {
        if self.target@.len() == 0 {
            Some("Target cannot be empty"@)
        } else if self.duration == 0 {
            Some("Duration must be greater than 0"@)
        } else {
            None
        }
    }

    pub fn validate(&self, ctx: &CommandContext) -> (r: Result<(), String>)
        ensures
            r is Ok <==> self.validation_error() is None,
            r matches Err(m) ==> self.validation_error() == Some(m@),
    {
        if self.target.as_str().is_empty() {
            return Err("Target cannot be empty".to_owned());
        }
        if self.duration == 0 {
            return Err("Duration must be greater than 0".to_owned());
        }
        Ok(())
    }
}


// ---------------------------------------------------------------------------
// Laws of the memory analysis
// ---------------------------------------------------------------------------

/// The increases minus the decreases between consecutive snapshots add up
/// to the change from the first snapshot to the last.
pub proof fn lemma_growth_minus_reclaim(t: Seq<MemorySnapshot>)
    requires
        t.len() >= 1,
    ensures
        rss_growth(t) - rss_reclaim(t) == t.last().rss - t[0].rss,
    decreases t.len(),
{
    if t.len() >= 2 {
        lemma_growth_minus_reclaim(t.drop_last());
        assert(t.drop_last()[0] == t[0]);
        assert(t.drop_last().last() == t[t.len() - 2]);
    }
}

/// The peak is at least every resident size seen, and is one of them.
pub proof fn lemma_peak_is_maximum(s: Seq<MemorySnapshot>)
    requires
        s.len() >= 1,
    ensures
        forall|i: int| 0 <= i < s.len() ==> #[trigger] s[i].rss <= max_rss(s),
        exists|i: int| 0 <= i < s.len() && #[trigger] s[i].rss == max_rss(s),
    decreases s.len(),
{
    if s.len() >= 2 {
        let init = s.drop_last();
        lemma_peak_is_maximum(init);
        assert forall|i: int| 0 <= i < s.len() implies #[trigger] s[i].rss <= max_rss(s) by {
            if i < init.len() {
                assert(init[i] == s[i]);
            }
        }
        if s.last().rss > max_rss(init) {
            assert(s[s.len() - 1].rss == max_rss(s));
        } else {
            let j = choose|j: int| 0 <= j < init.len() && #[trigger] init[j].rss == max_rss(init);
            assert(s[j] == init[j]);
        }
    } else {
        assert(s[0].rss == max_rss(s));
    }
}

/// In an analysis with at least one inference snapshot, the growth minus
/// the reclaim is the change from the first inference snapshot to the
/// last, and the peak bounds the final size.
pub proof fn lemma_totals_consistent(s: Seq<MemorySnapshot>, baseline: MemoryUsage)
    requires
        analysis_in_range(s, baseline),
        s.len() >= 1,
    ensures
        memory_totals(s, baseline).inference_count >= 1 ==> memory_totals(s, baseline).growth
            - memory_totals(s, baseline).reclaim == memory_totals(s, baseline).last_inference_rss
            - memory_totals(s, baseline).first_inference_rss,
        memory_totals(s, baseline).final_rss <= memory_totals(s, baseline).peak_rss,
{
    let f = inference_snapshots(s);
    lemma_peak_is_maximum(s);
    assert(s[s.len() - 1].rss <= max_rss(s));
    lemma_growth_monotone(f, 0);
    if f.len() >= 1 {
        lemma_growth_minus_reclaim(f);
    }
}


/// The complaint about the files of a comparison, if any; the threshold, a
/// floating-point value, is checked after them by the caller.
pub open spec fn compare_paths_error(baseline: Seq<char>, current: Seq<char>) -> Option<Seq<char>> {
    if baseline.len() == 0 {
        Some("Baseline path cannot be empty"@)
    } else if current.len() == 0 {
        Some("Current path cannot be empty"@)
    } else {
        None
    }
}

/// Checks the files of a benchmark comparison.
pub fn validate_compare_paths(baseline: &str, current: &str) -> (r: Result<(), String>)
    ensures
        r is Ok <==> compare_paths_error(baseline@, current@) is None,
        r matches Err(m) ==> compare_paths_error(baseline@, current@) == Some(m@),
{
    if baseline.is_empty() {
        return Err("Baseline path cannot be empty".to_owned());
    }
    if current.is_empty() {
        return Err("Current path cannot be empty".to_owned());
    }
    Ok(())
}


// ---------------------------------------------------------------------------
// Stress tests and profiling runs
// ---------------------------------------------------------------------------

/// What one client of a stress test reports when it finishes.
#[derive(Clone, Copy, Debug)]
pub struct ClientOutcome {
    pub client_id: u32,
    pub requests: u64,
    pub successes: u64,
    pub failures: u64,
}

/// How a client task of a stress test ended: with its counts, or with the
/// message of the task's failure.
pub enum ClientResult {
    Finished(ClientOutcome),
    Crashed(String),
}

/// The counts of a stress test over all its clients, and one error line
/// per client that failed requests or did not finish.
pub struct StressTotals {
    pub total_requests: u64,
    pub successful_requests: u64,
    pub failed_requests: u64,
    pub errors: Vec<String>,
}

/// The sum of one count over the finished clients.
pub open spec fn client_sum(rs: Seq<ClientResult>, which: int) -> int
    decreases rs.len(),
{
    if rs.len() == 0 {
        0
    } else {
        client_sum(rs.drop_last(), which) + match rs.last() {
            ClientResult::Finished(o) => if which == 0 {
                o.requests as int
            } else if which == 1 {
                o.successes as int
            } else {
                o.failures as int
            },
            ClientResult::Crashed(_) => 0,
        }
    }
}

/// The error lines of a stress test, in client order.
pub open spec fn client_errors(rs: Seq<ClientResult>) -> Seq<Seq<char>>
    decreases rs.len(),
{
    if rs.len() == 0 {
        Seq::empty()
    } else {
        let rest = client_errors(rs.drop_last());
        match rs.last() {
            ClientResult::Finished(o) => if o.failures > 0 {
                rest.push(
                    "Client "@ + decimal(o.client_id as nat) + ": "@ + decimal(o.failures as nat)
                        + " failures out of "@ + decimal(o.requests as nat) + " requests"@,
                )
            } else {
                rest
            },
            ClientResult::Crashed(m) => rest.push("Client task failed: "@ + m@),
        }
    }
}

/// Adds up the reports of the clients of a stress test.
pub fn tally_clients(results: &Vec<ClientResult>) -> (r: StressTotals)
    requires
        client_sum(results@, 0) <= u64::MAX,
        client_sum(results@, 1) <= u64::MAX,
        client_sum(results@, 2) <= u64::MAX,
    ensures
        r.total_requests == client_sum(results@, 0),
        r.successful_requests == client_sum(results@, 1),
        r.failed_requests == client_sum(results@, 2),
        r.errors@.len() == client_errors(results@).len(),
        forall|i: int| 0 <= i < r.errors@.len() ==> #[trigger] r.errors@[i]@ == client_errors(results@)[i],
{
    let mut total: u64 = 0;
    let mut ok: u64 = 0;
    let mut failed: u64 = 0;
    let mut errors: Vec<String> = Vec::new();
    let mut i: usize = 0;
    proof {
        lemma_client_sums_monotone(results@, 0);
    }
    while i < results.len()
        invariant
            i <= results@.len(),
            client_sum(results@, 0) <= u64::MAX,
            client_sum(results@, 1) <= u64::MAX,
            client_sum(results@, 2) <= u64::MAX,
            total == client_sum(results@.take(i as int), 0),
            ok == client_sum(results@.take(i as int), 1),
            failed == client_sum(results@.take(i as int), 2),
            errors@.len() == client_errors(results@.take(i as int)).len(),
            forall|j: int| 0 <= j < errors@.len() ==> #[trigger] errors@[j]@ == client_errors(
                results@.take(i as int),
            )[j],
        decreases results.len() - i,
    {
        proof {
            assert(results@.take(i + 1).drop_last() == results@.take(i as int));
            assert(results@.take(i + 1).last() == results@[i as int]);
            lemma_client_sums_monotone(results@, i + 1);
        }
        match &results[i] {
            ClientResult::Finished(o) => {
                total = total + o.requests;
                ok = ok + o.successes;
                failed = failed + o.failures;
                if o.failures > 0 {
                    let id = decimal_string(o.client_id as u64);
                    let f = decimal_string(o.failures);
                    let n = decimal_string(o.requests);
                    let head = concat5("Client ", id.as_str(), ": ", f.as_str(), " failures out of ");
                    errors.push(concat3(head.as_str(), n.as_str(), " requests"));
                }
            },
            ClientResult::Crashed(m) => {
                errors.push(concat("Client task failed: ", m.as_str()));
            },
        }
        i = i + 1;
    }
    proof {
        assert(results@.take(results@.len() as int) == results@);
    }
    StressTotals { total_requests: total, successful_requests: ok, failed_requests: failed, errors }
}

/// The sums over a prefix are at most the sums over all.
proof fn lemma_client_sums_monotone(rs: Seq<ClientResult>, k: int)
    requires
        0 <= k <= rs.len(),
    ensures
        0 <= client_sum(rs.take(k), 0) <= client_sum(rs, 0),
        0 <= client_sum(rs.take(k), 1) <= client_sum(rs, 1),
        0 <= client_sum(rs.take(k), 2) <= client_sum(rs, 2),
    decreases rs.len(),
{
    if rs.len() > 0 {
        if k < rs.len() {
            lemma_client_sums_monotone(rs.drop_last(), k);
            assert(rs.drop_last().take(k) == rs.take(k));
        } else {
            assert(rs.take(k) == rs);
            lemma_client_sums_monotone(rs.drop_last(), 0);
        }
    } else {
        assert(rs.take(k) == rs);
    }
}

/// The input a stress-test client sends as its `request`-th request.
pub fn stress_input(client_id: u32, request: u64) -> (r: String)
    ensures
        r@ == "Stress test input from client "@ + decimal(client_id as nat) + " request "@ + decimal(
            request as nat,
        ),
{
    let c = decimal_string(client_id as u64);
    let n = decimal_string(request);
    let head = concat3("Stress test input from client ", c.as_str(), " request ");
    concat(head.as_str(), n.as_str())
}

/// A snapshot of the memory figures taken during a profiling run.
pub fn snapshot_of(usage: MemoryUsage, timestamp_nanos: u64, inference_id: u32, model_loaded: bool) -> (r:
    MemorySnapshot)
    ensures
        r.timestamp_nanos == timestamp_nanos,
        r.heap_used == usage.heap_used,
        r.heap_total == usage.heap_total,
        r.rss == usage.rss,
        r.vms == usage.vms,
        r.inference_id == inference_id,
        r.model_loaded == model_loaded,
{
    MemorySnapshot {
        timestamp_nanos,
        heap_used: usage.heap_used,
        heap_total: usage.heap_total,
        rss: usage.rss,
        vms: usage.vms,
        inference_id,
        model_loaded,
    }
}

/// The growth of one profiling cycle that is suspected of leaking: more
/// than ten megabytes after the first cycle.
pub const LEAK_SUSPICION_BYTES: u64 = 10485760;

/// How much resident memory one inference cycle added, and whether that
/// suggests a leak.
pub fn cycle_growth(cycle: u32, pre_rss: u64, post_rss: u64) -> (r: (u64, bool))
    ensures
        r.0 == (if post_rss >= pre_rss {
            post_rss - pre_rss
        } else {
            0
        }),
        r.1 == (cycle > 1 && r.0 > LEAK_SUSPICION_BYTES),
{
    let delta = post_rss.saturating_sub(pre_rss);
    (delta, cycle > 1 && delta > LEAK_SUSPICION_BYTES)
}


/// Bytes in a mebibyte, the unit the memory benchmark reports in.
pub const MIB: u64 = 1048576;

/// A change in bytes as whole mebibytes, rounded toward zero.
pub open spec fn delta_mib(from: int, to: int) -> int {
    if to >= from {
        (to - from) / (MIB as int)
    } else {
        -((from - to) / (MIB as int))
    }
}

/// One load-and-unload cycle of the memory benchmark, in whole mebibytes.
#[derive(Clone, Copy, Debug, PartialEq, Eq, Structural)]
pub struct CycleSample {
    pub model_size_mb: u64,
    pub cycle: u32,
    pub start_memory_mb: u64,
    pub loaded_memory_mb: u64,
    pub end_memory_mb: u64,
    /// How much loading the model added, rounded toward zero; negative
    /// when the memory in use fell.
    pub memory_delta_mb: i64,
}

/// The record of one cycle from the memory in use (in bytes) when it
/// started, once the model was loaded, and after it was unloaded.
pub fn cycle_sample(model_size_mb: u64, cycle: u32, start: u64, loaded: u64, end: u64) -> (r:
    CycleSample)
    ensures
        r.model_size_mb == model_size_mb,
        r.cycle == cycle,
        r.start_memory_mb == start / MIB,
        r.loaded_memory_mb == loaded / MIB,
        r.end_memory_mb == end / MIB,
        r.memory_delta_mb == delta_mib(start as int, loaded as int),
{
    let delta: i64 = if loaded >= start {
        ((loaded - start) / MIB) as i64
    } else {
        -(((start - loaded) / MIB) as i64)
    };
    CycleSample {
        model_size_mb,
        cycle,
        start_memory_mb: start / MIB,
        loaded_memory_mb: loaded / MIB,
        end_memory_mb: end / MIB,
        memory_delta_mb: delta,
    }
}

/// The highest of `initial` and every reading in `readings`.
pub open spec fn peak_reading(initial: u64, readings: Seq<u64>) -> u64
    decreases readings.len(),
{
    if readings.len() == 0 {
        initial
    } else {
        let p = peak_reading(initial, readings.drop_last());
        if readings.last() > p {
            readings.last()
        } else {
            p
        }
    }
}

/// The summary of a memory benchmark, in whole mebibytes.
#[derive(Clone, Copy, Debug, PartialEq, Eq, Structural)]
pub struct MemoryBenchmarkTotals {
    pub initial_memory_mb: u64,
    pub peak_memory_mb: u64,
    pub total_peak_delta_mb: u64,
}

/// Summarises a memory benchmark from the memory in use before it began and
/// every reading taken while models were loaded and running.
pub fn memory_benchmark_totals(initial: u64, readings: &Vec<u64>) -> (r: MemoryBenchmarkTotals)
    ensures
        r.initial_memory_mb == initial / MIB,
        r.peak_memory_mb == peak_reading(initial, readings@) / MIB,
        r.total_peak_delta_mb == (peak_reading(initial, readings@) - initial) / (MIB as int),
{
    let mut peak = initial;
    let mut i: usize = 0;
    while i < readings.len()
        invariant
            i <= readings@.len(),
            peak == peak_reading(initial, readings@.take(i as int)),
            peak >= initial,
        decreases readings.len() - i,
    {
        proof {
            assert(readings@.take(i as int + 1).drop_last() =~= readings@.take(i as int));
        }
        if readings[i] > peak {
            peak = readings[i];
        }
        i = i + 1;
    }
    proof {
        assert(readings@.take(readings@.len() as int) =~= readings@);
    }
    MemoryBenchmarkTotals {
        initial_memory_mb: initial / MIB,
        peak_memory_mb: peak / MIB,
        total_peak_delta_mb: (peak - initial) / MIB,
    }
}

/// The peak is at least the starting memory and every reading, and is one
/// of them.
pub proof fn lemma_peak_reading_bounds(initial: u64, readings: Seq<u64>)
    ensures
        peak_reading(initial, readings) >= initial,
        forall|i: int| 0 <= i < readings.len() ==> peak_reading(initial, readings) >= #[trigger] readings[i],
        peak_reading(initial, readings) == initial || readings.contains(peak_reading(initial, readings)),
    decreases readings.len(),
{
    if readings.len() > 0 {
        let init = readings.drop_last();
        lemma_peak_reading_bounds(initial, init);
        assert forall|i: int| 0 <= i < readings.len() implies peak_reading(initial, readings)
            >= #[trigger] readings[i] by {
            if i < init.len() {
                assert(init[i] == readings[i]);
            }
        }
        if peak_reading(initial, readings) != initial && peak_reading(initial, readings) != readings.last() {
            let p = peak_reading(initial, init);
            let k = choose|k: int| 0 <= k < init.len() && init[k] == p;
            assert(readings[k] == p);
        }
        assert(readings[readings.len() - 1] == readings.last());
    }
}

} // verus!
