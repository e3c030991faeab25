//! Batch input handling of the `run` command: how many items a batch file
//! holds, by its kind, and the items a line-oriented batch is made of.

use crate::text::{blank, chars_of, is_blank, lines, lines_of, lowercase, str_eq, string_of, to_lowercase, trim, trimmed};
use crate::net::path_exists;
use crate::text::concat;
use vstd::prelude::*;

verus! {

// ---------------------------------------------------------------------------
// Trusted calls
// ---------------------------------------------------------------------------

/// What `Path::extension` gives for the path with this text, as text.
pub uninterp spec fn path_extension(path: Seq<char>) -> Option<Seq<char>>;

/// What `serde_json::from_str::<serde_json::Value>` makes of a text:
/// `Ok(Some(n))` for an array of `n` items, `Ok(None)` for any other value,
/// and the error's message where the text is not JSON.
pub uninterp spec fn json_top_level(content: Seq<char>) -> Result<Option<nat>, Seq<char>>;

/// The number of records that a `csv` reader with the given delimiter, and
/// otherwise its default settings, reads from a text.
pub uninterp spec fn csv_record_count(content: Seq<char>, delimiter: u8) -> nat;

/// Calls `Path::extension`; the result is named `path_extension`. The
/// extension of a path given as text is a piece of that text, so it is
/// text too.
#[verifier::external_body]
fn extension_of(path: &str) -> (r: Option<String>)
    ensures
        path_extension(path@) == (match r {
            Some(e) => Some(e@),
            None => None,
        }),
{
    std::path::Path::new(path).extension().map(|e| e.to_string_lossy().into_owned())
}

/// Parses the text with `serde_json::from_str` into a `serde_json::Value`
/// and reports whether it is an array, and of how many items; the result
/// is named `json_top_level`.
#[verifier::external_body]
fn parse_json_top_level(content: &str) -> (r: Result<Option<usize>, String>)
    ensures
        json_top_level(content@) == (match r {
            Ok(Some(n)) => Ok(Some(n as nat)),
            Ok(None) => Ok(None),
            Err(m) => Err(m@),
        }),
{
    match serde_json::from_str::<serde_json::Value>(content) {
        Ok(serde_json::Value::Array(items)) => Ok(Some(items.len())),
        Ok(_) => Ok(None),
        Err(e) => Err(e.to_string()),
    }
}

/// Counts the records that a `csv::Reader` built with the delimiter reads
/// from the text; the count is named `csv_record_count`.
#[verifier::external_body]
fn count_csv_records(content: &str, delimiter: u8) -> (r: usize)
    ensures
        r == csv_record_count(content@, delimiter),
{
    let mut rdr = csv::ReaderBuilder::new().delimiter(delimiter).from_reader(content.as_bytes());
    rdr.records().count()
}

// ---------------------------------------------------------------------------
// Batch size
// ---------------------------------------------------------------------------

/// How a batch file is read, by its lowercased extension.
#[derive(Clone, Copy, Debug, PartialEq, Eq, Structural)]
pub enum BatchFormat {
    /// A JSON document; an array holds one item per element.
    Json,
    /// Comma- or tab-separated records.
    Csv,
    /// One item per non-blank line.
    Lines,
}

/// The batch format of a lowercased extension.
pub open spec fn batch_format_of(ext_lower: Seq<char>) -> BatchFormat {
    if ext_lower == "json"@ {
        BatchFormat::Json
    } else if ext_lower == "csv"@ || ext_lower == "tsv"@ {
        BatchFormat::Csv
    } else {
        BatchFormat::Lines
    }
}

/// The number of lines of `content` that hold more than white space.
pub open spec fn nonblank_line_count(content: Seq<char>) -> nat {
    lines_of(content).filter(|l: Seq<char>| !is_blank(l)).len()
}

/// The delimiter of a separated-values file: a tab for the `tsv`
/// extension as written, else a comma.
pub open spec fn delimiter_for(ext: Seq<char>) -> u8 {
    if ext == "tsv"@ {
        9
    } else {
        44
    }
}

/// The extension of a path as text, empty where it has none.
pub open spec fn extension_text(path: Seq<char>) -> Seq<char> {
    match path_extension(path) {
        Some(e) => e,
        None => Seq::empty(),
    }
}

/// The number of items of a batch file with extension `ext` and text
/// `content`, or the JSON error that reading it met.
pub open spec fn batch_size(ext: Seq<char>, content: Seq<char>) -> Result<nat, Seq<char>> {
    match batch_format_of(lowercase(ext)) {
        BatchFormat::Json => match json_top_level(content) {
            Ok(Some(n)) => Ok(n),
            Ok(None) => Ok(1),
            Err(m) => Err(m),
        },
        BatchFormat::Csv => Ok(csv_record_count(content, delimiter_for(ext))),
        BatchFormat::Lines => Ok(nonblank_line_count(content)),
    }
}

/// The item count of a JSON batch, from what parsing it gave: the length
/// of an array, and 1 for any other value.
pub fn count_from_json(parsed: Result<Option<usize>, String>) -> (r: Result<usize, String>)
    ensures
        parsed matches Ok(Some(n)) ==> r == Ok::<usize, String>(n),
        parsed matches Ok(None) ==> r == Ok::<usize, String>(1),
        parsed matches Err(m) ==> r matches Err(e) && e@ == m@,
{
    match parsed {
        Ok(Some(n)) => Ok(n),
        Ok(None) => Ok(1),
        Err(m) => Err(m),
    }
}

/// The number of non-blank lines of `content`.
pub fn count_nonblank_lines(content: &str) -> (r: usize)
    ensures
        r == nonblank_line_count(content@),
{
    let chars = chars_of(content);
    let ls = lines(chars.as_slice());
    let ghost all = lines_of(content@);
    let ghost keep = |l: Seq<char>| !is_blank(l);
    let mut n: usize = 0;
    let mut i: usize = 0;
    proof {
        reveal(Seq::filter);
        assert(all.take(0).filter(keep) =~= Seq::<Seq<char>>::empty());
    }
    while i < ls.len()
        invariant
            ls@.len() == all.len(),
            forall|j: int| 0 <= j < ls@.len() ==> #[trigger] ls@[j]@ == all[j],
            keep == (|l: Seq<char>| !is_blank(l)),
            i <= ls@.len(),
            n == all.take(i as int).filter(keep).len(),
            n <= i,
        decreases ls.len() - i,
    {
        proof {
            assert(all.take(i + 1) == all.take(i as int).push(all[i as int]));
            all.take(i as int).lemma_filter_push(all[i as int], keep);
        }
        if !blank(ls[i].as_slice()) {
            n = n + 1;
        }
        i = i + 1;
    }
    proof {
        assert(all.take(all.len() as int) == all);
    }
    n
}

/// Estimates the number of items in a batch file from its path and text: a
/// JSON array counts its elements and any other JSON value one item,
/// separated-values files count their records, and any other file its
/// non-blank lines. Reading the file is the caller's part.
pub fn estimate_batch_size(input_path: &str, content: &str) -> (r: Result<usize, String>)
    ensures
        batch_size(extension_text(input_path@), content@) == (match r {
            Ok(n) => Ok(n as nat),
            Err(m) => Err(m@),
        }),
{
    let ext = match extension_of(input_path) {
        Some(e) => e,
        None => String::new(),
    };
    let lower = to_lowercase(ext.as_str());
    let l = lower.as_str();
    if str_eq(l, "json") {
        let parsed = parse_json_top_level(content);
        count_from_json(parsed)
    } else if str_eq(l, "csv") || str_eq(l, "tsv") {
        let delimiter: u8 = if str_eq(ext.as_str(), "tsv") {
            9
        } else {
            44
        };
        Ok(count_csv_records(content, delimiter))
    } else {
        Ok(count_nonblank_lines(content))
    }
}

// ---------------------------------------------------------------------------
// Line-oriented batches
// ---------------------------------------------------------------------------

/// The items of a line-oriented batch: each non-blank line, trimmed, with
/// its index among all the lines.
pub open spec fn batch_items_of(content: Seq<char>) -> Seq<(nat, Seq<char>)> {
    items_from(lines_of(content), lines_of(content).len())
}

/// The items among the first `k` of `ls`.
pub open spec fn items_from(ls: Seq<Seq<char>>, k: nat) -> Seq<(nat, Seq<char>)>
    decreases k,
{
    if k == 0 {
        Seq::empty()
    } else {
        let rest = items_from(ls, (k - 1) as nat);
        if is_blank(ls[k - 1]) {
            rest
        } else {
            rest.push(((k - 1) as nat, trim(ls[k - 1])))
        }
    }
}

/// The items of a line-oriented batch, each with the index of its line.
pub fn batch_items(content: &str) -> (r: Vec<(usize, String)>)
    ensures
        r@.len() == batch_items_of(content@).len(),
        forall|i: int|
            0 <= i < r@.len() ==> #[trigger] r@[i].0 == batch_items_of(content@)[i].0
                && r@[i].1@ == batch_items_of(content@)[i].1,
{
    let chars = chars_of(content);
    let ls = lines(chars.as_slice());
    let ghost all = lines_of(content@);
    let mut out: Vec<(usize, String)> = Vec::new();
    let mut i: usize = 0;
    while i < ls.len()
        invariant
            ls@.len() == all.len(),
            all == lines_of(content@),
            forall|j: int| 0 <= j < ls@.len() ==> #[trigger] ls@[j]@ == all[j],
            i <= ls@.len(),
            out@.len() == items_from(all, i as nat).len(),
            forall|j: int|
                0 <= j < out@.len() ==> #[trigger] out@[j].0 == items_from(all, i as nat)[j].0
                    && out@[j].1@ == items_from(all, i as nat)[j].1,
        decreases ls.len() - i,
    {
        if !blank(ls[i].as_slice()) {
            let t = trimmed(ls[i].as_slice());
            out.push((i, string_of(t.as_slice())));
        }
        i = i + 1;
    }
    assert(batch_items_of(content@) == items_from(all, all.len() as nat));
    out
}


/// The items of a line-oriented batch are exactly as many as its size
/// estimate counts: one per non-blank line.
pub proof fn lemma_items_match_estimate(content: Seq<char>)
    ensures
        batch_items_of(content).len() == nonblank_line_count(content),
{
    let ls = lines_of(content);
    lemma_items_count(ls, ls.len());
    assert(ls.take(ls.len() as int) == ls);
}

proof fn lemma_items_count(ls: Seq<Seq<char>>, k: nat)
    requires
        k <= ls.len(),
    ensures
        items_from(ls, k).len() == ls.take(k as int).filter(|l: Seq<char>| !is_blank(l)).len(),
    decreases k,
{
    let keep = |l: Seq<char>| !is_blank(l);
    if k == 0 {
        reveal(Seq::filter);
        assert(ls.take(0) =~= Seq::<Seq<char>>::empty());
    } else {
        lemma_items_count(ls, (k - 1) as nat);
        assert(ls.take(k as int) == ls.take(k - 1).push(ls[k - 1]));
        ls.take(k - 1).lemma_filter_push(ls[k - 1], keep);
    }
}

/// Every item of a line-oriented batch comes from a distinct, later line
/// than the one before it.
pub proof fn lemma_item_lines_increase(content: Seq<char>)
    ensures
        forall|i: int, j: int|
            0 <= i < j < batch_items_of(content).len() ==> #[trigger] batch_items_of(content)[i].0
                < #[trigger] batch_items_of(content)[j].0,
        forall|i: int|
            0 <= i < batch_items_of(content).len() ==> #[trigger] batch_items_of(content)[i].0
                < lines_of(content).len(),
{
    let ls = lines_of(content);
    lemma_items_increase(ls, ls.len());
}

proof fn lemma_items_increase(ls: Seq<Seq<char>>, k: nat)
    requires
        k <= ls.len(),
    ensures
        forall|i: int, j: int|
            0 <= i < j < items_from(ls, k).len() ==> #[trigger] items_from(ls, k)[i].0
                < #[trigger] items_from(ls, k)[j].0,
        forall|i: int| 0 <= i < items_from(ls, k).len() ==> #[trigger] items_from(ls, k)[i].0 < k,
    decreases k,
{
    if k > 0 {
        lemma_items_increase(ls, (k - 1) as nat);
        let rest = items_from(ls, (k - 1) as nat);
        if !is_blank(ls[k - 1]) {
            let now = items_from(ls, k);
            assert(now == rest.push(((k - 1) as nat, trim(ls[k - 1]))));
            assert forall|i: int| 0 <= i < now.len() implies #[trigger] now[i].0 < k by {
                if i < rest.len() {
                    assert(now[i] == rest[i]);
                }
            }
            assert forall|i: int, j: int|
                0 <= i < j < now.len() implies #[trigger] now[i].0 < #[trigger] now[j].0 by {
                assert(now[i] == rest[i]);
                if j < rest.len() {
                    assert(now[j] == rest[j]);
                }
            }
        }
    }
}


// ---------------------------------------------------------------------------
// Checks of a run
// ---------------------------------------------------------------------------

/// The complaint about the model and token limit of a run, if any; the
/// temperature and top-p, floating point, are checked after them by the
/// caller.
pub open spec fn run_args_error(model: Seq<char>, max_tokens: u32) -> Option<Seq<char>> {
    if model.len() == 0 {
        Some("Model name cannot be empty"@)
    } else if max_tokens == 0 {
        Some("max_tokens must be greater than 0"@)
    } else {
        None
    }
}

/// Checks the model and token limit of a run.
pub fn validate_run_args(model: &str, max_tokens: u32) -> (r: Result<(), String>)
    ensures
        r is Ok <==> run_args_error(model@, max_tokens) is None,
        r matches Err(m) ==> run_args_error(model@, max_tokens) == Some(m@),
{
    if model.is_empty() {
        return Err("Model name cannot be empty".to_owned());
    }
    if max_tokens == 0 {
        return Err("max_tokens must be greater than 0".to_owned());
    }
    Ok(())
}

/// The input file of a batch run; batch mode needs one.
pub fn batch_input_file(input: &Option<String>) -> (r: Result<String, String>)
    ensures
        input matches Some(p) ==> (r matches Ok(q) && q@ == p@),
        input is None ==> (r matches Err(m) && m@ == "Batch mode requires input file"@),
{
    match input {
        Some(p) => Ok(p.clone()),
        None => Err("Batch mode requires input file".to_owned()),
    }
}

/// The complaint about a run request, if any, given whether its input
/// file exists; the temperature and top-p, floating point, are checked
/// after it by the caller.
pub open spec fn run_request_error(
    model: Seq<char>,
    has_prompt: bool,
    input: Option<Seq<char>>,
    input_exists: bool,
    batch: bool,
    max_tokens: u32,
) -> Option<Seq<char>> {
    if model.len() == 0 {
        Some("Model name cannot be empty"@)
    } else if !has_prompt && input is None {
        Some("Either --prompt or --input must be provided"@)
    } else if batch && input is None {
        Some("Batch mode requires --input file"@)
    } else if input is Some && !input_exists {
        Some("Input file does not exist: "@ + input.unwrap())
    } else if max_tokens == 0 {
        Some("max_tokens must be greater than 0"@)
    } else {
        None
    }
}

/// Checks a run request, given whether its input file exists.
pub fn check_run_request(
    model: &str,
    has_prompt: bool,
    input: &Option<String>,
    input_exists: bool,
    batch: bool,
    max_tokens: u32,
) -> (r: Result<(), String>)
    ensures
        r is Ok <==> run_request_error(
            model@,
            has_prompt,
            match input {
                Some(p) => Some(p@),
                None => None,
            },
            input_exists,
            batch,
            max_tokens,
        ) is None,
        r matches Err(m) ==> run_request_error(
            model@,
            has_prompt,
            match input {
                Some(p) => Some(p@),
                None => None,
            },
            input_exists,
            batch,
            max_tokens,
        ) == Some(m@),
{
    if model.is_empty() {
        return Err("Model name cannot be empty".to_owned());
    }
    if !has_prompt && input.is_none() {
        return Err("Either --prompt or --input must be provided".to_owned());
    }
    if batch && input.is_none() {
        return Err("Batch mode requires --input file".to_owned());
    }
    if let Some(p) = input {
        if !input_exists {
            return Err(concat("Input file does not exist: ", p.as_str()));
        }
    }
    if max_tokens == 0 {
        return Err("max_tokens must be greater than 0".to_owned());
    }
    Ok(())
}

/// Checks a run request; whether a given input file exists rests on the
/// file system.
pub fn validate_run_request(
    model: &str,
    has_prompt: bool,
    input: &Option<String>,
    batch: bool,
    max_tokens: u32,
) -> (r: Result<(), String>)
    ensures
        input is None ==> (r is Ok <==> run_request_error(model@, has_prompt, None, false, batch, max_tokens) is None),
        input is None ==> (r matches Err(m) ==> run_request_error(model@, has_prompt, None, false, batch, max_tokens) == Some(m@)),
        input matches Some(p) ==> (r is Ok ==> run_request_error(model@, has_prompt, Some(p@), true, batch, max_tokens) is None),
        input matches Some(p) ==> (r matches Err(m) ==> (run_request_error(model@, has_prompt, Some(p@), true, batch, max_tokens) == Some(m@)
            || run_request_error(model@, has_prompt, Some(p@), false, batch, max_tokens) == Some(m@))),
{
    let exists = match input {
        Some(p) => path_exists(p.as_str()),
        None => false,
    };
    check_run_request(model, has_prompt, input, exists, batch, max_tokens)
}

} // verus!
