use inferno_cli::run::{batch_input_file, check_run_request, validate_run_args, validate_run_request};
use inferno_cli::run::{batch_items, count_from_json, count_nonblank_lines, estimate_batch_size};

#[test]
fn test_estimate_batch_size_jsonl() {
    let content = r#"{"text": "line 1"}
{"text": "line 2"}
{"text": "line 3"}"#;
    let size = estimate_batch_size("/tmp/batch.jsonl", content).unwrap();
    assert_eq!(size, 3);
}

#[test]
fn test_estimate_batch_size_json_array() {
    let content = r#"[
            {"text": "item 1"},
            {"text": "item 2"}
        ]"#;
    let size = estimate_batch_size("/tmp/batch.json", content).unwrap();
    assert_eq!(size, 2);
}

#[test]
fn json_values_other_than_arrays_count_once() {
    assert_eq!(estimate_batch_size("in.JSON", "{\"a\": 1}"), Ok(1));
    assert!(estimate_batch_size("in.json", "{not json").is_err());
    assert_eq!(count_from_json(Ok(Some(4))), Ok(4));
    assert_eq!(count_from_json(Ok(None)), Ok(1));
    assert_eq!(count_from_json(Err("bad".to_string())), Err("bad".to_string()));
}

#[test]
fn separated_values_count_records_after_the_header() {
    assert_eq!(estimate_batch_size("in.csv", "a,b\n1,2\n3,4\n"), Ok(2));
    assert_eq!(estimate_batch_size("in.tsv", "a\tb\n1\t2\n"), Ok(1));
}

#[test]
fn other_files_count_nonblank_lines() {
    assert_eq!(estimate_batch_size("notes.txt", "one\n\n  \ntwo\r\nthree"), Ok(3));
    assert_eq!(estimate_batch_size("noext", ""), Ok(0));
    assert_eq!(count_nonblank_lines("\n\t\n"), 0);
}

#[test]
fn batch_items_keep_line_indices() {
    let items = batch_items("  first \n\nsecond\n   \n third");
    assert_eq!(
        items,
        vec![(0, "first".to_string()), (2, "second".to_string()), (4, "third".to_string())]
    );
    assert!(batch_items("").is_empty());
}

#[test]
fn run_checks() {
    assert_eq!(validate_run_args("", 5), Err("Model name cannot be empty".to_string()));
    assert_eq!(validate_run_args("m", 0), Err("max_tokens must be greater than 0".to_string()));
    assert!(validate_run_args("m", 1).is_ok());
    assert_eq!(batch_input_file(&Some("in.txt".to_string())), Ok("in.txt".to_string()));
    assert_eq!(batch_input_file(&None), Err("Batch mode requires input file".to_string()));
    assert_eq!(
        check_run_request("m", false, &None, false, false, 10),
        Err("Either --prompt or --input must be provided".to_string())
    );
    assert_eq!(
        check_run_request("m", true, &None, false, true, 10),
        Err("Batch mode requires --input file".to_string())
    );
    assert_eq!(
        check_run_request("m", true, &Some("x.txt".to_string()), false, true, 10),
        Err("Input file does not exist: x.txt".to_string())
    );
    assert!(check_run_request("m", false, &Some("x.txt".to_string()), true, true, 10).is_ok());
    assert_eq!(
        validate_run_request("m", false, &Some("/no/such/input.jsonl".to_string()), false, 3),
        Err("Input file does not exist: /no/such/input.jsonl".to_string())
    );
    assert!(validate_run_request("m", true, &None, false, 3).is_ok());
}
