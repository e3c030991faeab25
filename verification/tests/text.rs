use inferno_cli::text::{is_affirmative, repeat_str, truncate};

#[test]
fn truncation_marks_cuts() {
    assert_eq!(truncate("hello world", 8), "hello...");
    assert_eq!(truncate("short", 10), "short");
    assert_eq!(truncate("exactly8", 8), "exactly8");
    assert_eq!(truncate("abcdef", 2), "...");
    assert_eq!(truncate("héllo wörld", 6), "hé...");
}

#[test]
fn yes_no_answers() {
    assert!(is_affirmative(" Yes\n"));
    assert!(is_affirmative("y"));
    assert!(!is_affirmative("no"));
    assert!(!is_affirmative(""));
    assert!(!is_affirmative("  \n"));
}

#[test]
fn repetition() {
    assert_eq!(repeat_str("ab", 3), "ababab");
    assert_eq!(repeat_str("ab", 0), "");
}
