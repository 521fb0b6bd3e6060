use ci_failure_core::prompt::truncate_log;

const MARKER: &str = "[...earlier log omitted...]\n";

#[test]
fn short_log_unchanged() {
    let log = "error: something failed\n";
    assert_eq!(truncate_log(log), log);
}

#[test]
fn empty_log_unchanged() {
    assert_eq!(truncate_log(""), "");
}

#[test]
fn log_at_cap_unchanged() {
    let log = "x".repeat(4000);
    assert_eq!(truncate_log(&log), log);
}

#[test]
fn long_log_keeps_exact_tail() {
    let mut log = "HEAD".to_string();
    log.push_str(&"y".repeat(3999));
    log.push('Z');
    // 4004 characters: the last 4000 are 3999 'y's and the final 'Z'.
    let out = truncate_log(&log);
    let expected_tail: String = log.chars().skip(log.chars().count() - 4000).collect();
    assert!(out.starts_with(MARKER));
    assert!(out.ends_with(&expected_tail));
    assert_eq!(out.len(), MARKER.len() + 4000);
    assert_eq!(out, format!("{}{}", MARKER, expected_tail));
}

#[test]
fn truncation_counts_characters_not_bytes() {
    // 4001 multi-byte characters: truncation must keep whole characters.
    let log = "\u{00e9}".repeat(4001);
    let out = truncate_log(&log);
    let expected = format!("{}{}", MARKER, "\u{00e9}".repeat(4000));
    assert_eq!(out, expected);
}
