use ci_failure_core::quoting::escape_applescript;
use ci_failure_core::quoting::shell_quote;

#[test]
fn plain_value_is_wrapped_in_single_quotes() {
    assert_eq!(shell_quote("a/b"), "'a/b'");
}

#[test]
fn empty_value_is_quoted() {
    assert_eq!(shell_quote(""), "''");
}

#[test]
fn apostrophe_is_escaped() {
    assert_eq!(shell_quote("it's"), "'it'\"'\"'s'");
}

#[test]
fn only_apostrophes() {
    assert_eq!(shell_quote("''"), "''\"'\"''\"'\"''");
}

#[test]
fn shell_specials_stay_literal_inside_quotes() {
    assert_eq!(shell_quote("$HOME `id` ; rm -rf"), "'$HOME `id` ; rm -rf'");
    assert_eq!(shell_quote("a\nb"), "'a\nb'");
    assert_eq!(shell_quote("say \"hi\""), "'say \"hi\"'");
}

#[test]
fn applescript_escapes_backslash_and_quote() {
    assert_eq!(escape_applescript("a\"b\\c"), "a\\\"b\\\\c");
}

#[test]
fn applescript_leaves_other_text_alone() {
    assert_eq!(escape_applescript("plain text with 'single' quotes"), "plain text with 'single' quotes");
}

#[test]
fn escaping_domains_compose() {
    // A command quoted for the shell, then escaped for the automation
    // script: the shell layer's double quotes gain backslashes, the
    // single quotes stay.
    let cmd = format!("echo {}", shell_quote("it's"));
    assert_eq!(cmd, "echo 'it'\"'\"'s'");
    assert_eq!(escape_applescript(&cmd), "echo 'it'\\\"'\\\"'s'");
}
