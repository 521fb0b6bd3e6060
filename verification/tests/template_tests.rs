use ci_failure_core::dispatch::build_dispatch_command;
use ci_failure_core::dispatch::build_terminal_script;
use ci_failure_core::dispatch::compose_full_input;
use ci_failure_core::dispatch::DispatchError;
use ci_failure_core::template::substitute_tokens;

#[test]
fn every_token_is_replaced() {
    let out = substitute_tokens("run {repo} {number} {pr_url} {context}", "CTX", "REPO", "42", "URL");
    assert_eq!(out, "run REPO 42 URL CTX");
}

#[test]
fn repeated_tokens_are_each_replaced() {
    let out = substitute_tokens("{repo}{repo}", "c", "r", "n", "u");
    assert_eq!(out, "rr");
}

#[test]
fn unknown_tokens_pass_through() {
    let out = substitute_tokens("echo {unknown} {repo} {branch}", "c", "r", "n", "u");
    assert_eq!(out, "echo {unknown} r {branch}");
}

#[test]
fn replacement_text_is_not_rescanned() {
    // A context value that itself looks like a token must stay literal.
    let out = substitute_tokens("{context} {repo}", "{repo}", "r", "n", "u");
    assert_eq!(out, "{repo} r");
}

#[test]
fn empty_template_is_rejected() {
    for template in ["", " ", "\t\n"] {
        let r = build_dispatch_command(template, "ctx", "a/b", 1, "u");
        assert!(matches!(r, Err(DispatchError::EmptyTemplate)));
    }
}

#[test]
fn template_is_trimmed_before_substitution() {
    let r = build_dispatch_command("  echo {number}  ", "", "a/b", 7, "u").unwrap();
    assert_eq!(r, "echo 7");
}

#[test]
fn preamble_embeds_repo_number_and_link() {
    let full = compose_full_input("a/b", 42, "https://github.com/a/b/pull/42", "it's broken");
    let expected = "Use skill:ci-failure-analyzer to analyze the following CI failure.\n\nRepository: a/b\nPR: #42\nLink: https://github.com/a/b/pull/42\n\nNote: do not push changes directly; give fix suggestions and wait for the user to confirm before acting.\n\nit's broken";
    assert_eq!(full, expected);
}

#[test]
fn dispatch_end_to_end() {
    let repo = "a/b";
    let number = 42;
    let url = "https://github.com/a/b/pull/42";
    let context = "it's broken";
    let out = build_dispatch_command("echo {repo} {number} {context}", context, repo, number, url)
        .unwrap();
    let full = compose_full_input(repo, number, url, context);
    // The full input holds one apostrophe (from "it's"); its quoted
    // form closes the quote, escapes it, and reopens the quote.
    let quoted_full = format!("'{}'", full.replace('\'', "'\"'\"'"));
    let expected = format!("echo 'a/b' 42 {}", quoted_full);
    assert_eq!(out, expected);
    assert!(out.starts_with("echo 'a/b' 42 'Use skill:ci-failure-analyzer"));
    assert!(out.contains("it'\"'\"'s broken"));
}

#[test]
fn terminal_script_embeds_escaped_command() {
    let script = build_terminal_script("echo \"hi\"");
    let expected = "tell application \"iTerm\"\n    activate\n    create window with default profile\n    tell current session of window 1\n        write text \"echo \\\"hi\\\"\"\n    end tell\nend tell";
    assert_eq!(script, expected);
}
