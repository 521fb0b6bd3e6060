//! Bounded log truncation and the fixed analysis prompt.

use vstd::prelude::*;
use vstd::string::StrSliceExecFns;
use vstd::string::StringExecFns;

verus! {

/// The largest number of log characters kept in a prompt.
pub open spec fn log_cap() -> int {
    4000
}

/// The fixed string that marks elided log content.
pub open spec fn elision_marker() -> Seq<char> {
    "[...earlier log omitted...]\n"@
}

/// The bounded form of a raw log: the log itself when it fits the
/// cap, otherwise the elision marker followed by exactly the last
/// `log_cap()` characters (failures are usually reported near the
/// end of a log).
pub open spec fn spec_truncated_log(log: Seq<char>) -> Seq<char> {
    if log.len() <= log_cap() {
        log
    } else {
        elision_marker() + log.skip(log.len() - log_cap())
    }
}

/// Truncates `log` to its last `log_cap()` characters, prefixed with
/// the elision marker; a log within the cap is returned unchanged.
/// Truncation counts characters, never splitting one.
pub fn truncate_log(log: &str) -> (r: String)
    ensures
        r@ == spec_truncated_log(log@),
        log@.len() <= log_cap() ==> r@ == log@,
        log@.len() > log_cap() ==> r@ == elision_marker() + log@.skip(log@.len() - log_cap()),
        r@.len() <= log_cap() + elision_marker().len(),
{
    let n = log.unicode_len();
    if n <= 4000 {
        String::from_str(log)
    } else {
        let mut out = String::from_str("[...earlier log omitted...]\n");
        let tail = log.substring_char(n - 4000, n);
        out.append(tail);
        proof {
            assert(log@.subrange(n - 4000, n as int) =~= log@.skip(n - 4000));
        }
        out
    }
}

/// The fixed prompt text standing before the job name.
pub open spec fn prompt_head() -> Seq<char> {
    "You are a senior CI/CD engineer who analyzes GitHub Actions failure logs.\n\nAnalyze the failure log of the CI job \""@
}

/// The fixed prompt text standing between the job name and the log:
/// the required answer sections, in order, and the plain-text rules.
pub open spec fn prompt_mid() -> Seq<char> {
    "\" and reply in exactly this format:\n\n[Failure type]\n(choose one: compile error / test failure / lint error / dependency issue / timeout / permission issue / other)\n\n[Root cause]\n(state the root cause in 1-2 sentences)\n\n[Error detail]\n- error message: ...\n- location: ...\n\n[Fix suggestions]\n1. ...\n2. ...\n3. ...\n\nNotes:\n- do not use tables\n- do not use markdown symbols (such as ##, ** or -)\n- reply in plain text\n\nLog:\n```\n"@
}

/// The fixed prompt text closing the fenced log block.
pub open spec fn prompt_tail() -> Seq<char> {
    "\n```\n"@
}

/// The full analysis prompt for a job name and an already-truncated log.
pub open spec fn spec_prompt(job: Seq<char>, truncated: Seq<char>) -> Seq<char> {
    prompt_head() + job + prompt_mid() + truncated + prompt_tail()
}

/// Renders the fixed multi-section instruction prompt, embedding the
/// job name and the truncated log verbatim inside a fenced block.
pub fn build_prompt(job_name: &str, truncated: &str) -> (r: String)
    ensures
        r@ == spec_prompt(job_name@, truncated@),
{
    let mut out = String::from_str(
        "You are a senior CI/CD engineer who analyzes GitHub Actions failure logs.\n\nAnalyze the failure log of the CI job \"",
    );
    out.append(job_name);
    out.append(
        "\" and reply in exactly this format:\n\n[Failure type]\n(choose one: compile error / test failure / lint error / dependency issue / timeout / permission issue / other)\n\n[Root cause]\n(state the root cause in 1-2 sentences)\n\n[Error detail]\n- error message: ...\n- location: ...\n\n[Fix suggestions]\n1. ...\n2. ...\n3. ...\n\nNotes:\n- do not use tables\n- do not use markdown symbols (such as ##, ** or -)\n- reply in plain text\n\nLog:\n```\n",
    );
    out.append(truncated);
    out.append("\n```\n");
    out
}

} // verus!
