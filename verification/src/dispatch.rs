//! The dispatch pipeline: composing the skill preamble and full
//! terminal input, rendering the fully-substituted shell-safe
//! command, and building the terminal-automation script around it.

use vstd::prelude::*;
use vstd::string::StrSliceExecFns;
use vstd::string::StringExecFns;
use crate::numbers::dec_i64;
use crate::numbers::dec_int;
use crate::quoting::applescript_escaped;
use crate::quoting::escape_applescript;
use crate::quoting::shell_quote;
use crate::quoting::shell_quoted;
use crate::template::substitute_tokens;
use crate::template::substituted;
use crate::text::trim_str;
use crate::text::trimmed;

verus! {

/// Why a dispatch failed: the command template was blank, the
/// platform offers no terminal automation, or the automation process
/// could not be spawned (with the spawn error's text).
#[derive(Debug)]
pub enum DispatchError {
    EmptyTemplate,
    UnsupportedPlatform,
    LaunchFailed(String),
}

/// The description of a dispatch error, as the host shows it.
pub open spec fn spec_dispatch_message(e: DispatchError) -> Seq<char> {
    match e {
        DispatchError::EmptyTemplate => "CLI command template is empty"@,
        DispatchError::UnsupportedPlatform => "terminal dispatch is only available on macOS"@,
        DispatchError::LaunchFailed(d) => "failed to launch terminal: "@ + d@,
    }
}

impl DispatchError {
    /// Renders the error as a descriptive string.
    pub fn message(&self) -> (r: String)
        ensures
            r@ == spec_dispatch_message(*self),
    {
        match self {
            DispatchError::EmptyTemplate => String::from_str("CLI command template is empty"),
            DispatchError::UnsupportedPlatform => String::from_str(
                "terminal dispatch is only available on macOS",
            ),
            DispatchError::LaunchFailed(d) => {
                let mut out = String::from_str("failed to launch terminal: ");
                out.append(d.as_str());
                out
            },
        }
    }
}

/// The fixed preamble text standing before the repository name.
pub open spec fn preamble_head() -> Seq<char> {
    "Use skill:ci-failure-analyzer to analyze the following CI failure.\n\nRepository: "@
}

/// The fixed preamble text between the repository and the PR number.
pub open spec fn preamble_mid_pr() -> Seq<char> {
    "\nPR: #"@
}

/// The fixed preamble text between the PR number and the link.
pub open spec fn preamble_mid_link() -> Seq<char> {
    "\nLink: "@
}

/// The fixed closing of the preamble: the standing instruction not to
/// push changes without the user's confirmation.
pub open spec fn preamble_tail() -> Seq<char> {
    "\n\nNote: do not push changes directly; give fix suggestions and wait for the user to confirm before acting.\n\n"@
}

/// The skill preamble for a repository, PR number and PR link.
pub open spec fn spec_preamble(repo: Seq<char>, number: int, url: Seq<char>) -> Seq<char> {
    preamble_head() + repo + preamble_mid_pr() + dec_int(number) + preamble_mid_link() + url
        + preamble_tail()
}

/// The full terminal input: the skill preamble followed by the
/// caller's free-form context.
pub open spec fn spec_full_input(
    repo: Seq<char>,
    number: int,
    url: Seq<char>,
    context: Seq<char>,
) -> Seq<char> {
    spec_preamble(repo, number, url) + context
}

/// Renders the skill preamble and prepends it to `context`.
pub fn compose_full_input(repo: &str, number: i64, pr_url: &str, context: &str) -> (r: String)
    ensures
        r@ == spec_full_input(repo@, number as int, pr_url@, context@),
{
    let mut out = String::from_str(
        "Use skill:ci-failure-analyzer to analyze the following CI failure.\n\nRepository: ",
    );
    out.append(repo);
    out.append("\nPR: #");
    let num = dec_i64(number);
    out.append(num.as_str());
    out.append("\nLink: ");
    out.append(pr_url);
    out.append(
        "\n\nNote: do not push changes directly; give fix suggestions and wait for the user to confirm before acting.\n\n",
    );
    out.append(context);
    out
}

/// The fully-substituted command for a dispatch: the trimmed template
/// with `{context}` replaced by the shell-quoted full input, `{repo}`
/// and `{pr_url}` by the shell-quoted repository and link, and
/// `{number}` by the plain decimal PR number.
pub open spec fn spec_dispatch_command(
    template: Seq<char>,
    context: Seq<char>,
    repo: Seq<char>,
    number: int,
    url: Seq<char>,
) -> Seq<char> {
    substituted(
        trimmed(template),
        shell_quoted(spec_full_input(repo, number, url, context)),
        shell_quoted(repo),
        dec_int(number),
        shell_quoted(url),
    )
}

/// Builds the shell-safe command line for a dispatch, or fails with
/// `EmptyTemplate` exactly when the template is blank after trimming.
/// Every substituted value except the integer PR number appears
/// shell-quoted in the result.
pub fn build_dispatch_command(
    command_template: &str,
    context: &str,
    repo: &str,
    number: i64,
    pr_url: &str,
) -> (r: Result<String, DispatchError>)
    ensures
        trimmed(command_template@).len() == 0 <==> r matches Err(DispatchError::EmptyTemplate),
        r matches Err(e) ==> e matches DispatchError::EmptyTemplate,
        trimmed(command_template@).len() > 0 ==> (r matches Ok(c) && c@ == spec_dispatch_command(
            command_template@,
            context@,
            repo@,
            number as int,
            pr_url@,
        )),
{
    let t = trim_str(command_template);
    if t.as_str().unicode_len() == 0 {
        return Err(DispatchError::EmptyTemplate);
    }
    let full = compose_full_input(repo, number, pr_url, context);
    let qctx = shell_quote(full.as_str());
    let qrepo = shell_quote(repo);
    let num = dec_i64(number);
    let qurl = shell_quote(pr_url);
    Ok(
        substitute_tokens(
            t.as_str(),
            qctx.as_str(),
            qrepo.as_str(),
            num.as_str(),
            qurl.as_str(),
        ),
    )
}

/// The fixed opening of the terminal-automation script, up to the
/// opening quote of the command.
pub open spec fn script_head() -> Seq<char> {
    "tell application \"iTerm\"\n    activate\n    create window with default profile\n    tell current session of window 1\n        write text \""@
}

/// The fixed closing of the terminal-automation script.
pub open spec fn script_tail() -> Seq<char> {
    "\"\n    end tell\nend tell"@
}

/// The terminal-automation script for a command: the command is
/// escaped for the script's string literal and embedded in the fixed
/// script that activates the terminal, opens a window and writes the
/// command into the new session.
pub open spec fn spec_terminal_script(command: Seq<char>) -> Seq<char> {
    script_head() + applescript_escaped(command) + script_tail()
}

/// Builds the terminal-automation script around `command`.
pub fn build_terminal_script(command: &str) -> (r: String)
    ensures
        r@ == spec_terminal_script(command@),
{
    let mut out = String::from_str(
        "tell application \"iTerm\"\n    activate\n    create window with default profile\n    tell current session of window 1\n        write text \"",
    );
    let esc = escape_applescript(command);
    out.append(esc.as_str());
    out.append("\"\n    end tell\nend tell");
    out
}

} // verus!
