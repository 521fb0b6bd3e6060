//! Pull-request data as the host exchanges it with the external
//! GitHub data source. The source is currently a stub: it answers
//! with synthetic data computed from the repository and PR number.

use vstd::prelude::*;
use vstd::string::StringExecFns;
use crate::numbers::dec_i64;
use crate::numbers::dec_int;

verus! {

/// A pull request, as the external data source describes it.
pub struct PrInfo {
    pub id: i64,
    pub number: i64,
    pub title: String,
    pub state: String,
    pub html_url: String,
    pub head_sha: String,
}

/// One check run of a pull request.
pub struct CheckRun {
    pub id: i64,
    pub name: String,
    pub status: String,
    pub conclusion: Option<String>,
}

/// A pull request together with its check runs.
pub struct PrDetails {
    pub pr: PrInfo,
    pub check_runs: Vec<CheckRun>,
}

/// The synthetic title the stub gives a pull request.
pub open spec fn spec_stub_title(repo: Seq<char>, number: int) -> Seq<char> {
    "PR #"@ + dec_int(number) + " from "@ + repo
}

/// The link the stub gives a pull request.
pub open spec fn spec_stub_url(repo: Seq<char>, number: int) -> Seq<char> {
    "https://github.com/"@ + repo + "/pull/"@ + dec_int(number)
}

/// Answers with the synthetic details of a pull request: an open PR
/// under the given number with a derived title and link, and no
/// check runs.
pub fn fetch_pr_info(repo: &str, number: i64) -> (r: PrDetails)
    ensures
        r.pr.id == number,
        r.pr.number == number,
        r.pr.title@ == spec_stub_title(repo@, number as int),
        r.pr.state@ == "open"@,
        r.pr.html_url@ == spec_stub_url(repo@, number as int),
        r.pr.head_sha@ == "abc123"@,
        r.check_runs@.len() == 0,
{
    let num = dec_i64(number);
    let mut title = String::from_str("PR #");
    title.append(num.as_str());
    title.append(" from ");
    title.append(repo);
    let mut url = String::from_str("https://github.com/");
    url.append(repo);
    url.append("/pull/");
    url.append(num.as_str());
    PrDetails {
        pr: PrInfo {
            id: number,
            number,
            title,
            state: String::from_str("open"),
            html_url: url,
            head_sha: String::from_str("abc123"),
        },
        check_runs: Vec::new(),
    }
}

} // verus!
