//! File names of the local store.
//!
//! An outline is kept in one file per issue, named after the issue
//! number and its category: `pr_{number}.json` when the outline
//! carries pull-request metadata, `issue_{number}.json` otherwise.
//! Each page of comments is kept in its own file,
//! `issue_{number}_comments-{page}.json`. The functions here build
//! those paths inside a given data directory, and their contracts
//! state every character of the result.

use vstd::prelude::*;
use vstd::string::StringExecFns;
use crate::data::GithubIssueOutline;

verus! {

/// The decimal digit `d` (at most nine) as a character.
pub open spec fn dec_digit(d: nat) -> char {
    if d == 0 {
        '0'
    } else if d == 1 {
        '1'
    } else if d == 2 {
        '2'
    } else if d == 3 {
        '3'
    } else if d == 4 {
        '4'
    } else if d == 5 {
        '5'
    } else if d == 6 {
        '6'
    } else if d == 7 {
        '7'
    } else if d == 8 {
        '8'
    } else {
        '9'
    }
}

/// The usual decimal notation of `n`, most significant digit first,
/// without leading zeros (a single `'0'` for zero).
pub open spec fn dec_seq(n: nat) -> Seq<char>
    decreases n,
{
    if n < 10 {
        seq![dec_digit(n)]
    } else {
        dec_seq(n / 10) + seq![dec_digit(n % 10)]
    }
}

/// One decimal digit as a string slice.
fn digit_str(d: u64) -> (s: &'static str)
    requires
        d < 10,
    ensures
        s@ == seq![dec_digit(d as nat)],
{
    proof {
        reveal_strlit("0");
        reveal_strlit("1");
        reveal_strlit("2");
        reveal_strlit("3");
        reveal_strlit("4");
        reveal_strlit("5");
        reveal_strlit("6");
        reveal_strlit("7");
        reveal_strlit("8");
        reveal_strlit("9");
    }
    let s: &'static str = match d {
        0 => "0",
        1 => "1",
        2 => "2",
        3 => "3",
        4 => "4",
        5 => "5",
        6 => "6",
        7 => "7",
        8 => "8",
        _ => "9",
    };
    proof {
        assert(s@ =~= seq![dec_digit(d as nat)]);
    }
    s
}

/// Renders `n` in decimal.
pub fn u64_to_dec_string(n: u64) -> (s: String)
    ensures
        s@ == dec_seq(n as nat),
    decreases n,
{
    if n < 10 {
        String::from_str(digit_str(n))
    } else {
        let prefix = u64_to_dec_string(n / 10);
        prefix.concat(digit_str(n % 10))
    }
}

/// Renders `p` in decimal.
pub fn u32_to_dec_string(p: u32) -> (s: String)
    ensures
        s@ == dec_seq(p as nat),
{
    u64_to_dec_string(p as u64)
}

/// The file name under which the outline of issue `n` is stored:
/// `pr_{n}.json` for a pull request, `issue_{n}.json` for a plain
/// issue.
pub open spec fn outline_file_name(is_pull_request: bool, n: nat) -> Seq<char> {
    if is_pull_request {
        "pr_"@ + dec_seq(n) + ".json"@
    } else {
        "issue_"@ + dec_seq(n) + ".json"@
    }
}

/// The file name under which page `page` of the comments of issue
/// `n` is stored: `issue_{n}_comments-{page}.json`.
pub open spec fn comments_file_name(n: nat, page: nat) -> Seq<char> {
    "issue_"@ + dec_seq(n) + "_comments-"@ + dec_seq(page) + ".json"@
}

/// A file name placed inside the data directory, with `'/'` between.
pub open spec fn in_data_dir(data_dir: Seq<char>, name: Seq<char>) -> Seq<char> {
    data_dir + "/"@ + name
}

/// The path of the outline file for a fetched issue: the category
/// (issue or pull request) comes from the presence of pull-request
/// metadata on the outline, the file name from the issue number.
pub fn issue_obj_to_issue_outline_file_path(data_dir: &str, issue: &GithubIssueOutline) -> (p:
    String)
    ensures
        p@ == in_data_dir(
            data_dir@,
            outline_file_name(issue.pull_request is Some, issue.number as nat),
        ),
{
    let mut p = String::from_str(data_dir);
    p.append("/");
    if issue.pull_request.is_some() {
        p.append("pr_");
    } else {
        p.append("issue_");
    }
    let num = u64_to_dec_string(issue.number);
    p.append(num.as_str());
    p.append(".json");
    proof {
        assert(p@ =~= in_data_dir(
            data_dir@,
            outline_file_name(issue.pull_request is Some, issue.number as nat),
        ));
    }
    p
}

/// The path of the comment-page file for issue `issue_number` and
/// page `page_number`.
pub fn issue_number_to_comments_path(data_dir: &str, issue_number: u64, page_number: u32) -> (p:
    String)
    ensures
        p@ == in_data_dir(
            data_dir@,
            comments_file_name(issue_number as nat, page_number as nat),
        ),
{
    let mut p = String::from_str(data_dir);
    p.append("/");
    p.append("issue_");
    let num = u64_to_dec_string(issue_number);
    p.append(num.as_str());
    p.append("_comments-");
    let page = u32_to_dec_string(page_number);
    p.append(page.as_str());
    p.append(".json");
    proof {
        assert(p@ =~= in_data_dir(
            data_dir@,
            comments_file_name(issue_number as nat, page_number as nat),
        ));
    }
    p
}

/// The two storage categories never share a file name: a
/// pull-request outline and a plain-issue outline are stored at
/// distinct paths, whatever the two issue numbers are.
pub proof fn lemma_category_file_names_disjoint(m: nat, n: nat)
    ensures
        outline_file_name(true, m) != outline_file_name(false, n),
{
    reveal_strlit("pr_");
    reveal_strlit("issue_");
    assert(outline_file_name(true, m)[0] == 'p');
    assert(outline_file_name(false, n)[0] == 'i');
}

} // verus!
