use github_tracker::data::{
    GithubIssueOutline, GithubPullRequest, GithubReactions, GithubUser,
};
use github_tracker::paths::{
    issue_number_to_comments_path, issue_obj_to_issue_outline_file_path, u64_to_dec_string,
};

fn sample_user() -> GithubUser {
    GithubUser {
        login: String::from("octocat"),
        id: 1,
        node_id: String::from("MDQ6VXNlcjE="),
        avatar_url: String::from("https://example.org/a.png"),
        gravatar_id: String::from(""),
        url: String::from("https://example.org/users/octocat"),
        html_url: String::from("https://example.org/octocat"),
        followers_url: String::from("https://example.org/followers"),
        following_url: String::from("https://example.org/following"),
        gists_url: String::from("https://example.org/gists"),
        starred_url: String::from("https://example.org/starred"),
        subscriptions_url: String::from("https://example.org/subs"),
        organizations_url: String::from("https://example.org/orgs"),
        repos_url: String::from("https://example.org/repos"),
        events_url: String::from("https://example.org/events"),
        received_events_url: String::from("https://example.org/received"),
        user_type: String::from("User"),
        site_admin: false,
    }
}

fn sample_reactions() -> GithubReactions {
    GithubReactions {
        url: String::from("https://example.org/reactions"),
        total_count: 0,
        plus_one: 0,
        minus_one: 0,
        laugh: 0,
        hooray: 0,
        confused: 0,
        heart: 0,
        rocket: 0,
        eyes: 0,
    }
}

fn sample_outline(number: u64, pull_request: bool) -> GithubIssueOutline {
    GithubIssueOutline {
        title: String::from("A title"),
        number,
        url: String::from("https://example.org/issue"),
        assignees: vec![],
        milestone: None,
        state: String::from("open"),
        body: Some(String::from("A body")),
        created_at: String::from("2024-01-01T00:00:00Z"),
        updated_at: String::from("2024-01-02T00:00:00Z"),
        closed_at: None,
        closed_by: None,
        state_reason: None,
        comments_count: 2,
        comments_url: String::from("https://example.org/comments"),
        events_url: String::from("https://example.org/events"),
        html_url: String::from("https://example.org/html"),
        labels_url: String::from("https://example.org/labels"),
        repository_url: String::from("https://example.org/repo"),
        id: 100 + number,
        locked: false,
        user: sample_user(),
        labels: vec![],
        reactions: sample_reactions(),
        timeline_url: String::from("https://example.org/timeline"),
        performed_via_github_app: None,
        pull_request: if pull_request {
            Some(GithubPullRequest {
                url: String::from("https://example.org/pr"),
                html_url: String::from("https://example.org/pr.html"),
                diff_url: String::from("https://example.org/pr.diff"),
                patch_url: String::from("https://example.org/pr.patch"),
                merged_at: None,
            })
        } else {
            None
        },
    }
}

#[test]
fn decimal_rendering_exact_values() {
    assert_eq!(u64_to_dec_string(0), "0");
    assert_eq!(u64_to_dec_string(7), "7");
    assert_eq!(u64_to_dec_string(10), "10");
    assert_eq!(u64_to_dec_string(905), "905");
    assert_eq!(u64_to_dec_string(u64::MAX), "18446744073709551615");
}

#[test]
fn plain_issue_outline_path() {
    let outline = sample_outline(7, false);
    let path = issue_obj_to_issue_outline_file_path("data", &outline);
    assert_eq!(path, "data/issue_7.json");
}

#[test]
fn pull_request_outline_path() {
    let outline = sample_outline(7, true);
    let path = issue_obj_to_issue_outline_file_path("data", &outline);
    assert_eq!(path, "data/pr_7.json");
}

#[test]
fn comments_page_path() {
    let path = issue_number_to_comments_path("data", 12, 3);
    assert_eq!(path, "data/issue_12_comments-3.json");
}

#[test]
fn category_never_crosses() {
    let issue = sample_outline(42, false);
    let pr = sample_outline(42, true);
    let issue_path = issue_obj_to_issue_outline_file_path("d", &issue);
    let pr_path = issue_obj_to_issue_outline_file_path("d", &pr);
    assert_eq!(issue_path, "d/issue_42.json");
    assert_eq!(pr_path, "d/pr_42.json");
    assert_ne!(issue_path, pr_path);
}

#[test]
fn run_options_carry_the_invocation() {
    let options = github_tracker::run_options::RunOptions {
        command: github_tracker::run_options::RunCommand::IssuesSync(
            github_tracker::run_options::issues_sync_run_options::RunOptions {
                repo_owner: String::from("some_owner"),
                repo: String::from("some_repo"),
                github_access_token: String::from("token-value"),
                data_dir: String::from("data"),
            },
        ),
    };
    match options.command {
        github_tracker::run_options::RunCommand::IssuesSync(inner) => {
            assert_eq!(inner.repo_owner, "some_owner");
            assert_eq!(inner.repo, "some_repo");
            assert_eq!(inner.data_dir, "data");
        },
    }
}
