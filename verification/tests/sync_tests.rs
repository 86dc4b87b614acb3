use github_tracker::data::{
    GithubIssueComment, GithubIssueOutline, GithubPullRequest, GithubReactions, GithubUser,
    outline_eq,
};
use github_tracker::sync::{Action, Error, Event, SyncState, is_an_update_needed, sync_start, sync_step};

fn sample_user() -> GithubUser {
    GithubUser {
        login: String::from("octocat"),
        id: 1,
        node_id: String::from("MDQ6VXNlcjE="),
        avatar_url: String::from("https://example.org/a.png"),
        gravatar_id: String::from(""),
        url: String::from("https://example.org/users/octocat"),
        html_url: String::from("https://example.org/octocat"),
        followers_url: String::from("https://example.org/followers"),
        following_url: String::from("https://example.org/following"),
        gists_url: String::from("https://example.org/gists"),
        starred_url: String::from("https://example.org/starred"),
        subscriptions_url: String::from("https://example.org/subs"),
        organizations_url: String::from("https://example.org/orgs"),
        repos_url: String::from("https://example.org/repos"),
        events_url: String::from("https://example.org/events"),
        received_events_url: String::from("https://example.org/received"),
        user_type: String::from("User"),
        site_admin: false,
    }
}

fn sample_reactions() -> GithubReactions {
    GithubReactions {
        url: String::from("https://example.org/reactions"),
        total_count: 0,
        plus_one: 0,
        minus_one: 0,
        laugh: 0,
        hooray: 0,
        confused: 0,
        heart: 0,
        rocket: 0,
        eyes: 0,
    }
}

fn sample_outline(number: u64, pull_request: bool) -> GithubIssueOutline {
    GithubIssueOutline {
        title: String::from("A title"),
        number,
        url: String::from("https://example.org/issue"),
        assignees: vec![sample_user()],
        milestone: None,
        state: String::from("open"),
        body: Some(String::from("A body")),
        created_at: String::from("2024-01-01T00:00:00Z"),
        updated_at: String::from("2024-01-02T00:00:00Z"),
        closed_at: None,
        closed_by: None,
        state_reason: None,
        comments_count: 2,
        comments_url: String::from("https://example.org/comments"),
        events_url: String::from("https://example.org/events"),
        html_url: String::from("https://example.org/html"),
        labels_url: String::from("https://example.org/labels"),
        repository_url: String::from("https://example.org/repo"),
        id: 100 + number,
        locked: false,
        user: sample_user(),
        labels: vec![],
        reactions: sample_reactions(),
        timeline_url: String::from("https://example.org/timeline"),
        performed_via_github_app: None,
        pull_request: if pull_request {
            Some(GithubPullRequest {
                url: String::from("https://example.org/pr"),
                html_url: String::from("https://example.org/pr.html"),
                diff_url: String::from("https://example.org/pr.diff"),
                patch_url: String::from("https://example.org/pr.patch"),
                merged_at: None,
            })
        } else {
            None
        },
    }
}

fn sample_comment(id: u64) -> GithubIssueComment {
    GithubIssueComment {
        url: String::from("https://example.org/comment"),
        html_url: String::from("https://example.org/comment.html"),
        issue_url: String::from("https://example.org/issue"),
        id,
        node_id: String::from("IC_node"),
        user: sample_user(),
        created_at: String::from("2024-01-03T00:00:00Z"),
        updated_at: String::from("2024-01-03T00:00:00Z"),
        author_association: String::from("NONE"),
        body: String::from("A comment"),
        reactions: sample_reactions(),
        performed_via_github_app: None,
    }
}

#[test]
fn decider_first_sync_needs_update() {
    let fetched = sample_outline(1, false);
    assert!(is_an_update_needed(&None, &fetched));
}

#[test]
fn decider_identical_outline_needs_none() {
    let stored = sample_outline(1, false);
    let fetched = sample_outline(1, false);
    assert!(outline_eq(&stored, &fetched));
    assert!(!is_an_update_needed(&Some(stored), &fetched));
}

#[test]
fn decider_single_field_change_needs_update() {
    let stored = sample_outline(1, false);
    let mut fetched = sample_outline(1, false);
    fetched.state = String::from("closed");
    assert!(is_an_update_needed(&Some(stored), &fetched));

    let stored = sample_outline(1, false);
    let mut fetched = sample_outline(1, false);
    fetched.comments_count += 1;
    assert!(is_an_update_needed(&Some(stored), &fetched));

    let stored = sample_outline(1, false);
    let mut fetched = sample_outline(1, false);
    fetched.reactions.heart += 1;
    assert!(is_an_update_needed(&Some(stored), &fetched));

    let stored = sample_outline(1, false);
    let mut fetched = sample_outline(1, false);
    fetched.updated_at = String::from("2024-02-02T00:00:00Z");
    assert!(is_an_update_needed(&Some(stored), &fetched));
}

#[test]
fn first_sync_writes_outline_and_both_comment_pages() {
    let (state, action) = sync_start();
    assert!(matches!(action, Action::FetchIssues { page: 1 }));

    let (state, action) = sync_step(
        "data",
        state,
        Event::IssuesPage { issues: vec![sample_outline(5, false)] },
    );
    match action {
        Some(Action::LoadStored { ref path }) => assert_eq!(path, "data/issue_5.json"),
        _ => panic!("expected a stored-outline read"),
    }

    let (state, action) = sync_step("data", state, Event::Stored { outline: None });
    match action {
        Some(Action::WriteOutline { ref path, ref outline }) => {
            assert_eq!(path, "data/issue_5.json");
            assert!(outline_eq(outline, &sample_outline(5, false)));
        },
        _ => panic!("expected an outline write"),
    }

    let (state, action) = sync_step("data", state, Event::OutlineWritten);
    assert!(matches!(action, Some(Action::FetchComments { number: 5, page: 1 })));

    let (state, action) = sync_step(
        "data",
        state,
        Event::CommentsPage { comments: vec![sample_comment(1)] },
    );
    match action {
        Some(Action::WriteCommentPage { ref path, ref comments }) => {
            assert_eq!(path, "data/issue_5_comments-1.json");
            assert_eq!(comments.len(), 1);
        },
        _ => panic!("expected a comment-page write"),
    }

    let (state, action) = sync_step("data", state, Event::CommentPageWritten);
    assert!(matches!(action, Some(Action::FetchComments { number: 5, page: 2 })));

    let (state, action) = sync_step(
        "data",
        state,
        Event::CommentsPage { comments: vec![sample_comment(2), sample_comment(3)] },
    );
    match action {
        Some(Action::WriteCommentPage { ref path, ref comments }) => {
            assert_eq!(path, "data/issue_5_comments-2.json");
            assert_eq!(comments.len(), 2);
        },
        _ => panic!("expected a second comment-page write"),
    }

    let (state, action) = sync_step("data", state, Event::CommentPageWritten);
    assert!(matches!(action, Some(Action::FetchComments { number: 5, page: 3 })));

    // The first empty comment page ends the comment fetch: exactly
    // two comment-page files were written, and the machine turns to
    // the next issue page.
    let (state, action) = sync_step("data", state, Event::CommentsPage { comments: vec![] });
    assert!(matches!(action, Some(Action::FetchIssues { page: 2 })));

    let (state, action) = sync_step("data", state, Event::IssuesPage { issues: vec![] });
    assert!(matches!(state, SyncState::Finished));
    assert!(action.is_none());
}

#[test]
fn pull_request_outline_goes_to_pr_file() {
    let (state, _) = sync_start();
    let (state, _) = sync_step(
        "data",
        state,
        Event::IssuesPage { issues: vec![sample_outline(3, true)] },
    );
    let (_, action) = sync_step("data", state, Event::Stored { outline: None });
    match action {
        Some(Action::WriteOutline { ref path, .. }) => assert_eq!(path, "data/pr_3.json"),
        _ => panic!("expected an outline write"),
    }
}

#[test]
fn two_pages_then_empty_requests_exactly_three_pages() {
    let mut fetched_pages: Vec<u32> = Vec::new();
    let (state, action) = sync_start();
    if let Action::FetchIssues { page } = action {
        fetched_pages.push(page);
    }

    // Page one: a single issue that is already up to date.
    let (state, action) = sync_step(
        "data",
        state,
        Event::IssuesPage { issues: vec![sample_outline(1, false)] },
    );
    assert!(matches!(action, Some(Action::LoadStored { .. })));
    let (state, action) = sync_step(
        "data",
        state,
        Event::Stored { outline: Some(sample_outline(1, false)) },
    );
    match action {
        Some(Action::FetchIssues { page }) => fetched_pages.push(page),
        _ => panic!("expected the next page request"),
    }

    // Page two: the same, one up-to-date issue.
    let (state, action) = sync_step(
        "data",
        state,
        Event::IssuesPage { issues: vec![sample_outline(2, false)] },
    );
    assert!(matches!(action, Some(Action::LoadStored { .. })));
    let (state, action) = sync_step(
        "data",
        state,
        Event::Stored { outline: Some(sample_outline(2, false)) },
    );
    match action {
        Some(Action::FetchIssues { page }) => fetched_pages.push(page),
        _ => panic!("expected the next page request"),
    }

    // Page three is empty: the run halts, page four is never asked for.
    let (state, action) = sync_step("data", state, Event::IssuesPage { issues: vec![] });
    assert!(matches!(state, SyncState::Finished));
    assert!(action.is_none());
    assert_eq!(fetched_pages, vec![1, 2, 3]);
}

#[test]
fn second_run_with_no_changes_writes_nothing() {
    let mut writes: u32 = 0;
    let (state, _) = sync_start();
    let events = [
        Event::IssuesPage { issues: vec![sample_outline(1, false), sample_outline(2, true)] },
        Event::Stored { outline: Some(sample_outline(1, false)) },
        Event::Stored { outline: Some(sample_outline(2, true)) },
        Event::IssuesPage { issues: vec![] },
    ];
    let mut state = state;
    for event in events {
        let (next, action) = sync_step("data", state, event);
        state = next;
        if matches!(
            action,
            Some(Action::WriteOutline { .. }) | Some(Action::WriteCommentPage { .. })
        ) {
            writes += 1;
        }
    }
    assert!(matches!(state, SyncState::Finished));
    assert_eq!(writes, 0);
}

#[test]
fn failed_issue_fetch_aborts_run() {
    let (state, _) = sync_start();
    let (state, action) = sync_step("data", state, Event::FetchFailed);
    assert!(matches!(state, SyncState::Failed { error: Error::Transport }));
    assert!(action.is_none());

    // Whatever is reported afterwards, the run stays aborted and
    // never writes.
    let (state, action) = sync_step(
        "data",
        state,
        Event::IssuesPage { issues: vec![sample_outline(9, false)] },
    );
    assert!(matches!(state, SyncState::Failed { error: Error::Transport }));
    assert!(action.is_none());
}

#[test]
fn failed_comment_fetch_aborts_before_later_issues() {
    // Page one holds two issues; the first needs an update and its
    // comment fetch fails. No file of the second issue is ever
    // touched: the machine is Failed and requests nothing more.
    let (state, _) = sync_start();
    let (state, _) = sync_step(
        "data",
        state,
        Event::IssuesPage { issues: vec![sample_outline(1, false), sample_outline(2, false)] },
    );
    let (state, _) = sync_step("data", state, Event::Stored { outline: None });
    let (state, _) = sync_step("data", state, Event::OutlineWritten);
    let (state, action) = sync_step("data", state, Event::FetchFailed);
    assert!(matches!(state, SyncState::Failed { error: Error::Transport }));
    assert!(action.is_none());
    let (state, action) = sync_step("data", state, Event::Stored { outline: None });
    assert!(matches!(state, SyncState::Failed { error: Error::Transport }));
    assert!(action.is_none());
}

#[test]
fn stored_outline_failures_are_fatal() {
    let (state, _) = sync_start();
    let (state, _) = sync_step(
        "data",
        state,
        Event::IssuesPage { issues: vec![sample_outline(1, false)] },
    );
    let (state, _) = sync_step("data", state, Event::StoredReadFailed);
    assert!(matches!(state, SyncState::Failed { error: Error::IssueOutlineFileRead }));

    let (state, _) = sync_start();
    let (state, _) = sync_step(
        "data",
        state,
        Event::IssuesPage { issues: vec![sample_outline(1, false)] },
    );
    let (state, _) = sync_step("data", state, Event::StoredParseFailed);
    assert!(matches!(state, SyncState::Failed { error: Error::IssueOutlineFileParse }));
}

#[test]
fn outline_write_failures_carry_the_issue_number() {
    let (state, _) = sync_start();
    let (state, _) = sync_step(
        "data",
        state,
        Event::IssuesPage { issues: vec![sample_outline(7, false)] },
    );
    let (state, _) = sync_step("data", state, Event::Stored { outline: None });
    let (state, _) = sync_step("data", state, Event::OutlineCreateFailed);
    match state {
        SyncState::Failed { error } => {
            assert_eq!(error, Error::IssueOutlineFileCreationFailed { issue: 7 });
        },
        _ => panic!("expected an aborted run"),
    }

    let (state, _) = sync_start();
    let (state, _) = sync_step(
        "data",
        state,
        Event::IssuesPage { issues: vec![sample_outline(7, false)] },
    );
    let (state, _) = sync_step("data", state, Event::Stored { outline: None });
    let (state, _) = sync_step("data", state, Event::OutlineWriteFailed);
    match state {
        SyncState::Failed { error } => {
            assert_eq!(error, Error::IssueOutlineFileWriteFailed { issue: 7 });
        },
        _ => panic!("expected an aborted run"),
    }
}

#[test]
fn comment_write_failures_carry_issue_and_page() {
    let (state, _) = sync_start();
    let (state, _) = sync_step(
        "data",
        state,
        Event::IssuesPage { issues: vec![sample_outline(9, false)] },
    );
    let (state, _) = sync_step("data", state, Event::Stored { outline: None });
    let (state, _) = sync_step("data", state, Event::OutlineWritten);
    let (state, _) = sync_step(
        "data",
        state,
        Event::CommentsPage { comments: vec![sample_comment(1)] },
    );
    let (state, _) = sync_step("data", state, Event::CommentPageWritten);
    let (state, _) = sync_step(
        "data",
        state,
        Event::CommentsPage { comments: vec![sample_comment(2)] },
    );
    let (state, _) = sync_step("data", state, Event::CommentWriteFailed);
    match state {
        SyncState::Failed { error } => {
            assert_eq!(error, Error::CommentFileWriteFailed { issue: 9, page: 2 });
        },
        _ => panic!("expected an aborted run"),
    }

    let (state, _) = sync_start();
    let (state, _) = sync_step(
        "data",
        state,
        Event::IssuesPage { issues: vec![sample_outline(9, false)] },
    );
    let (state, _) = sync_step("data", state, Event::Stored { outline: None });
    let (state, _) = sync_step("data", state, Event::OutlineWritten);
    let (state, _) = sync_step(
        "data",
        state,
        Event::CommentsPage { comments: vec![sample_comment(1)] },
    );
    let (state, _) = sync_step("data", state, Event::CommentCreateFailed);
    match state {
        SyncState::Failed { error } => {
            assert_eq!(error, Error::CommentsFileCreationFailed { issue: 9, page: 1 });
        },
        _ => panic!("expected an aborted run"),
    }
}

#[test]
fn changed_outline_is_rewritten_and_comments_refetched() {
    let (state, _) = sync_start();
    let (state, _) = sync_step(
        "data",
        state,
        Event::IssuesPage { issues: vec![sample_outline(4, false)] },
    );
    let mut stored = sample_outline(4, false);
    stored.state = String::from("closed");
    let (state, action) = sync_step("data", state, Event::Stored { outline: Some(stored) });
    match action {
        Some(Action::WriteOutline { ref path, ref outline }) => {
            assert_eq!(path, "data/issue_4.json");
            // The freshly fetched outline is written, not the stored one.
            assert!(outline_eq(outline, &sample_outline(4, false)));
        },
        _ => panic!("expected an outline write"),
    }
    let (_, action) = sync_step("data", state, Event::OutlineWritten);
    assert!(matches!(action, Some(Action::FetchComments { number: 4, page: 1 })));
}
