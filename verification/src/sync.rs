//! The sync run as a step machine.
//!
//! One run walks the issue-list endpoint page by page; for every
//! fetched outline it compares the stored outline, and on any
//! difference (or absence) writes the new outline and re-downloads
//! every comment page of that issue. The machine below holds the
//! whole of that control flow: [`sync_step`] maps the current state
//! and the outcome of the last requested transfer to the next state
//! and the next transfer to request. The surrounding program owns
//! the transfers themselves; it performs each [`Action`] and reports
//! what happened as an [`Event`]. Every transition is pinned down by
//! [`step_model`].

use vstd::prelude::*;
use crate::data::{
    CommentModel, GithubIssueComment, GithubIssueOutline, OutlineModel, outline_eq,
};
use crate::paths::{
    comments_file_name, in_data_dir, issue_number_to_comments_path,
    issue_obj_to_issue_outline_file_path, outline_file_name,
};

verus! {

/// Why a run stopped early. Every error is fatal: there is no retry
/// anywhere, and the first failure aborts the whole run.
#[derive(Debug, Clone, Copy, PartialEq, Eq, Structural)]
pub enum Error {
    /// Network failure, a response status outside the success range,
    /// or a response body that does not decode to the expected shape.
    Transport,
    /// A stored outline file exists but cannot be opened.
    IssueOutlineFileRead,
    /// A stored outline file exists but does not parse as an outline.
    IssueOutlineFileParse,
    /// A comment-page file cannot be created.
    CommentsFileCreationFailed { issue: u64, page: u32 },
    /// A comment-page file cannot be written.
    CommentFileWriteFailed { issue: u64, page: u32 },
    /// An outline file cannot be created.
    IssueOutlineFileCreationFailed { issue: u64 },
    /// An outline file cannot be written.
    IssueOutlineFileWriteFailed { issue: u64 },
    /// The data directory cannot be created.
    DataDirCreationFailed,
}

/// Where a run stands: which transfer it is waiting for, and what is
/// left of the issue page under processing. The first queued outline
/// of `AwaitStored` is the one whose stored counterpart was asked
/// for.
pub enum SyncState {
    /// The list of issues on page `page` was requested.
    AwaitIssues { page: u32 },
    /// The stored outline for `current` was requested; `rest` is the
    /// remainder of the fetched page, in upstream order.
    AwaitStored { page: u32, current: GithubIssueOutline, rest: Vec<GithubIssueOutline> },
    /// The fresh outline of issue `number` is being written.
    AwaitOutlineWrite { page: u32, number: u64, rest: Vec<GithubIssueOutline> },
    /// Comment page `comment_page` of issue `number` was requested.
    AwaitComments { page: u32, number: u64, comment_page: u32, rest: Vec<GithubIssueOutline> },
    /// Comment page `comment_page` of issue `number` is being written.
    AwaitCommentWrite { page: u32, number: u64, comment_page: u32, rest: Vec<GithubIssueOutline> },
    /// The run ended: an issue page came back empty.
    Finished,
    /// The run aborted on a fatal error.
    Failed { error: Error },
}

/// What the surrounding program reports back after performing the
/// requested action. The failure events carry no payload: which
/// transfer failed is already part of the state.
pub enum Event {
    /// The requested issue page arrived and decoded.
    IssuesPage { issues: Vec<GithubIssueOutline> },
    /// The stored outline was read and parsed; `None` means no file
    /// exists at the expected path (first sync for this issue).
    Stored { outline: Option<GithubIssueOutline> },
    /// The outline file was created and written.
    OutlineWritten,
    /// The requested comment page arrived and decoded.
    CommentsPage { comments: Vec<GithubIssueComment> },
    /// The comment-page file was created and written.
    CommentPageWritten,
    /// A fetch failed: network error, non-success status, or a body
    /// of an unexpected shape.
    FetchFailed,
    /// The stored outline file exists but could not be opened.
    StoredReadFailed,
    /// The stored outline file exists but could not be parsed.
    StoredParseFailed,
    /// The outline file could not be created.
    OutlineCreateFailed,
    /// The outline file could not be written.
    OutlineWriteFailed,
    /// The comment-page file could not be created.
    CommentCreateFailed,
    /// The comment-page file could not be written.
    CommentWriteFailed,
}

/// The next transfer the surrounding program is asked to perform.
pub enum Action {
    /// Request `issues?page={page}&state=all`.
    FetchIssues { page: u32 },
    /// Read and parse the outline file at `path`; report `Stored`
    /// with `None` if no file exists there.
    LoadStored { path: String },
    /// Write `outline`, pretty-printed, to the file at `path`,
    /// replacing any prior content.
    WriteOutline { path: String, outline: GithubIssueOutline },
    /// Request `issues/{number}/comments?page={page}`.
    FetchComments { number: u64, page: u32 },
    /// Write `comments`, as one compact array, to the file at
    /// `path`, replacing any prior content.
    WriteCommentPage { path: String, comments: Vec<GithubIssueComment> },
}

/// Model of [`SyncState`].
pub enum StateModel {
    AwaitIssues { page: u32 },
    AwaitStored { page: u32, current: OutlineModel, rest: Seq<OutlineModel> },
    AwaitOutlineWrite { page: u32, number: u64, rest: Seq<OutlineModel> },
    AwaitComments { page: u32, number: u64, comment_page: u32, rest: Seq<OutlineModel> },
    AwaitCommentWrite { page: u32, number: u64, comment_page: u32, rest: Seq<OutlineModel> },
    Finished,
    Failed { error: Error },
}

/// Model of [`Event`].
pub enum EventModel {
    IssuesPage { issues: Seq<OutlineModel> },
    Stored { outline: Option<OutlineModel> },
    OutlineWritten,
    CommentsPage { comments: Seq<CommentModel> },
    CommentPageWritten,
    FetchFailed,
    StoredReadFailed,
    StoredParseFailed,
    OutlineCreateFailed,
    OutlineWriteFailed,
    CommentCreateFailed,
    CommentWriteFailed,
}

/// Model of [`Action`].
pub enum ActionModel {
    FetchIssues { page: u32 },
    LoadStored { path: Seq<char> },
    WriteOutline { path: Seq<char>, outline: OutlineModel },
    FetchComments { number: u64, page: u32 },
    WriteCommentPage { path: Seq<char>, comments: Seq<CommentModel> },
}

impl DeepView for SyncState {
    type V = StateModel;

    open spec fn deep_view(&self) -> StateModel {
        match self {
            SyncState::AwaitIssues { page } => StateModel::AwaitIssues { page: *page },
            SyncState::AwaitStored { page, current, rest } => StateModel::AwaitStored {
                page: *page,
                current: current.deep_view(),
                rest: rest.deep_view(),
            },
            SyncState::AwaitOutlineWrite { page, number, rest } => StateModel::AwaitOutlineWrite {
                page: *page,
                number: *number,
                rest: rest.deep_view(),
            },
            SyncState::AwaitComments { page, number, comment_page, rest } => {
                StateModel::AwaitComments {
                    page: *page,
                    number: *number,
                    comment_page: *comment_page,
                    rest: rest.deep_view(),
                }
            },
            SyncState::AwaitCommentWrite { page, number, comment_page, rest } => {
                StateModel::AwaitCommentWrite {
                    page: *page,
                    number: *number,
                    comment_page: *comment_page,
                    rest: rest.deep_view(),
                }
            },
            SyncState::Finished => StateModel::Finished,
            SyncState::Failed { error } => StateModel::Failed { error: *error },
        }
    }
}

impl DeepView for Event {
    type V = EventModel;

    open spec fn deep_view(&self) -> EventModel {
        match self {
            Event::IssuesPage { issues } => EventModel::IssuesPage { issues: issues.deep_view() },
            Event::Stored { outline } => EventModel::Stored { outline: outline.deep_view() },
            Event::OutlineWritten => EventModel::OutlineWritten,
            Event::CommentsPage { comments } => EventModel::CommentsPage {
                comments: comments.deep_view(),
            },
            Event::CommentPageWritten => EventModel::CommentPageWritten,
            Event::FetchFailed => EventModel::FetchFailed,
            Event::StoredReadFailed => EventModel::StoredReadFailed,
            Event::StoredParseFailed => EventModel::StoredParseFailed,
            Event::OutlineCreateFailed => EventModel::OutlineCreateFailed,
            Event::OutlineWriteFailed => EventModel::OutlineWriteFailed,
            Event::CommentCreateFailed => EventModel::CommentCreateFailed,
            Event::CommentWriteFailed => EventModel::CommentWriteFailed,
        }
    }
}

impl DeepView for Action {
    type V = ActionModel;

    open spec fn deep_view(&self) -> ActionModel {
        match self {
            Action::FetchIssues { page } => ActionModel::FetchIssues { page: *page },
            Action::LoadStored { path } => ActionModel::LoadStored { path: path.deep_view() },
            Action::WriteOutline { path, outline } => ActionModel::WriteOutline {
                path: path.deep_view(),
                outline: outline.deep_view(),
            },
            Action::FetchComments { number, page } => ActionModel::FetchComments {
                number: *number,
                page: *page,
            },
            Action::WriteCommentPage { path, comments } => ActionModel::WriteCommentPage {
                path: path.deep_view(),
                comments: comments.deep_view(),
            },
        }
    }
}

/// The change-detection rule: an update is needed exactly when no
/// outline is stored for the issue, or the stored one differs from
/// the fetched one in any field.
pub open spec fn update_needed(stored: Option<OutlineModel>, fetched: OutlineModel) -> bool {
    match stored {
        None => true,
        Some(s) => s != fetched,
    }
}

/// The outline file name of a fetched outline: category from the
/// presence of pull-request metadata, number from the outline.
pub open spec fn outline_file_name_of(outline: OutlineModel) -> Seq<char> {
    outline_file_name(outline.pull_request is Some, outline.number as nat)
}

/// Where the machine turns after an issue is dealt with: to the next
/// outline of the page if any is queued, else to the next issue page
/// (the page counter is capped at its maximum as a safety ceiling).
pub open spec fn advance_model(data_dir: Seq<char>, page: u32, rest: Seq<OutlineModel>) -> (
    StateModel,
    Option<ActionModel>,
) {
    if rest.len() > 0 {
        (
            StateModel::AwaitStored { page, current: rest[0], rest: rest.drop_first() },
            Some(ActionModel::LoadStored { path: in_data_dir(data_dir, outline_file_name_of(rest[0])) }),
        )
    } else if page < u32::MAX {
        (
            StateModel::AwaitIssues { page: (page + 1) as u32 },
            Some(ActionModel::FetchIssues { page: (page + 1) as u32 }),
        )
    } else {
        (StateModel::Finished, None)
    }
}

/// The transition relation of the sync run, one case per pair of
/// pending transfer and outcome. An event that does not answer the
/// pending transfer leaves the state as it is and requests nothing;
/// the two terminal states absorb every event.
pub open spec fn step_model(data_dir: Seq<char>, s: StateModel, e: EventModel) -> (
    StateModel,
    Option<ActionModel>,
) {
    match (s, e) {
        (StateModel::AwaitIssues { page }, EventModel::IssuesPage { issues }) => {
            if issues.len() == 0 {
                (StateModel::Finished, None)
            } else {
                advance_model(data_dir, page, issues)
            }
        },
        (StateModel::AwaitIssues { page }, EventModel::FetchFailed) => {
            (StateModel::Failed { error: Error::Transport }, None)
        },
        (StateModel::AwaitStored { page, current, rest }, EventModel::Stored { outline }) => {
            if update_needed(outline, current) {
                (
                    StateModel::AwaitOutlineWrite { page, number: current.number, rest },
                    Some(
                        ActionModel::WriteOutline {
                            path: in_data_dir(data_dir, outline_file_name_of(current)),
                            outline: current,
                        },
                    ),
                )
            } else {
                advance_model(data_dir, page, rest)
            }
        },
        (StateModel::AwaitStored { page, current, rest }, EventModel::StoredReadFailed) => {
            (StateModel::Failed { error: Error::IssueOutlineFileRead }, None)
        },
        (StateModel::AwaitStored { page, current, rest }, EventModel::StoredParseFailed) => {
            (StateModel::Failed { error: Error::IssueOutlineFileParse }, None)
        },
        (StateModel::AwaitOutlineWrite { page, number, rest }, EventModel::OutlineWritten) => {
            (
                StateModel::AwaitComments { page, number, comment_page: 1, rest },
                Some(ActionModel::FetchComments { number, page: 1 }),
            )
        },
        (StateModel::AwaitOutlineWrite { page, number, rest }, EventModel::OutlineCreateFailed) => {
            (StateModel::Failed { error: Error::IssueOutlineFileCreationFailed { issue: number } }, None)
        },
        (StateModel::AwaitOutlineWrite { page, number, rest }, EventModel::OutlineWriteFailed) => {
            (StateModel::Failed { error: Error::IssueOutlineFileWriteFailed { issue: number } }, None)
        },
        (
            StateModel::AwaitComments { page, number, comment_page, rest },
            EventModel::CommentsPage { comments },
        ) => {
            if comments.len() == 0 {
                advance_model(data_dir, page, rest)
            } else {
                (
                    StateModel::AwaitCommentWrite { page, number, comment_page, rest },
                    Some(
                        ActionModel::WriteCommentPage {
                            path: in_data_dir(
                                data_dir,
                                comments_file_name(number as nat, comment_page as nat),
                            ),
                            comments,
                        },
                    ),
                )
            }
        },
        (StateModel::AwaitComments { page, number, comment_page, rest }, EventModel::FetchFailed) => {
            (StateModel::Failed { error: Error::Transport }, None)
        },
        (
            StateModel::AwaitCommentWrite { page, number, comment_page, rest },
            EventModel::CommentPageWritten,
        ) => {
            if comment_page < u32::MAX {
                (
                    StateModel::AwaitComments {
                        page,
                        number,
                        comment_page: (comment_page + 1) as u32,
                        rest,
                    },
                    Some(ActionModel::FetchComments { number, page: (comment_page + 1) as u32 }),
                )
            } else {
                advance_model(data_dir, page, rest)
            }
        },
        (
            StateModel::AwaitCommentWrite { page, number, comment_page, rest },
            EventModel::CommentCreateFailed,
        ) => {
            (
                StateModel::Failed {
                    error: Error::CommentsFileCreationFailed { issue: number, page: comment_page },
                },
                None,
            )
        },
        (
            StateModel::AwaitCommentWrite { page, number, comment_page, rest },
            EventModel::CommentWriteFailed,
        ) => {
            (
                StateModel::Failed {
                    error: Error::CommentFileWriteFailed { issue: number, page: comment_page },
                },
                None,
            )
        },
        _ => (s, None),
    }
}

/// The change-detection decision on one issue: `stored` is what the
/// local store holds (nothing, for a first sync), `latest_issue_data`
/// what the upstream API just returned. True exactly when the two
/// differ in any field, or nothing is stored yet.
pub fn is_an_update_needed(
    stored: &Option<GithubIssueOutline>,
    latest_issue_data: &GithubIssueOutline,
) -> (r: bool)
    ensures
        r == update_needed(stored.deep_view(), latest_issue_data.deep_view()),
{
    match stored {
        None => true,
        Some(s) => !outline_eq(s, latest_issue_data),
    }
}

/// `post` is `pre` without its first element; their models then
/// relate the same way.
proof fn lemma_deep_view_drop_first(pre: Vec<GithubIssueOutline>, post: Vec<GithubIssueOutline>)
    requires
        pre@.len() > 0,
        post@ == pre@.drop_first(),
    ensures
        post.deep_view() == pre.deep_view().drop_first(),
{
    assert forall|i: int| 0 <= i < post.deep_view().len() implies post.deep_view()[i]
        == pre.deep_view().drop_first()[i] by {
        assert(post@[i] == pre@[i + 1]);
    }
    assert(post.deep_view() =~= pre.deep_view().drop_first());
}

/// Turns to the next queued outline of the page, or to the next
/// issue page when the queue is empty.
fn advance(data_dir: &str, page: u32, rest: Vec<GithubIssueOutline>) -> (r: (
    SyncState,
    Option<Action>,
))
    ensures
        (r.0.deep_view(), r.1.deep_view()) == advance_model(data_dir@, page, rest.deep_view()),
{
    let mut rest = rest;
    if rest.len() > 0 {
        let ghost pre = rest;
        let current = rest.remove(0);
        proof {
            assert(rest@ =~= pre@.drop_first());
            lemma_deep_view_drop_first(pre, rest);
            assert(current.deep_view() == pre.deep_view()[0]);
        }
        let path = issue_obj_to_issue_outline_file_path(data_dir, &current);
        (
            SyncState::AwaitStored { page, current, rest },
            Some(Action::LoadStored { path }),
        )
    } else if page < u32::MAX {
        (
            SyncState::AwaitIssues { page: page + 1 },
            Some(Action::FetchIssues { page: page + 1 }),
        )
    } else {
        (SyncState::Finished, None)
    }
}

/// The opening move of a run: nothing is known yet, so the machine
/// asks for the first issue page.
pub fn sync_start() -> (r: (SyncState, Action))
    ensures
        r.0.deep_view() == (StateModel::AwaitIssues { page: 1 }),
        r.1.deep_view() == (ActionModel::FetchIssues { page: 1 }),
{
    (SyncState::AwaitIssues { page: 1 }, Action::FetchIssues { page: 1 })
}

/// One transition of the run: `state` names the pending transfer,
/// `event` its outcome; the result is the next state and the next
/// transfer to perform, exactly as [`step_model`] maps the models.
pub fn sync_step(data_dir: &str, state: SyncState, event: Event) -> (r: (
    SyncState,
    Option<Action>,
))
    ensures
        r.0.deep_view() == step_model(data_dir@, state.deep_view(), event.deep_view()).0,
        r.1.deep_view() == step_model(data_dir@, state.deep_view(), event.deep_view()).1,
{
    match (state, event) {
        (SyncState::AwaitIssues { page }, Event::IssuesPage { issues }) => {
            if issues.len() == 0 {
                (SyncState::Finished, None)
            } else {
                advance(data_dir, page, issues)
            }
        },
        (SyncState::AwaitIssues { page }, Event::FetchFailed) => {
            (SyncState::Failed { error: Error::Transport }, None)
        },
        (SyncState::AwaitStored { page, current, rest }, Event::Stored { outline }) => {
            if is_an_update_needed(&outline, &current) {
                let number = current.number;
                let path = issue_obj_to_issue_outline_file_path(data_dir, &current);
                (
                    SyncState::AwaitOutlineWrite { page, number, rest },
                    Some(Action::WriteOutline { path, outline: current }),
                )
            } else {
                advance(data_dir, page, rest)
            }
        },
        (SyncState::AwaitStored { .. }, Event::StoredReadFailed) => {
            (SyncState::Failed { error: Error::IssueOutlineFileRead }, None)
        },
        (SyncState::AwaitStored { .. }, Event::StoredParseFailed) => {
            (SyncState::Failed { error: Error::IssueOutlineFileParse }, None)
        },
        (SyncState::AwaitOutlineWrite { page, number, rest }, Event::OutlineWritten) => {
            (
                SyncState::AwaitComments { page, number, comment_page: 1, rest },
                Some(Action::FetchComments { number, page: 1 }),
            )
        },
        (SyncState::AwaitOutlineWrite { number, .. }, Event::OutlineCreateFailed) => {
            (
                SyncState::Failed { error: Error::IssueOutlineFileCreationFailed { issue: number } },
                None,
            )
        },
        (SyncState::AwaitOutlineWrite { number, .. }, Event::OutlineWriteFailed) => {
            (
                SyncState::Failed { error: Error::IssueOutlineFileWriteFailed { issue: number } },
                None,
            )
        },
        (
            SyncState::AwaitComments { page, number, comment_page, rest },
            Event::CommentsPage { comments },
        ) => {
            if comments.len() == 0 {
                advance(data_dir, page, rest)
            } else {
                let path = issue_number_to_comments_path(data_dir, number, comment_page);
                (
                    SyncState::AwaitCommentWrite { page, number, comment_page, rest },
                    Some(Action::WriteCommentPage { path, comments }),
                )
            }
        },
        (SyncState::AwaitComments { .. }, Event::FetchFailed) => {
            (SyncState::Failed { error: Error::Transport }, None)
        },
        (
            SyncState::AwaitCommentWrite { page, number, comment_page, rest },
            Event::CommentPageWritten,
        ) => {
            if comment_page < u32::MAX {
                (
                    SyncState::AwaitComments { page, number, comment_page: comment_page + 1, rest },
                    Some(Action::FetchComments { number, page: comment_page + 1 }),
                )
            } else {
                advance(data_dir, page, rest)
            }
        },
        (
            SyncState::AwaitCommentWrite { number, comment_page, .. },
            Event::CommentCreateFailed,
        ) => {
            (
                SyncState::Failed {
                    error: Error::CommentsFileCreationFailed { issue: number, page: comment_page },
                },
                None,
            )
        },
        (
            SyncState::AwaitCommentWrite { number, comment_page, .. },
            Event::CommentWriteFailed,
        ) => {
            (
                SyncState::Failed {
                    error: Error::CommentFileWriteFailed { issue: number, page: comment_page },
                },
                None,
            )
        },
        (s, _) => (s, None),
    }
}

} // verus!
