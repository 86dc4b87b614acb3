//! Records fetched from the upstream issue API, together with their
//! mathematical models.
//!
//! Each executable record has a model counterpart whose fields are
//! sequences and plain integers; `deep_view` maps one to the other.
//! Contracts throughout the crate speak of the models. Two records
//! are "the same version" exactly when their models are equal, and
//! the equality functions below decide that, field by field.

use vstd::prelude::*;

verus! {

/// One upstream issue or pull request snapshot.
///
/// The `pull_request` field is present exactly when the record
/// describes a pull request; that presence decides under which file
/// name the outline is stored.
pub struct GithubIssueOutline {
    pub title: String,
    pub number: u64,
    pub url: String,
    pub assignees: Vec<GithubUser>,
    pub milestone: Option<GithubMilestone>,
    pub state: String,
    pub body: Option<String>,
    pub created_at: String,
    pub updated_at: String,
    pub closed_at: Option<String>,
    pub closed_by: Option<String>,
    pub state_reason: Option<String>,
    pub comments_count: u64,
    pub comments_url: String,
    pub events_url: String,
    pub html_url: String,
    pub labels_url: String,
    pub repository_url: String,
    pub id: u64,
    pub locked: bool,
    pub user: GithubUser,
    pub labels: Vec<GithubLabel>,
    pub reactions: GithubReactions,
    pub timeline_url: String,
    pub performed_via_github_app: Option<String>,
    pub pull_request: Option<GithubPullRequest>,
}

/// Pull-request metadata attached to an outline.
pub struct GithubPullRequest {
    pub url: String,
    pub html_url: String,
    pub diff_url: String,
    pub patch_url: String,
    pub merged_at: Option<String>,
}

/// One account as the upstream API reports it.
pub struct GithubUser {
    pub login: String,
    pub id: u64,
    pub node_id: String,
    pub avatar_url: String,
    pub gravatar_id: String,
    pub url: String,
    pub html_url: String,
    pub followers_url: String,
    pub following_url: String,
    pub gists_url: String,
    pub starred_url: String,
    pub subscriptions_url: String,
    pub organizations_url: String,
    pub repos_url: String,
    pub events_url: String,
    pub received_events_url: String,
    pub user_type: String,
    pub site_admin: bool,
}

/// One milestone as the upstream API reports it.
pub struct GithubMilestone {
    pub url: String,
    pub html_url: String,
    pub labels_url: String,
    pub id: u64,
    pub node_id: String,
    pub number: u64,
    pub state: String,
    pub title: String,
    pub description: Option<String>,
    pub creator: GithubUser,
    pub open_issues: u64,
    pub closed_issues: u64,
    pub created_at: String,
    pub updated_at: String,
    pub closed_at: Option<String>,
    pub due_on: Option<String>,
}

/// One comment on an issue. Comments are never diffed individually;
/// whole pages of them are re-written on any outline change.
pub struct GithubIssueComment {
    pub url: String,
    pub html_url: String,
    pub issue_url: String,
    pub id: u64,
    pub node_id: String,
    pub user: GithubUser,
    pub created_at: String,
    pub updated_at: String,
    pub author_association: String,
    pub body: String,
    pub reactions: GithubReactions,
    pub performed_via_github_app: Option<String>,
}

/// One label as the upstream API reports it.
pub struct GithubLabel {
    pub id: u64,
    pub node_id: String,
    pub url: String,
    pub name: String,
    pub color: String,
    pub default: bool,
    pub description: Option<String>,
}

/// Reaction counters of an issue or a comment.
pub struct GithubReactions {
    pub url: String,
    pub total_count: u64,
    pub plus_one: u64,
    pub minus_one: u64,
    pub laugh: u64,
    pub hooray: u64,
    pub confused: u64,
    pub heart: u64,
    pub rocket: u64,
    pub eyes: u64,
}

/// Model of [`GithubIssueOutline`].
pub struct OutlineModel {
    pub title: Seq<char>,
    pub number: u64,
    pub url: Seq<char>,
    pub assignees: Seq<UserModel>,
    pub milestone: Option<MilestoneModel>,
    pub state: Seq<char>,
    pub body: Option<Seq<char>>,
    pub created_at: Seq<char>,
    pub updated_at: Seq<char>,
    pub closed_at: Option<Seq<char>>,
    pub closed_by: Option<Seq<char>>,
    pub state_reason: Option<Seq<char>>,
    pub comments_count: u64,
    pub comments_url: Seq<char>,
    pub events_url: Seq<char>,
    pub html_url: Seq<char>,
    pub labels_url: Seq<char>,
    pub repository_url: Seq<char>,
    pub id: u64,
    pub locked: bool,
    pub user: UserModel,
    pub labels: Seq<LabelModel>,
    pub reactions: ReactionsModel,
    pub timeline_url: Seq<char>,
    pub performed_via_github_app: Option<Seq<char>>,
    pub pull_request: Option<PullRequestModel>,
}

/// Model of [`GithubPullRequest`].
pub struct PullRequestModel {
    pub url: Seq<char>,
    pub html_url: Seq<char>,
    pub diff_url: Seq<char>,
    pub patch_url: Seq<char>,
    pub merged_at: Option<Seq<char>>,
}

/// Model of [`GithubUser`].
pub struct UserModel {
    pub login: Seq<char>,
    pub id: u64,
    pub node_id: Seq<char>,
    pub avatar_url: Seq<char>,
    pub gravatar_id: Seq<char>,
    pub url: Seq<char>,
    pub html_url: Seq<char>,
    pub followers_url: Seq<char>,
    pub following_url: Seq<char>,
    pub gists_url: Seq<char>,
    pub starred_url: Seq<char>,
    pub subscriptions_url: Seq<char>,
    pub organizations_url: Seq<char>,
    pub repos_url: Seq<char>,
    pub events_url: Seq<char>,
    pub received_events_url: Seq<char>,
    pub user_type: Seq<char>,
    pub site_admin: bool,
}

/// Model of [`GithubMilestone`].
pub struct MilestoneModel {
    pub url: Seq<char>,
    pub html_url: Seq<char>,
    pub labels_url: Seq<char>,
    pub id: u64,
    pub node_id: Seq<char>,
    pub number: u64,
    pub state: Seq<char>,
    pub title: Seq<char>,
    pub description: Option<Seq<char>>,
    pub creator: UserModel,
    pub open_issues: u64,
    pub closed_issues: u64,
    pub created_at: Seq<char>,
    pub updated_at: Seq<char>,
    pub closed_at: Option<Seq<char>>,
    pub due_on: Option<Seq<char>>,
}

/// Model of [`GithubIssueComment`].
pub struct CommentModel {
    pub url: Seq<char>,
    pub html_url: Seq<char>,
    pub issue_url: Seq<char>,
    pub id: u64,
    pub node_id: Seq<char>,
    pub user: UserModel,
    pub created_at: Seq<char>,
    pub updated_at: Seq<char>,
    pub author_association: Seq<char>,
    pub body: Seq<char>,
    pub reactions: ReactionsModel,
    pub performed_via_github_app: Option<Seq<char>>,
}

/// Model of [`GithubLabel`].
pub struct LabelModel {
    pub id: u64,
    pub node_id: Seq<char>,
    pub url: Seq<char>,
    pub name: Seq<char>,
    pub color: Seq<char>,
    pub default: bool,
    pub description: Option<Seq<char>>,
}

/// Model of [`GithubReactions`].
pub struct ReactionsModel {
    pub url: Seq<char>,
    pub total_count: u64,
    pub plus_one: u64,
    pub minus_one: u64,
    pub laugh: u64,
    pub hooray: u64,
    pub confused: u64,
    pub heart: u64,
    pub rocket: u64,
    pub eyes: u64,
}

impl DeepView for GithubReactions {
    type V = ReactionsModel;

    open spec fn deep_view(&self) -> ReactionsModel {
        ReactionsModel {
            url: self.url.deep_view(),
            total_count: self.total_count,
            plus_one: self.plus_one,
            minus_one: self.minus_one,
            laugh: self.laugh,
            hooray: self.hooray,
            confused: self.confused,
            heart: self.heart,
            rocket: self.rocket,
            eyes: self.eyes,
        }
    }
}

impl DeepView for GithubUser {
    type V = UserModel;

    open spec fn deep_view(&self) -> UserModel {
        UserModel {
            login: self.login.deep_view(),
            id: self.id,
            node_id: self.node_id.deep_view(),
            avatar_url: self.avatar_url.deep_view(),
            gravatar_id: self.gravatar_id.deep_view(),
            url: self.url.deep_view(),
            html_url: self.html_url.deep_view(),
            followers_url: self.followers_url.deep_view(),
            following_url: self.following_url.deep_view(),
            gists_url: self.gists_url.deep_view(),
            starred_url: self.starred_url.deep_view(),
            subscriptions_url: self.subscriptions_url.deep_view(),
            organizations_url: self.organizations_url.deep_view(),
            repos_url: self.repos_url.deep_view(),
            events_url: self.events_url.deep_view(),
            received_events_url: self.received_events_url.deep_view(),
            user_type: self.user_type.deep_view(),
            site_admin: self.site_admin,
        }
    }
}

impl DeepView for GithubLabel {
    type V = LabelModel;

    open spec fn deep_view(&self) -> LabelModel {
        LabelModel {
            id: self.id,
            node_id: self.node_id.deep_view(),
            url: self.url.deep_view(),
            name: self.name.deep_view(),
            color: self.color.deep_view(),
            default: self.default,
            description: self.description.deep_view(),
        }
    }
}

impl DeepView for GithubMilestone {
    type V = MilestoneModel;

    open spec fn deep_view(&self) -> MilestoneModel {
        MilestoneModel {
            url: self.url.deep_view(),
            html_url: self.html_url.deep_view(),
            labels_url: self.labels_url.deep_view(),
            id: self.id,
            node_id: self.node_id.deep_view(),
            number: self.number,
            state: self.state.deep_view(),
            title: self.title.deep_view(),
            description: self.description.deep_view(),
            creator: self.creator.deep_view(),
            open_issues: self.open_issues,
            closed_issues: self.closed_issues,
            created_at: self.created_at.deep_view(),
            updated_at: self.updated_at.deep_view(),
            closed_at: self.closed_at.deep_view(),
            due_on: self.due_on.deep_view(),
        }
    }
}

impl DeepView for GithubPullRequest {
    type V = PullRequestModel;

    open spec fn deep_view(&self) -> PullRequestModel {
        PullRequestModel {
            url: self.url.deep_view(),
            html_url: self.html_url.deep_view(),
            diff_url: self.diff_url.deep_view(),
            patch_url: self.patch_url.deep_view(),
            merged_at: self.merged_at.deep_view(),
        }
    }
}

impl DeepView for GithubIssueComment {
    type V = CommentModel;

    open spec fn deep_view(&self) -> CommentModel {
        CommentModel {
            url: self.url.deep_view(),
            html_url: self.html_url.deep_view(),
            issue_url: self.issue_url.deep_view(),
            id: self.id,
            node_id: self.node_id.deep_view(),
            user: self.user.deep_view(),
            created_at: self.created_at.deep_view(),
            updated_at: self.updated_at.deep_view(),
            author_association: self.author_association.deep_view(),
            body: self.body.deep_view(),
            reactions: self.reactions.deep_view(),
            performed_via_github_app: self.performed_via_github_app.deep_view(),
        }
    }
}

impl DeepView for GithubIssueOutline {
    type V = OutlineModel;

    open spec fn deep_view(&self) -> OutlineModel {
        OutlineModel {
            title: self.title.deep_view(),
            number: self.number,
            url: self.url.deep_view(),
            assignees: self.assignees.deep_view(),
            milestone: self.milestone.deep_view(),
            state: self.state.deep_view(),
            body: self.body.deep_view(),
            created_at: self.created_at.deep_view(),
            updated_at: self.updated_at.deep_view(),
            closed_at: self.closed_at.deep_view(),
            closed_by: self.closed_by.deep_view(),
            state_reason: self.state_reason.deep_view(),
            comments_count: self.comments_count,
            comments_url: self.comments_url.deep_view(),
            events_url: self.events_url.deep_view(),
            html_url: self.html_url.deep_view(),
            labels_url: self.labels_url.deep_view(),
            repository_url: self.repository_url.deep_view(),
            id: self.id,
            locked: self.locked,
            user: self.user.deep_view(),
            labels: self.labels.deep_view(),
            reactions: self.reactions.deep_view(),
            timeline_url: self.timeline_url.deep_view(),
            performed_via_github_app: self.performed_via_github_app.deep_view(),
            pull_request: self.pull_request.deep_view(),
        }
    }
}

/// Equality of two optional strings, decided on the models.
pub fn opt_string_eq(a: &Option<String>, b: &Option<String>) -> (r: bool)
    ensures
        r == (a.deep_view() == b.deep_view()),
{
    match a {
        Some(x) => match b {
            Some(y) => *x == *y,
            None => false,
        },
        None => match b {
            Some(_) => false,
            None => true,
        },
    }
}

/// Structural equality of two reaction records.
pub fn reactions_eq(a: &GithubReactions, b: &GithubReactions) -> (r: bool)
    ensures
        r == (a.deep_view() == b.deep_view()),
{
    a.url == b.url && a.total_count == b.total_count && a.plus_one == b.plus_one
        && a.minus_one == b.minus_one && a.laugh == b.laugh && a.hooray == b.hooray
        && a.confused == b.confused && a.heart == b.heart && a.rocket == b.rocket
        && a.eyes == b.eyes
}

/// Structural equality of two account records.
pub fn user_eq(a: &GithubUser, b: &GithubUser) -> (r: bool)
    ensures
        r == (a.deep_view() == b.deep_view()),
{
    a.login == b.login && a.id == b.id && a.node_id == b.node_id
        && a.avatar_url == b.avatar_url && a.gravatar_id == b.gravatar_id && a.url == b.url
        && a.html_url == b.html_url && a.followers_url == b.followers_url
        && a.following_url == b.following_url && a.gists_url == b.gists_url
        && a.starred_url == b.starred_url && a.subscriptions_url == b.subscriptions_url
        && a.organizations_url == b.organizations_url && a.repos_url == b.repos_url
        && a.events_url == b.events_url && a.received_events_url == b.received_events_url
        && a.user_type == b.user_type && a.site_admin == b.site_admin
}

/// Structural equality of two label records.
pub fn label_eq(a: &GithubLabel, b: &GithubLabel) -> (r: bool)
    ensures
        r == (a.deep_view() == b.deep_view()),
{
    a.id == b.id && a.node_id == b.node_id && a.url == b.url && a.name == b.name
        && a.color == b.color && a.default == b.default
        && opt_string_eq(&a.description, &b.description)
}

/// Structural equality of two milestone records.
pub fn milestone_eq(a: &GithubMilestone, b: &GithubMilestone) -> (r: bool)
    ensures
        r == (a.deep_view() == b.deep_view()),
{
    a.url == b.url && a.html_url == b.html_url && a.labels_url == b.labels_url && a.id == b.id
        && a.node_id == b.node_id && a.number == b.number && a.state == b.state
        && a.title == b.title && opt_string_eq(&a.description, &b.description)
        && user_eq(&a.creator, &b.creator) && a.open_issues == b.open_issues
        && a.closed_issues == b.closed_issues && a.created_at == b.created_at
        && a.updated_at == b.updated_at && opt_string_eq(&a.closed_at, &b.closed_at)
        && opt_string_eq(&a.due_on, &b.due_on)
}

/// Structural equality of two pull-request records.
pub fn pull_request_eq(a: &GithubPullRequest, b: &GithubPullRequest) -> (r: bool)
    ensures
        r == (a.deep_view() == b.deep_view()),
{
    a.url == b.url && a.html_url == b.html_url && a.diff_url == b.diff_url
        && a.patch_url == b.patch_url && opt_string_eq(&a.merged_at, &b.merged_at)
}

/// Structural equality of two assignee lists.
pub fn users_eq(a: &Vec<GithubUser>, b: &Vec<GithubUser>) -> (r: bool)
    ensures
        r == (a.deep_view() == b.deep_view()),
{
    if a.len() != b.len() {
        proof {
            assert(a.deep_view().len() == a@.len());
            assert(b.deep_view().len() == b@.len());
        }
        return false;
    }
    for i in 0..a.len()
        invariant
            a.len() == b.len(),
            forall|j: int| 0 <= j < i ==> a.deep_view()[j] == b.deep_view()[j],
    {
        if !user_eq(&a[i], &b[i]) {
            assert(a.deep_view()[i as int] != b.deep_view()[i as int]);
            return false;
        }
    }
    proof {
        assert(a.deep_view() =~= b.deep_view());
    }
    true
}

/// Structural equality of two label lists.
pub fn labels_eq(a: &Vec<GithubLabel>, b: &Vec<GithubLabel>) -> (r: bool)
    ensures
        r == (a.deep_view() == b.deep_view()),
{
    if a.len() != b.len() {
        proof {
            assert(a.deep_view().len() == a@.len());
            assert(b.deep_view().len() == b@.len());
        }
        return false;
    }
    for i in 0..a.len()
        invariant
            a.len() == b.len(),
            forall|j: int| 0 <= j < i ==> a.deep_view()[j] == b.deep_view()[j],
    {
        if !label_eq(&a[i], &b[i]) {
            assert(a.deep_view()[i as int] != b.deep_view()[i as int]);
            return false;
        }
    }
    proof {
        assert(a.deep_view() =~= b.deep_view());
    }
    true
}

/// Equality of two optional milestones.
pub fn opt_milestone_eq(a: &Option<GithubMilestone>, b: &Option<GithubMilestone>) -> (r: bool)
    ensures
        r == (a.deep_view() == b.deep_view()),
{
    match a {
        Some(x) => match b {
            Some(y) => milestone_eq(x, y),
            None => false,
        },
        None => match b {
            Some(_) => false,
            None => true,
        },
    }
}

/// Equality of two optional pull-request records.
pub fn opt_pull_request_eq(a: &Option<GithubPullRequest>, b: &Option<GithubPullRequest>) -> (r:
    bool)
    ensures
        r == (a.deep_view() == b.deep_view()),
{
    match a {
        Some(x) => match b {
            Some(y) => pull_request_eq(x, y),
            None => false,
        },
        None => match b {
            Some(_) => false,
            None => true,
        },
    }
}

/// Structural equality of two outlines: true exactly when every
/// field matches, volatile fields included. This is the whole of the
/// change-detection mechanism; no field is excluded from comparison.
pub fn outline_eq(a: &GithubIssueOutline, b: &GithubIssueOutline) -> (r: bool)
    ensures
        r == (a.deep_view() == b.deep_view()),
{
    a.title == b.title && a.number == b.number && a.url == b.url
        && users_eq(&a.assignees, &b.assignees) && opt_milestone_eq(&a.milestone, &b.milestone)
        && a.state == b.state && opt_string_eq(&a.body, &b.body) && a.created_at == b.created_at
        && a.updated_at == b.updated_at && opt_string_eq(&a.closed_at, &b.closed_at)
        && opt_string_eq(&a.closed_by, &b.closed_by)
        && opt_string_eq(&a.state_reason, &b.state_reason)
        && a.comments_count == b.comments_count && a.comments_url == b.comments_url
        && a.events_url == b.events_url && a.html_url == b.html_url
        && a.labels_url == b.labels_url && a.repository_url == b.repository_url && a.id == b.id
        && a.locked == b.locked && user_eq(&a.user, &b.user) && labels_eq(&a.labels, &b.labels)
        && reactions_eq(&a.reactions, &b.reactions) && a.timeline_url == b.timeline_url
        && opt_string_eq(&a.performed_via_github_app, &b.performed_via_github_app)
        && opt_pull_request_eq(&a.pull_request, &b.pull_request)
}

} // verus!
