//! Run-level guarantees of the sync machine.
//!
//! [`run_actions`] folds [`step_model`] over a whole sequence of
//! reported outcomes and collects the transfer requested at each
//! step. The proofs below pin down the behaviours a sync run owes:
//! a run over an up-to-date store writes nothing; any changed or
//! missing outline is written and followed by a full comment
//! re-fetch from page one; an empty issue page ends the run with no
//! further request of any kind; a failed fetch aborts the run before
//! any later write.

use vstd::prelude::*;
use crate::data::{CommentModel, OutlineModel};
use crate::paths::{comments_file_name, in_data_dir};
use crate::sync::{
    ActionModel, EventModel, StateModel, advance_model, outline_file_name_of, step_model,
    update_needed,
};

verus! {

/// True of a requested transfer that writes to the local store.
pub open spec fn is_write_action(a: Option<ActionModel>) -> bool {
    match a {
        Some(x) => x is WriteOutline || x is WriteCommentPage,
        None => false,
    }
}

/// The transfers requested during a run that starts in `s` and is
/// fed `events`, one outcome at a time, in order.
pub open spec fn run_actions(data_dir: Seq<char>, s: StateModel, events: Seq<EventModel>) -> Seq<
    Option<ActionModel>,
>
    decreases events.len(),
{
    if events.len() == 0 {
        Seq::empty()
    } else {
        seq![step_model(data_dir, s, events[0]).1] + run_actions(
            data_dir,
            step_model(data_dir, s, events[0]).0,
            events.drop_first(),
        )
    }
}

/// A run requests exactly one transfer (possibly none) per outcome.
pub proof fn lemma_run_actions_len(data_dir: Seq<char>, s: StateModel, events: Seq<EventModel>)
    ensures
        run_actions(data_dir, s, events).len() == events.len(),
    decreases events.len(),
{
    if events.len() > 0 {
        lemma_run_actions_len(data_dir, step_model(data_dir, s, events[0]).0, events.drop_first());
    }
}

/// A run that has ended, normally or on an error, reacts to nothing:
/// the state stays as it is and no transfer is requested.
pub proof fn lemma_terminal_state_absorbs(data_dir: Seq<char>, s: StateModel, e: EventModel)
    requires
        s is Finished || s is Failed,
    ensures
        step_model(data_dir, s, e).0 == s,
        step_model(data_dir, s, e).1 is None,
{
}

/// From an ended run, no sequence of outcomes draws any further
/// transfer request.
pub proof fn lemma_terminal_run_silent(data_dir: Seq<char>, s: StateModel, events: Seq<EventModel>)
    requires
        s is Finished || s is Failed,
    ensures
        forall|k: int|
            0 <= k < events.len() ==> run_actions(data_dir, s, events)[k] is None,
    decreases events.len(),
{
    if events.len() > 0 {
        lemma_terminal_state_absorbs(data_dir, s, events[0]);
        lemma_terminal_run_silent(data_dir, s, events.drop_first());
        lemma_run_actions_len(data_dir, s, events.drop_first());
        assert forall|k: int| 0 <= k < events.len() implies run_actions(data_dir, s, events)[k]
            is None by {
            if k > 0 {
                assert(run_actions(data_dir, s, events)[k] == run_actions(
                    data_dir,
                    s,
                    events.drop_first(),
                )[k - 1]);
            }
        }
    }
}

/// Fatal propagation: a failed page fetch (network failure,
/// non-success status, or an undecodable body) aborts the run at
/// once, and nothing is written from that point on, whatever
/// outcomes are still reported.
pub proof fn lemma_fatal_propagation(data_dir: Seq<char>, s: StateModel, events: Seq<EventModel>)
    requires
        s is AwaitIssues || s is AwaitComments,
        events.len() > 0,
        events[0] is FetchFailed,
    ensures
        step_model(data_dir, s, events[0]).0 is Failed,
        forall|k: int|
            0 <= k < events.len() ==> !is_write_action(run_actions(data_dir, s, events)[k]),
{
    let s2 = step_model(data_dir, s, events[0]).0;
    lemma_terminal_run_silent(data_dir, s2, events.drop_first());
    lemma_run_actions_len(data_dir, s2, events.drop_first());
    assert forall|k: int| 0 <= k < events.len() implies !is_write_action(
        run_actions(data_dir, s, events)[k],
    ) by {
        if k > 0 {
            assert(run_actions(data_dir, s, events)[k] == run_actions(
                data_dir,
                s2,
                events.drop_first(),
            )[k - 1]);
        }
    }
}

/// A state in which no write has been decided on: the machine is
/// between issues, waiting for a page or for a stored outline, or
/// the run has ended.
pub open spec fn quiescent(s: StateModel) -> bool {
    s is AwaitIssues || s is AwaitStored || s is Finished || s is Failed
}

/// True when every stored outline the run gets to read is exactly
/// the outline just fetched for the same issue — the local store
/// already reflects the upstream state, as after a completed run
/// with no upstream changes since.
pub open spec fn store_up_to_date(data_dir: Seq<char>, s: StateModel, events: Seq<EventModel>) -> bool
    decreases events.len(),
{
    events.len() == 0 || {
        let answered = match (s, events[0]) {
            (
                StateModel::AwaitStored { current, .. },
                EventModel::Stored { outline },
            ) => outline == Some(current),
            _ => true,
        };
        answered && store_up_to_date(
            data_dir,
            step_model(data_dir, s, events[0]).0,
            events.drop_first(),
        )
    }
}

/// Idempotence of the decision rule: an outline equal to the stored
/// one needs no update.
pub proof fn lemma_identical_outline_needs_no_update(o: OutlineModel)
    ensures
        !update_needed(Some(o), o),
{
}

/// Idempotence of a whole run: started between issues against a
/// store that already reflects upstream, a run performs zero writes
/// — every issue's decision comes out "no update needed".
pub proof fn lemma_up_to_date_run_writes_nothing(
    data_dir: Seq<char>,
    s: StateModel,
    events: Seq<EventModel>,
)
    requires
        quiescent(s),
        store_up_to_date(data_dir, s, events),
    ensures
        forall|k: int|
            0 <= k < events.len() ==> !is_write_action(run_actions(data_dir, s, events)[k]),
    decreases events.len(),
{
    if events.len() > 0 {
        let s2 = step_model(data_dir, s, events[0]).0;
        assert(quiescent(s2) && !is_write_action(step_model(data_dir, s, events[0]).1));
        lemma_up_to_date_run_writes_nothing(data_dir, s2, events.drop_first());
        lemma_run_actions_len(data_dir, s2, events.drop_first());
        assert forall|k: int| 0 <= k < events.len() implies !is_write_action(
            run_actions(data_dir, s, events)[k],
        ) by {
            if k > 0 {
                assert(run_actions(data_dir, s, events)[k] == run_actions(
                    data_dir,
                    s2,
                    events.drop_first(),
                )[k - 1]);
            }
        }
    }
}

/// Change sensitivity: a stored outline that differs from the
/// fetched one in any field makes the machine write the fetched
/// outline, to the file its category and number dictate — and the
/// moment that write is confirmed, a full comment re-fetch starts at
/// page one.
pub proof fn lemma_change_triggers_full_update(
    data_dir: Seq<char>,
    page: u32,
    current: OutlineModel,
    rest: Seq<OutlineModel>,
    stored: OutlineModel,
)
    requires
        stored != current,
    ensures
        ({
            let r = step_model(
                data_dir,
                StateModel::AwaitStored { page, current, rest },
                EventModel::Stored { outline: Some(stored) },
            );
            &&& r.0 == (StateModel::AwaitOutlineWrite { page, number: current.number, rest })
            &&& r.1 == Some(
                ActionModel::WriteOutline {
                    path: in_data_dir(data_dir, outline_file_name_of(current)),
                    outline: current,
                },
            )
            &&& step_model(data_dir, r.0, EventModel::OutlineWritten).1 == Some(
                ActionModel::FetchComments { number: current.number, page: 1u32 },
            )
        }),
{
}

/// First sync: an issue with no stored outline is always updated,
/// outline write first, full comment fetch after.
pub proof fn lemma_first_sync_always_updates(
    data_dir: Seq<char>,
    page: u32,
    current: OutlineModel,
    rest: Seq<OutlineModel>,
)
    ensures
        ({
            let r = step_model(
                data_dir,
                StateModel::AwaitStored { page, current, rest },
                EventModel::Stored { outline: None },
            );
            &&& r.0 == (StateModel::AwaitOutlineWrite { page, number: current.number, rest })
            &&& r.1 == Some(
                ActionModel::WriteOutline {
                    path: in_data_dir(data_dir, outline_file_name_of(current)),
                    outline: current,
                },
            )
            &&& step_model(data_dir, r.0, EventModel::OutlineWritten).1 == Some(
                ActionModel::FetchComments { number: current.number, page: 1u32 },
            )
        }),
{
}

/// Pagination termination: an issue page that comes back empty ends
/// the run at once, and no transfer of any kind — in particular no
/// request for a further page — is made afterwards.
pub proof fn lemma_empty_page_ends_run(data_dir: Seq<char>, page: u32, events: Seq<EventModel>)
    requires
        events.len() > 0,
        events[0] == (EventModel::IssuesPage { issues: Seq::<OutlineModel>::empty() }),
    ensures
        step_model(data_dir, StateModel::AwaitIssues { page }, events[0]).0 is Finished,
        forall|k: int|
            0 <= k < events.len() ==> run_actions(
                data_dir,
                StateModel::AwaitIssues { page },
                events,
            )[k] is None,
{
    let s = StateModel::AwaitIssues { page };
    let s2 = step_model(data_dir, s, events[0]).0;
    lemma_terminal_run_silent(data_dir, s2, events.drop_first());
    lemma_run_actions_len(data_dir, s2, events.drop_first());
    assert forall|k: int| 0 <= k < events.len() implies run_actions(data_dir, s, events)[k]
        is None by {
        if k > 0 {
            assert(run_actions(data_dir, s, events)[k] == run_actions(
                data_dir,
                s2,
                events.drop_first(),
            )[k - 1]);
        }
    }
}

/// Comment page persistence: while an issue is being updated, every
/// non-empty comment page is written to its own file, named after
/// the issue number and the page index; the first empty page ends
/// the comment fetch with no write, and the machine turns to the
/// next issue.
pub proof fn lemma_comment_page_persistence(
    data_dir: Seq<char>,
    page: u32,
    number: u64,
    comment_page: u32,
    rest: Seq<OutlineModel>,
    comments: Seq<CommentModel>,
)
    ensures
        ({
            let r = step_model(
                data_dir,
                StateModel::AwaitComments { page, number, comment_page, rest },
                EventModel::CommentsPage { comments },
            );
            &&& comments.len() > 0 ==> r == (
                StateModel::AwaitCommentWrite { page, number, comment_page, rest },
                Some(
                    ActionModel::WriteCommentPage {
                        path: in_data_dir(
                            data_dir,
                            comments_file_name(number as nat, comment_page as nat),
                        ),
                        comments,
                    },
                ),
            )
            &&& comments.len() == 0 ==> r == advance_model(data_dir, page, rest)
                && !is_write_action(r.1)
        }),
{
}

/// The local outline store, as the run sees it: file name to the
/// outline stored under it. Comment-page files live under names of
/// their own and never answer an outline read, so the store model
/// carries the outline entries alone.
pub open spec fn store_has(store: Map<Seq<char>, OutlineModel>, o: OutlineModel) -> bool {
    store.contains_key(outline_file_name_of(o)) && store[outline_file_name_of(o)] == o
}

/// The issue page numbered `page` (pages count from one); past the
/// last page the upstream endpoint answers with an empty array.
pub open spec fn page_at(pages: Seq<Seq<OutlineModel>>, page: u32) -> Seq<OutlineModel> {
    if 1 <= page <= pages.len() {
        pages[page - 1]
    } else {
        Seq::empty()
    }
}

/// The comment page `page` of issue `number`; absent keys stand for
/// empty pages.
pub open spec fn comments_at(
    comments: Map<(u64, u32), Seq<CommentModel>>,
    number: u64,
    page: u32,
) -> Seq<CommentModel> {
    if comments.contains_key((number, page)) {
        comments[(number, page)]
    } else {
        Seq::empty()
    }
}

/// `o` is one of the outlines the upstream returns.
pub open spec fn appears(pages: Seq<Seq<OutlineModel>>, o: OutlineModel) -> bool {
    exists|p: int, j: int|
        0 <= p < pages.len() && 0 <= j < pages[p].len() && pages[p][j] == o
}

/// No two distinct upstream outlines share an outline file name (as
/// holds upstream, where an issue number names one issue).
pub open spec fn distinct_file_names(pages: Seq<Seq<OutlineModel>>) -> bool {
    forall|o1: OutlineModel, o2: OutlineModel|
        #[trigger] appears(pages, o1) && #[trigger] appears(pages, o2)
            && outline_file_name_of(o1) == outline_file_name_of(o2) ==> o1 == o2
}

/// Every page the upstream serves is non-empty (the empty page is
/// the end marker, never followed by content).
pub open spec fn all_pages_nonempty(pages: Seq<Seq<OutlineModel>>) -> bool {
    forall|p: int| 0 <= p < pages.len() ==> #[trigger] pages[p].len() > 0
}

/// The store holds every upstream outline, each under its file
/// name: the picture after a completed run with nothing changed
/// since.
pub open spec fn synced_all(store: Map<Seq<char>, OutlineModel>, pages: Seq<Seq<OutlineModel>>) -> bool {
    forall|o: OutlineModel| #[trigger] appears(pages, o) ==> store_has(store, o)
}

/// A run has ended.
pub open spec fn terminal(s: StateModel) -> bool {
    s is Finished || s is Failed
}

/// The outcome a faithful environment reports for the transfer the
/// machine is waiting on: issue pages and comment pages as the
/// upstream has them, stored outlines as the store has them, every
/// write succeeding.
pub open spec fn env_event(
    s: StateModel,
    store: Map<Seq<char>, OutlineModel>,
    pages: Seq<Seq<OutlineModel>>,
    comments: Map<(u64, u32), Seq<CommentModel>>,
) -> EventModel {
    match s {
        StateModel::AwaitIssues { page } => EventModel::IssuesPage { issues: page_at(pages, page) },
        StateModel::AwaitStored { current, .. } => EventModel::Stored {
            outline: if store.contains_key(outline_file_name_of(current)) {
                Some(store[outline_file_name_of(current)])
            } else {
                None
            },
        },
        StateModel::AwaitOutlineWrite { .. } => EventModel::OutlineWritten,
        StateModel::AwaitComments { number, comment_page, .. } => EventModel::CommentsPage {
            comments: comments_at(comments, number, comment_page),
        },
        StateModel::AwaitCommentWrite { .. } => EventModel::CommentPageWritten,
        _ => EventModel::FetchFailed,
    }
}

/// How a performed transfer changes the outline store: an outline
/// write replaces the entry under its file name, everything else
/// leaves the store alone.
pub open spec fn apply_action(
    store: Map<Seq<char>, OutlineModel>,
    a: Option<ActionModel>,
) -> Map<Seq<char>, OutlineModel> {
    match a {
        Some(ActionModel::WriteOutline { outline, .. }) => store.insert(
            outline_file_name_of(outline),
            outline,
        ),
        _ => store,
    }
}

/// A whole run against a faithful environment, bounded by `fuel`
/// steps: the state it ends in, the store it leaves behind, and how
/// many writes (outline or comment page) it performed.
pub open spec fn env_run(
    data_dir: Seq<char>,
    s: StateModel,
    store: Map<Seq<char>, OutlineModel>,
    pages: Seq<Seq<OutlineModel>>,
    comments: Map<(u64, u32), Seq<CommentModel>>,
    fuel: nat,
) -> (StateModel, Map<Seq<char>, OutlineModel>, nat)
    decreases fuel,
{
    if fuel == 0 || terminal(s) {
        (s, store, 0)
    } else {
        let e = env_event(s, store, pages, comments);
        let s2 = step_model(data_dir, s, e).0;
        let a = step_model(data_dir, s, e).1;
        let rec = env_run(data_dir, s2, apply_action(store, a), pages, comments, (fuel - 1) as nat);
        (rec.0, rec.1, if is_write_action(a) { (rec.2 + 1) as nat } else { rec.2 })
    }
}

/// `needle` is the suffix of `hay` that starts at `i`.
pub open spec fn suffix_from(hay: Seq<OutlineModel>, i: int, needle: Seq<OutlineModel>) -> bool {
    0 <= i <= hay.len() && needle == hay.skip(i)
}

/// The first `i` outlines of `hay` are in the store.
pub open spec fn prefix_done(store: Map<Seq<char>, OutlineModel>, hay: Seq<OutlineModel>, i: int) -> bool {
    forall|j: int| 0 <= j < i ==> store_has(store, #[trigger] hay[j])
}

/// Every outline of every page before `page` is in the store.
pub open spec fn prior_pages_done(
    store: Map<Seq<char>, OutlineModel>,
    pages: Seq<Seq<OutlineModel>>,
    page: u32,
) -> bool {
    forall|p: int, j: int|
        0 <= p < page - 1 && p < pages.len() && 0 <= j < pages[p].len() ==> store_has(
            store,
            #[trigger] pages[p][j],
        )
}

/// The queue in hand is a suffix of the page under processing, and
/// everything on that page before it is already stored.
pub open spec fn pending_suffix_done(
    store: Map<Seq<char>, OutlineModel>,
    pages: Seq<Seq<OutlineModel>>,
    page: u32,
    queued: Seq<OutlineModel>,
) -> bool {
    exists|i: int|
        #[trigger] suffix_from(page_at(pages, page), i, queued)
            && prefix_done(store, page_at(pages, page), i)
}

/// What a run against a faithful environment maintains: everything
/// it has moved past is in the store, and what it still holds in
/// hand is a suffix of the page it is on. A finished run has the
/// whole upstream in the store.
pub open spec fn run_inv(
    store: Map<Seq<char>, OutlineModel>,
    pages: Seq<Seq<OutlineModel>>,
    s: StateModel,
) -> bool {
    match s {
        StateModel::AwaitIssues { page } => page >= 1 && prior_pages_done(store, pages, page),
        StateModel::AwaitStored { page, current, rest } => prior_pages_done(store, pages, page)
            && pending_suffix_done(store, pages, page, seq![current] + rest),
        StateModel::AwaitOutlineWrite { page, number, rest } => prior_pages_done(store, pages, page)
            && pending_suffix_done(store, pages, page, rest),
        StateModel::AwaitComments { page, number, comment_page, rest } => prior_pages_done(
            store,
            pages,
            page,
        ) && pending_suffix_done(store, pages, page, rest),
        StateModel::AwaitCommentWrite { page, number, comment_page, rest } => prior_pages_done(
            store,
            pages,
            page,
        ) && pending_suffix_done(store, pages, page, rest),
        StateModel::Finished => synced_all(store, pages),
        StateModel::Failed { .. } => true,
    }
}

/// Writing one upstream outline to the store disturbs no other
/// upstream outline's entry: distinct upstream outlines live under
/// distinct file names.
proof fn lemma_insert_preserves_store_has(
    store: Map<Seq<char>, OutlineModel>,
    pages: Seq<Seq<OutlineModel>>,
    stored: OutlineModel,
    inserted: OutlineModel,
)
    requires
        distinct_file_names(pages),
        appears(pages, stored),
        appears(pages, inserted),
        store_has(store, stored),
    ensures
        store_has(store.insert(outline_file_name_of(inserted), inserted), stored),
{
    if outline_file_name_of(stored) == outline_file_name_of(inserted) {
        assert(stored == inserted);
    }
}

/// Once the run is past every upstream page, "everything moved past
/// is stored" is the whole upstream.
proof fn lemma_prior_covers_all(
    store: Map<Seq<char>, OutlineModel>,
    pages: Seq<Seq<OutlineModel>>,
    page: u32,
)
    requires
        prior_pages_done(store, pages, page),
        page > pages.len(),
    ensures
        synced_all(store, pages),
{
    assert forall|o: OutlineModel| appears(pages, o) implies store_has(store, o) by {
        let (p, j): (int, int) = choose|p: int, j: int|
            0 <= p < pages.len() && 0 <= j < pages[p].len() && pages[p][j] == o;
        assert(store_has(store, pages[p][j]));
    }
}

/// Turning to the next outline or the next page keeps the run
/// invariant, provided everything before the remaining queue is
/// already stored.
#[verifier::rlimit(50)]
proof fn lemma_advance_keeps_inv(
    data_dir: Seq<char>,
    store: Map<Seq<char>, OutlineModel>,
    pages: Seq<Seq<OutlineModel>>,
    page: u32,
    rest: Seq<OutlineModel>,
    i: int,
)
    requires
        all_pages_nonempty(pages),
        pages.len() + 1 < u32::MAX,
        prior_pages_done(store, pages, page),
        suffix_from(page_at(pages, page), i, rest),
        prefix_done(store, page_at(pages, page), i),
    ensures
        run_inv(store, pages, advance_model(data_dir, page, rest).0),
        !is_write_action(advance_model(data_dir, page, rest).1),
{
    let hay = page_at(pages, page);
    if rest.len() > 0 {
        assert(advance_model(data_dir, page, rest).0 == (StateModel::AwaitStored {
            page,
            current: rest[0],
            rest: rest.drop_first(),
        }));
        assert(seq![rest[0]] + rest.drop_first() == rest) by {
            assert(seq![rest[0]] + rest.drop_first() =~= rest);
        }
        assert(pending_suffix_done(store, pages, page, rest)) by {
            assert(suffix_from(page_at(pages, page), i, rest) && prefix_done(
                store,
                page_at(pages, page),
                i,
            ));
        }
        assert(run_inv(store, pages, advance_model(data_dir, page, rest).0));
    } else {
        assert(i == hay.len());
        if page < u32::MAX {
            assert(advance_model(data_dir, page, rest).0 == (StateModel::AwaitIssues {
                page: (page + 1) as u32,
            }));
            assert forall|p: int, j: int|
                0 <= p < page + 1 - 1 && p < pages.len() && 0 <= j < pages[p].len() implies store_has(
                store,
                pages[p][j],
            ) by {
                if p < page - 1 {
                    assert(store_has(store, pages[p][j]));
                } else {
                    assert(p == page - 1);
                    assert(hay == pages[p]);
                    assert(store_has(store, hay[j]));
                }
            }
            assert(prior_pages_done(store, pages, (page + 1) as u32));
            assert(run_inv(store, pages, advance_model(data_dir, page, rest).0));
        } else {
            assert(advance_model(data_dir, page, rest).0 is Finished);
            assert(page > pages.len());
            lemma_prior_covers_all(store, pages, page);
            assert(run_inv(store, pages, advance_model(data_dir, page, rest).0));
        }
    }
}

/// One faithful step keeps the run invariant.
#[verifier::rlimit(50)]
proof fn lemma_env_step_keeps_inv(
    data_dir: Seq<char>,
    s: StateModel,
    store: Map<Seq<char>, OutlineModel>,
    pages: Seq<Seq<OutlineModel>>,
    comments: Map<(u64, u32), Seq<CommentModel>>,
)
    requires
        all_pages_nonempty(pages),
        pages.len() + 1 < u32::MAX,
        distinct_file_names(pages),
        run_inv(store, pages, s),
        !terminal(s),
    ensures
        ({
            let e = env_event(s, store, pages, comments);
            run_inv(
                apply_action(store, step_model(data_dir, s, e).1),
                pages,
                step_model(data_dir, s, e).0,
            )
        }),
{
    let e = env_event(s, store, pages, comments);
    let s2 = step_model(data_dir, s, e).0;
    let a = step_model(data_dir, s, e).1;
    let store2 = apply_action(store, a);
    match s {
        StateModel::AwaitIssues { page } => {
            let hay = page_at(pages, page);
            if hay.len() == 0 {
                assert(page > pages.len()) by {
                    if 1 <= page <= pages.len() {
                        assert(pages[page - 1].len() > 0);
                    }
                }
                lemma_prior_covers_all(store, pages, page);
            } else {
                assert(hay.skip(0) =~= hay);
                assert(seq![hay[0]] + hay.drop_first() =~= hay);
                assert(suffix_from(hay, 0, seq![hay[0]] + hay.drop_first()));
                assert(prefix_done(store, hay, 0));
            }
        },
        StateModel::AwaitStored { page, current, rest } => {
            let hay = page_at(pages, page);
            let i = choose|i: int|
                #[trigger] suffix_from(hay, i, seq![current] + rest) && prefix_done(store, hay, i);
            assert(suffix_from(hay, i, seq![current] + rest) && prefix_done(store, hay, i));
            assert((seq![current] + rest).len() == 1 + rest.len());
            assert(i < hay.len());
            assert(current == (seq![current] + rest)[0]);
            assert(current == hay.skip(i)[0]);
            assert(current == hay[i]);
            assert(rest =~= hay.skip(i + 1)) by {
                assert forall|k: int| 0 <= k < rest.len() implies rest[k] == hay.skip(i + 1)[k] by {
                    assert(rest[k] == (seq![current] + rest)[k + 1]);
                    assert((seq![current] + rest)[k + 1] == hay.skip(i)[k + 1]);
                }
            }
            assert(1 <= page <= pages.len()) by {
                if !(1 <= page <= pages.len()) {
                    assert(hay.len() == 0);
                }
            }
            assert(appears(pages, current)) by {
                assert(pages[page - 1][i] == current);
            }
            if store_has(store, current) {
                // The stored outline matches the fetched one: no
                // update, the machine turns to the rest of the page.
                assert(e == (EventModel::Stored { outline: Some(current) }));
                assert(!update_needed(Some(current), current));
                assert(prefix_done(store, hay, i + 1)) by {
                    assert forall|j: int| 0 <= j < i + 1 implies store_has(store, hay[j]) by {
                        if j == i {
                            assert(store_has(store, current));
                        }
                    }
                }
                assert(suffix_from(hay, i + 1, rest));
                lemma_advance_keeps_inv(data_dir, store, pages, page, rest, i + 1);
                assert(run_inv(store2, pages, s2));
            } else {
                // Missing or different: the machine writes the fetched
                // outline, and the store takes it under its file name.
                assert(store2 == store.insert(outline_file_name_of(current), current));
                assert forall|p: int, j: int|
                    0 <= p < page - 1 && p < pages.len() && 0 <= j < pages[p].len() implies store_has(
                    store2,
                    pages[p][j],
                ) by {
                    assert(store_has(store, pages[p][j]));
                    assert(appears(pages, pages[p][j]));
                    lemma_insert_preserves_store_has(store, pages, pages[p][j], current);
                }
                assert(prefix_done(store2, hay, i + 1)) by {
                    assert forall|j: int| 0 <= j < i + 1 implies store_has(store2, hay[j]) by {
                        if j < i {
                            assert(store_has(store, hay[j]));
                            assert(appears(pages, hay[j])) by {
                                assert(pages[page - 1][j] == hay[j]);
                            }
                            lemma_insert_preserves_store_has(store, pages, hay[j], current);
                        } else {
                            assert(hay[j] == current);
                        }
                    }
                }
                assert(pending_suffix_done(store2, pages, page, rest)) by {
                    assert(suffix_from(page_at(pages, page), i + 1, rest) && prefix_done(
                        store2,
                        page_at(pages, page),
                        i + 1,
                    ));
                }
                assert(run_inv(store2, pages, s2));
            }
        },
        StateModel::AwaitOutlineWrite { page, number, rest } => {
            assert(store2 == store);
            assert(run_inv(store2, pages, s2));
        },
        StateModel::AwaitComments { page, number, comment_page, rest } => {
            let hay = page_at(pages, page);
            let i = choose|i: int|
                #[trigger] suffix_from(hay, i, rest) && prefix_done(store, hay, i);
            assert(suffix_from(hay, i, rest) && prefix_done(store, hay, i));
            if comments_at(comments, number, comment_page).len() == 0 {
                lemma_advance_keeps_inv(data_dir, store, pages, page, rest, i);
            }
            assert(store2 == store);
            assert(run_inv(store2, pages, s2));
        },
        StateModel::AwaitCommentWrite { page, number, comment_page, rest } => {
            let hay = page_at(pages, page);
            let i = choose|i: int|
                #[trigger] suffix_from(hay, i, rest) && prefix_done(store, hay, i);
            assert(suffix_from(hay, i, rest) && prefix_done(store, hay, i));
            if comment_page >= u32::MAX {
                lemma_advance_keeps_inv(data_dir, store, pages, page, rest, i);
            }
            assert(store2 == store);
            assert(run_inv(store2, pages, s2));
        },
        _ => {
        },
    }
}

/// A run against a faithful environment keeps its invariant to the
/// end; in particular, a run that finishes leaves the whole
/// upstream in the store.
pub proof fn lemma_env_run_keeps_inv(
    data_dir: Seq<char>,
    s: StateModel,
    store: Map<Seq<char>, OutlineModel>,
    pages: Seq<Seq<OutlineModel>>,
    comments: Map<(u64, u32), Seq<CommentModel>>,
    fuel: nat,
)
    requires
        all_pages_nonempty(pages),
        pages.len() + 1 < u32::MAX,
        distinct_file_names(pages),
        run_inv(store, pages, s),
    ensures
        run_inv(
            env_run(data_dir, s, store, pages, comments, fuel).1,
            pages,
            env_run(data_dir, s, store, pages, comments, fuel).0,
        ),
    decreases fuel,
{
    if fuel == 0 || terminal(s) {
    } else {
        let e = env_event(s, store, pages, comments);
        lemma_env_step_keeps_inv(data_dir, s, store, pages, comments);
        lemma_env_run_keeps_inv(
            data_dir,
            step_model(data_dir, s, e).0,
            apply_action(store, step_model(data_dir, s, e).1),
            pages,
            comments,
            (fuel - 1) as nat,
        );
    }
}

/// Every outline still queued came from the upstream pages.
pub open spec fn all_appear(pages: Seq<Seq<OutlineModel>>, queued: Seq<OutlineModel>) -> bool {
    forall|k: int| 0 <= k < queued.len() ==> appears(pages, #[trigger] queued[k])
}

/// What a run over an already-synced store passes through: only the
/// quiescent states, with everything in hand taken from upstream.
pub open spec fn synced_run_inv(pages: Seq<Seq<OutlineModel>>, s: StateModel) -> bool {
    match s {
        StateModel::AwaitIssues { page } => true,
        StateModel::AwaitStored { page, current, rest } => all_appear(pages, seq![current] + rest),
        StateModel::Finished => true,
        StateModel::Failed { .. } => true,
        _ => false,
    }
}

/// A run against a store that already holds the whole upstream
/// performs zero writes: every issue's decision comes out "no
/// update needed".
pub proof fn lemma_synced_run_writes_nothing(
    data_dir: Seq<char>,
    s: StateModel,
    store: Map<Seq<char>, OutlineModel>,
    pages: Seq<Seq<OutlineModel>>,
    comments: Map<(u64, u32), Seq<CommentModel>>,
    fuel: nat,
)
    requires
        synced_all(store, pages),
        synced_run_inv(pages, s),
    ensures
        env_run(data_dir, s, store, pages, comments, fuel).2 == 0,
    decreases fuel,
{
    if fuel == 0 || terminal(s) {
    } else {
        let e = env_event(s, store, pages, comments);
        let s2 = step_model(data_dir, s, e).0;
        let a = step_model(data_dir, s, e).1;
        match s {
            StateModel::AwaitIssues { page } => {
                let hay = page_at(pages, page);
                if hay.len() > 0 {
                    assert(1 <= page <= pages.len()) by {
                        if !(1 <= page <= pages.len()) {
                            assert(hay.len() == 0);
                        }
                    }
                    assert(seq![hay[0]] + hay.drop_first() =~= hay);
                    assert(all_appear(pages, seq![hay[0]] + hay.drop_first())) by {
                        assert forall|k: int| 0 <= k < hay.len() implies appears(pages, hay[k]) by {
                            assert(pages[page - 1][k] == hay[k]);
                        }
                    }
                }
                assert(!is_write_action(a));
                assert(apply_action(store, a) == store);
            },
            StateModel::AwaitStored { page, current, rest } => {
                assert(appears(pages, current)) by {
                    assert((seq![current] + rest)[0] == current);
                }
                assert(store_has(store, current));
                assert(e == (EventModel::Stored { outline: Some(current) }));
                assert(!update_needed(Some(current), current));
                if rest.len() > 0 {
                    assert(seq![rest[0]] + rest.drop_first() =~= rest);
                    assert(all_appear(pages, seq![rest[0]] + rest.drop_first())) by {
                        assert forall|k: int| 0 <= k < rest.len() implies appears(pages, rest[k]) by {
                            assert((seq![current] + rest)[k + 1] == rest[k]);
                        }
                    }
                }
                assert(!is_write_action(a));
                assert(apply_action(store, a) == store);
            },
            _ => {
                assert(false);
            },
        }
        lemma_synced_run_writes_nothing(data_dir, s2, store, pages, comments, (fuel - 1) as nat);
    }
}

/// Which pages a run may still ask for: between pages the next
/// request is at most one past the upstream content, and a page
/// under processing is real upstream content.
pub open spec fn page_bound(pages: Seq<Seq<OutlineModel>>, s: StateModel) -> bool {
    match s {
        StateModel::AwaitIssues { page } => page <= pages.len() + 1,
        StateModel::AwaitStored { page, .. } => page <= pages.len(),
        StateModel::AwaitOutlineWrite { page, .. } => page <= pages.len(),
        StateModel::AwaitComments { page, .. } => page <= pages.len(),
        StateModel::AwaitCommentWrite { page, .. } => page <= pages.len(),
        StateModel::Finished => true,
        StateModel::Failed { .. } => true,
    }
}

/// Pagination termination, in general form: against a faithful
/// environment the machine never asks for an issue page beyond the
/// one on which the upstream first answers with an empty array —
/// with two content pages, page three is requested, page four
/// never.
pub proof fn lemma_no_request_past_the_end(
    data_dir: Seq<char>,
    s: StateModel,
    store: Map<Seq<char>, OutlineModel>,
    pages: Seq<Seq<OutlineModel>>,
    comments: Map<(u64, u32), Seq<CommentModel>>,
)
    requires
        page_bound(pages, s),
        !terminal(s),
    ensures
        ({
            let e = env_event(s, store, pages, comments);
            &&& page_bound(pages, step_model(data_dir, s, e).0)
            &&& (step_model(data_dir, s, e).1 matches Some(a) ==> (a matches
                ActionModel::FetchIssues { page } ==> page <= pages.len() + 1))
        }),
{
    let e = env_event(s, store, pages, comments);
    match s {
        StateModel::AwaitIssues { page } => {
            let hay = page_at(pages, page);
            if hay.len() > 0 {
                assert(1 <= page <= pages.len()) by {
                    if !(1 <= page <= pages.len()) {
                        assert(hay.len() == 0);
                    }
                }
            }
        },
        _ => {
        },
    }
}

/// Idempotence of the whole pipeline: when a run completes, the
/// local store holds exactly what upstream serves; a second run
/// against that store, with nothing changed upstream, performs zero
/// writes. Upstream is assumed well-behaved: no two listed outlines
/// share a file name, and the empty page comes only at the end.
pub proof fn lemma_two_runs_idempotent(
    data_dir: Seq<char>,
    store: Map<Seq<char>, OutlineModel>,
    pages: Seq<Seq<OutlineModel>>,
    comments: Map<(u64, u32), Seq<CommentModel>>,
    first_fuel: nat,
    second_fuel: nat,
)
    requires
        all_pages_nonempty(pages),
        pages.len() + 1 < u32::MAX,
        distinct_file_names(pages),
        env_run(
            data_dir,
            StateModel::AwaitIssues { page: 1 },
            store,
            pages,
            comments,
            first_fuel,
        ).0 is Finished,
    ensures
        env_run(
            data_dir,
            StateModel::AwaitIssues { page: 1 },
            env_run(
                data_dir,
                StateModel::AwaitIssues { page: 1 },
                store,
                pages,
                comments,
                first_fuel,
            ).1,
            pages,
            comments,
            second_fuel,
        ).2 == 0,
{
    let start = StateModel::AwaitIssues { page: 1 };
    assert(run_inv(store, pages, start));
    lemma_env_run_keeps_inv(data_dir, start, store, pages, comments, first_fuel);
    let store_after = env_run(data_dir, start, store, pages, comments, first_fuel).1;
    assert(synced_all(store_after, pages));
    lemma_synced_run_writes_nothing(data_dir, start, store_after, pages, comments, second_fuel);
}

} // verus!
