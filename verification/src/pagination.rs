//! Walking the favorites page by page, newest first, until a page comes back
//! empty or one page was all that was asked for.
//!
//! The controller decides; its caller performs. Each step it hands out the
//! actions to perform, in order, and takes back the page that the endpoint
//! answered with.

use vstd::prelude::*;
use crate::download::{completed, completed_count, lemma_none_failed_all_counted, DownloadOutcome};
use crate::media::{
    downloads, downloads_of, extract_media, four_assets, is_photo_post, is_video_post,
    lemma_two_photos_and_a_video_are_four_assets, page_references, post_views, reference_views,
    MediaReference, MediaReferenceView, Post, PostView,
};
use crate::protocol::{Page, PageView, ProtocolError};

verus! {

/// Posts asked for per page: the most that the endpoint gives.
pub const PAGE_SIZE: u8 = 200;

/// Seconds to wait once the window's quota is used up: the window's length.
pub const COOLDOWN_SECONDS: u64 = 900;

/// Whether the walk goes on.
#[derive(Clone, Copy, Debug, PartialEq, Eq, Structural)]
pub enum Phase {
    /// Another page is to be asked for.
    Fetching,
    /// The walk has ended, with success, and stays ended.
    Done,
}

/// Something for the caller to do.
#[derive(Debug, PartialEq, Eq)]
pub enum Action {
    /// Ask the account-settings endpoint for the account's handle.
    ResolveHandle,
    /// Ask for one page of that handle's favorites: at most `count` posts,
    /// none with an identifier above `max_id` where one is given.
    RequestPage { count: u8, max_id: Option<u64> },
    /// Download these, and go on when all of them have ended.
    Dispatch(Vec<MediaReference>),
    /// Do nothing for so long.
    Sleep { seconds: u64 },
}

/// An `Action` as contracts speak of it.
pub enum ActionView {
    ResolveHandle,
    RequestPage { count: u8, max_id: Option<u64> },
    Dispatch(Seq<MediaReferenceView>),
    Sleep { seconds: u64 },
}

impl View for Action {
    type V = ActionView;

    open spec fn view(&self) -> ActionView {
        match self {
            Action::ResolveHandle => ActionView::ResolveHandle,
            Action::RequestPage { count, max_id } => ActionView::RequestPage {
                count: *count,
                max_id: *max_id,
            },
            Action::Dispatch(references) => ActionView::Dispatch(reference_views(references@)),
            Action::Sleep { seconds } => ActionView::Sleep { seconds: *seconds },
        }
    }
}

/// Each action as contracts speak of it, in the same order.
pub open spec fn action_views(actions: Seq<Action>) -> Seq<ActionView> {
    actions.map_values(|a: Action| a@)
}

/// Where the walk stands. `cursor` is the identifier of the oldest post seen
/// so far, and 0 before any was seen. No post is older than post 0, so a
/// page that reaches it ends the walk: a walk that goes on with cursor 0 is
/// one that has seen nothing yet, and starts at the newest.
#[derive(Clone, Copy, Debug, PartialEq, Eq, Structural)]
pub struct PaginationController {
    pub phase: Phase,
    pub cursor: u64,
    pub scan_all: bool,
}

/// The bound of the next request: strictly older than the cursor, and none
/// before any post was seen.
pub open spec fn max_id_of(cursor: u64) -> Option<u64> {
    if cursor == 0 {
        None
    } else {
        Some((cursor - 1) as u64)
    }
}

/// No post is older than one that follows it.
pub open spec fn newest_first(posts: Seq<PostView>) -> bool {
    forall|i: int, j: int| 0 <= i < j < posts.len() ==> posts[i].id >= posts[j].id
}

/// The window allows no further call. A count below zero stands for a
/// response that named none, and is taken for none left.
pub open spec fn exhausted(remaining: i32) -> bool {
    remaining <= 0
}

/// What the controller asks for next.
pub open spec fn requests_of(state: PaginationController) -> Seq<ActionView> {
    match state.phase {
        Phase::Fetching => seq![
            ActionView::ResolveHandle,
            ActionView::RequestPage { count: PAGE_SIZE, max_id: max_id_of(state.cursor) },
        ],
        Phase::Done => Seq::empty(),
    }
}

/// What a page makes of the walk, and what is to be done about the page.
///
/// An empty page ends the walk. Any other page has its media downloaded
/// first; a wait follows where the quota is used up; the cursor moves to the
/// page's last post; and the walk ends unless all of the history was asked
/// for and something can be older than that post.
pub open spec fn step(state: PaginationController, page: PageView) -> Result<
    (PaginationController, Seq<ActionView>),
    ProtocolError,
> {
    if state.phase == Phase::Done {
        Ok((state, Seq::empty()))
    } else if page.posts.len() == 0 {
        Ok((PaginationController { phase: Phase::Done, ..state }, Seq::empty()))
    } else if !newest_first(page.posts) {
        Err(ProtocolError::OutOfOrder)
    } else {
        let next = PaginationController {
            phase: if state.scan_all && page.posts.last().id > 0 {
                Phase::Fetching
            } else {
                Phase::Done
            },
            cursor: page.posts.last().id,
            ..state
        };
        let dispatch = ActionView::Dispatch(downloads_of(page_references(page.posts)));
        if exhausted(page.remaining) {
            Ok((next, seq![dispatch, ActionView::Sleep { seconds: COOLDOWN_SECONDS }]))
        } else {
            Ok((next, seq![dispatch]))
        }
    }
}

/// Neighbours in order put the whole page in order.
pub proof fn lemma_neighbours_in_order(posts: Seq<PostView>)
    requires
        forall|k: int| 0 <= k < posts.len() - 1 ==> (#[trigger] posts[k]).id >= posts[k + 1].id,
    ensures
        newest_first(posts),
{
    assert forall|i: int, j: int| 0 <= i < j < posts.len() implies posts[i].id >= posts[j].id by {
        lemma_run_in_order(posts, i, j);
    }
}

proof fn lemma_run_in_order(posts: Seq<PostView>, i: int, j: int)
    requires
        forall|k: int| 0 <= k < posts.len() - 1 ==> (#[trigger] posts[k]).id >= posts[k + 1].id,
        0 <= i <= j < posts.len(),
    ensures
        posts[i].id >= posts[j].id,
    decreases j - i,
{
    if i < j {
        lemma_run_in_order(posts, i, j - 1);
    }
}

/// An empty page ends the walk, and nothing is downloaded for it.
pub proof fn lemma_empty_page_ends_walk(state: PaginationController, page: PageView)
    requires
        page.posts.len() == 0,
    ensures
        step(state, page) matches Ok(after) && after.0.phase == Phase::Done && after.1.len() == 0,
{
}

/// A page in order moves the cursor to its oldest post. Where the walk goes
/// on, the request after it asks for nothing but what is older still; and
/// it goes on only where all of the history was asked for and the oldest
/// post is not post 0, than which nothing is older.
pub proof fn lemma_cursor_moves_to_oldest(state: PaginationController, page: PageView)
    requires
        state.phase == Phase::Fetching,
        page.posts.len() > 0,
        newest_first(page.posts),
    ensures
        step(state, page) matches Ok(after) && {
            &&& after.0.cursor == page.posts.last().id
            &&& forall|i: int| 0 <= i < page.posts.len() ==> page.posts[i].id >= after.0.cursor
            &&& after.0.phase == Phase::Fetching <==> state.scan_all && page.posts.last().id > 0
            &&& after.0.phase == Phase::Fetching ==> requests_of(after.0) == seq![
                ActionView::ResolveHandle,
                ActionView::RequestPage {
                    count: PAGE_SIZE,
                    max_id: Some((page.posts.last().id - 1) as u64),
                },
            ]
            &&& after.0.phase == Phase::Done ==> requests_of(after.0).len() == 0
        },
{
}

/// Where a page comes with its quota used up, its media is downloaded
/// first, then comes one wait of the cooldown's length, and that is all.
pub proof fn lemma_exhausted_quota_waits_once(state: PaginationController, page: PageView)
    requires
        state.phase == Phase::Fetching,
        page.posts.len() > 0,
        newest_first(page.posts),
        exhausted(page.remaining),
    ensures
        step(state, page) matches Ok(after) && after.1 == seq![
            ActionView::Dispatch(downloads_of(page_references(page.posts))),
            ActionView::Sleep { seconds: COOLDOWN_SECONDS },
        ],
{
}

/// Where the endpoint keeps to the bound that it was given, a page moves the
/// cursor down, so that no post is asked for twice.
pub proof fn lemma_bounded_page_moves_cursor_down(state: PaginationController, page: PageView)
    requires
        state.phase == Phase::Fetching,
        page.posts.len() > 0,
        newest_first(page.posts),
        max_id_of(state.cursor) matches Some(bound) && forall|i: int|
            0 <= i < page.posts.len() ==> (#[trigger] page.posts[i]).id <= bound,
    ensures
        step(state, page) matches Ok(after) && after.0.cursor < state.cursor,
{
}

/// Where quota is left, a page is followed by no wait.
pub proof fn lemma_quota_left_waits_not(state: PaginationController, page: PageView)
    requires
        state.phase == Phase::Fetching,
        page.posts.len() > 0,
        newest_first(page.posts),
        !exhausted(page.remaining),
    ensures
        step(state, page) matches Ok(after) && after.1 == seq![
            ActionView::Dispatch(downloads_of(page_references(page.posts))),
        ],
{
}

/// A walk of the newest page only, over a page of three posts of which two
/// hold one photo each and one holds one video: what is handed out for
/// download is four assets, each photo, the video's thumbnail and its best
/// stream, each of them once; the walk is done with that page, and asks for
/// no further one. Where each of the four downloads ends without failure,
/// the count is four of four.
pub proof fn lemma_single_page_run(
    state: PaginationController,
    page: PageView,
    first_photo: int,
    second_photo: int,
    video: int,
    photo_one: Seq<char>,
    photo_two: Seq<char>,
    thumbnail: Seq<char>,
    stream: Seq<char>,
    outcomes: Seq<DownloadOutcome>,
)
    requires
        state.phase == Phase::Fetching,
        !state.scan_all,
        page.posts.len() == 3,
        newest_first(page.posts),
        0 <= first_photo < 3 && 0 <= second_photo < 3 && 0 <= video < 3,
        first_photo != second_photo && first_photo != video && second_photo != video,
        is_photo_post(page.posts[first_photo], photo_one),
        is_photo_post(page.posts[second_photo], photo_two),
        is_video_post(page.posts[video], thumbnail, stream),
        outcomes.len() == 4,
        forall|i: int| 0 <= i < 4 ==> completed(#[trigger] outcomes[i]),
    ensures
        step(state, page) matches Ok(after) && {
            &&& after.0.phase == Phase::Done
            &&& requests_of(after.0).len() == 0
            &&& after.1.len() >= 1
            &&& after.1[0] matches ActionView::Dispatch(assets) && {
                &&& assets.len() == 4
                &&& assets.to_multiset() == four_assets(
                    photo_one,
                    photo_two,
                    thumbnail,
                    stream,
                ).to_multiset()
            }
        },
        completed_count(outcomes) == 4,
{
    lemma_two_photos_and_a_video_are_four_assets(
        page.posts,
        first_photo,
        second_photo,
        video,
        photo_one,
        photo_two,
        thumbnail,
        stream,
    );
    lemma_none_failed_all_counted(outcomes);
}

/// Decides whether no post of the page is older than one that follows it.
pub fn is_newest_first(posts: &Vec<Post>) -> (ordered: bool)
    ensures
        ordered == newest_first(post_views(posts@)),
{
    let ghost views = post_views(posts@);
    if posts.len() < 2 {
        return true;
    }
    let mut k: usize = 0;
    while k < posts.len() - 1
        invariant
            2 <= posts.len(),
            k <= posts.len() - 1,
            views == post_views(posts@),
            forall|m: int| 0 <= m < k ==> (#[trigger] views[m]).id >= views[m + 1].id,
        decreases posts.len() - k,
    {
        if posts[k].id < posts[k + 1].id {
            assert(views[k as int].id < views[k as int + 1].id);
            return false;
        }
        k += 1;
    }
    proof {
        lemma_neighbours_in_order(views);
    }
    true
}

impl PaginationController {
    /// A walk that has not asked for anything yet. With `scan_all` it goes
    /// through the whole history, without it through the newest page only.
    pub fn new(scan_all: bool) -> (state: PaginationController)
        ensures
            state == (PaginationController { phase: Phase::Fetching, cursor: 0, scan_all }),
    {
        PaginationController { phase: Phase::Fetching, cursor: 0, scan_all }
    }

    /// Whether the walk has ended.
    pub fn is_done(&self) -> (done: bool)
        ensures
            done == (self.phase == Phase::Done),
    {
        match self.phase {
            Phase::Done => true,
            Phase::Fetching => false,
        }
    }

    /// The bound to put on the next request, if any.
    pub fn max_id(&self) -> (bound: Option<u64>)
        ensures
            bound == max_id_of(self.cursor),
    {
        if self.cursor == 0 {
            None
        } else {
            Some(self.cursor - 1)
        }
    }

    /// What to ask the endpoints for now: the handle and then a page while
    /// the walk goes on, nothing once it is done.
    pub fn requests(&self) -> (actions: Vec<Action>)
        ensures
            action_views(actions@) == requests_of(*self),
    {
        let mut actions: Vec<Action> = Vec::new();
        match self.phase {
            Phase::Fetching => {
                actions.push(Action::ResolveHandle);
                actions.push(Action::RequestPage { count: PAGE_SIZE, max_id: self.max_id() });
            },
            Phase::Done => {},
        }
        actions
    }

    /// Takes the page that the endpoint answered with. Returns what to do
    /// about it, in order, and moves the walk on; a page out of order is an
    /// error and leaves the walk where it was.
    pub fn on_page(&mut self, page: &Page) -> (outcome: Result<Vec<Action>, ProtocolError>)
        ensures
            match outcome {
                Ok(actions) => step(*old(self), page@) == Ok::<
                    (PaginationController, Seq<ActionView>),
                    ProtocolError,
                >((*final(self), action_views(actions@))),
                Err(e) => *final(self) == *old(self) && step(*old(self), page@) == Err::<
                    (PaginationController, Seq<ActionView>),
                    ProtocolError,
                >(e),
            },
    {
        let mut actions: Vec<Action> = Vec::new();
        assert(action_views(actions@) =~= Seq::empty());
        if self.is_done() {
            return Ok(actions);
        }
        if page.posts.len() == 0 {
            self.phase = Phase::Done;
            return Ok(actions);
        }
        if !is_newest_first(&page.posts) {
            return Err(ProtocolError::OutOfOrder);
        }
        let references = extract_media(&page.posts);
        let wanted = downloads(&references);
        let ghost dispatch = ActionView::Dispatch(reference_views(wanted@));
        actions.push(Action::Dispatch(wanted));
        if page.remaining <= 0 {
            actions.push(Action::Sleep { seconds: COOLDOWN_SECONDS });
            assert(action_views(actions@) =~= seq![
                dispatch,
                ActionView::Sleep { seconds: COOLDOWN_SECONDS },
            ]);
        } else {
            assert(action_views(actions@) =~= seq![dispatch]);
        }
        self.cursor = page.posts[page.posts.len() - 1].id;
        if !self.scan_all || self.cursor == 0 {
            self.phase = Phase::Done;
        }
        Ok(actions)
    }
}

} // verus!
