//! The view controller: the one piece of mutable state the view renders
//! from.
//!
//! The controller owns a pending-query buffer and the `DisplayState`. Text
//! input only rewrites the buffer; triggering a search hands the buffer's
//! current content out for dispatch; a completed search either replaces the
//! displayed result wholesale (on success) or leaves it exactly as it was
//! (on any error). Once a result has been shown the state never reverts to
//! `NoResult`: a later failure keeps the old result visible, and an empty
//! response shows the all-empty placeholder, which under this contract is a
//! result like any other.

use vstd::prelude::*;
use vstd::string::StringExecFns;
use crate::search::SearchError;
use crate::video::{VideoItem, VideoItemView};

verus! {

/// The displayed entry: the video id (used to build the embed address) and
/// the title.
pub struct Video {
    pub id: String,
    pub name: String,
}

/// The mathematical value of a `Video`.
#[verifier::ext_equal]
pub struct VideoView {
    pub id: Seq<char>,
    pub name: Seq<char>,
}

impl View for Video {
    type V = VideoView;

    open spec fn view(&self) -> VideoView {
        VideoView { id: self.id@, name: self.name@ }
    }
}

impl Clone for Video {
    fn clone(&self) -> (res: Self)
        ensures
            res == *self,
    {
        Video { id: self.id.clone(), name: self.name.clone() }
    }
}

/// The displayed fields a search hit maps to: its video id and its title.
pub open spec fn video_view_of(item: VideoItemView) -> VideoView {
    VideoView { id: item.video_id, name: item.title }
}

/// The displayed entry a search hit maps to.
pub fn video_from_item(item: VideoItem) -> (v: Video)
    ensures
        v@ == video_view_of(item@),
{
    let v = Video { id: item.id.video_id, name: item.snippet.title };
    proof {
        assert(v@ =~= video_view_of(item@));
    }
    v
}

/// What the view renders from: no result yet, or exactly one result.
pub enum DisplayState {
    NoResult,
    HasResult(Video),
}

/// The mathematical value of a `DisplayState`.
pub enum DisplayStateView {
    NoResult,
    HasResult(VideoView),
}

impl View for DisplayState {
    type V = DisplayStateView;

    open spec fn view(&self) -> DisplayStateView {
        match self {
            DisplayState::NoResult => DisplayStateView::NoResult,
            DisplayState::HasResult(v) => DisplayStateView::HasResult(v@),
        }
    }
}

impl Clone for DisplayState {
    fn clone(&self) -> (res: Self)
        ensures
            res == *self,
    {
        match self {
            DisplayState::NoResult => DisplayState::NoResult,
            DisplayState::HasResult(v) => DisplayState::HasResult(v.clone()),
        }
    }
}

/// The mathematical value of a completed search, as the controller sees it.
pub open spec fn outcome_view(outcome: Result<VideoItem, SearchError>) -> Result<
    VideoItemView,
    SearchError,
> {
    match outcome {
        Ok(item) => Ok(item@),
        Err(e) => Err(e),
    }
}

/// How a completed search changes the display: success replaces the state
/// wholesale with the returned item's displayed fields; any error leaves
/// the state exactly as it was.
pub open spec fn apply_completion(
    s: DisplayStateView,
    outcome: Result<VideoItemView, SearchError>,
) -> DisplayStateView {
    match outcome {
        Ok(item) => DisplayStateView::HasResult(video_view_of(item)),
        Err(_) => s,
    }
}

/// A failed search — transport failure or a body that would not decode —
/// never changes the display: the prior state, `NoResult` included, is
/// preserved.
pub proof fn lemma_failed_search_preserves_state(s: DisplayStateView, e: SearchError)
    ensures
        apply_completion(s, Err(e)) == s,
{
}

/// Of two completions applied in turn, the one applied last determines the
/// display whenever it is a success: an earlier completion, successful or
/// not, has no influence left. With two overlapping searches the display
/// therefore reflects whichever response was applied last, not whichever
/// was requested last.
pub proof fn lemma_last_completion_wins(
    s: DisplayStateView,
    earlier: Result<VideoItemView, SearchError>,
    later: Result<VideoItemView, SearchError>,
)
    requires
        later is Ok,
    ensures
        apply_completion(apply_completion(s, earlier), later) == DisplayStateView::HasResult(
            video_view_of(later->Ok_0),
        ),
{
}

/// Once a result is shown, no completion reverts the display to
/// `NoResult`: a success replaces the result and a failure keeps it.
pub proof fn lemma_result_never_reverts(
    s: DisplayStateView,
    outcome: Result<VideoItemView, SearchError>,
)
    requires
        s is HasResult,
    ensures
        apply_completion(s, outcome) is HasResult,
{
}

/// The prefix of every embed address; the video id is appended to it.
pub open spec fn embed_prefix() -> Seq<char> {
    "https://www.youtube.com/embed/"@
}

/// The embed address for a video id.
pub open spec fn embed_url_chars(id: Seq<char>) -> Seq<char> {
    embed_prefix() + id
}

/// Builds the embed address for a video id.
pub fn embed_url(id: &str) -> (r: String)
    ensures
        r@ == embed_url_chars(id@),
{
    let mut url = String::from_str("https://www.youtube.com/embed/");
    url.append(id);
    url
}

/// The view controller: the pending-query buffer and the displayed state.
pub struct ViewController {
    pub pending_query: String,
    pub state: DisplayState,
}

impl Clone for ViewController {
    fn clone(&self) -> (res: Self)
        ensures
            res == *self,
    {
        ViewController { pending_query: self.pending_query.clone(), state: self.state.clone() }
    }
}

impl ViewController {
    /// A fresh controller: empty buffer, nothing displayed.
    pub fn new() -> (c: ViewController)
        ensures
            c.pending_query@ == Seq::<char>::empty(),
            c.state@ == DisplayStateView::NoResult,
    {
        ViewController { pending_query: String::new(), state: DisplayState::NoResult }
    }

    /// Text input rewrites the pending-query buffer and nothing else; it
    /// never fails and has no network effect.
    pub fn on_input_change(&mut self, text: String)
        ensures
            final(self).pending_query@ == text@,
            final(self).state == old(self).state,
    {
        self.pending_query = text;
    }

    /// Triggering a search hands out the buffer's current content, to be
    /// dispatched to the search client; the controller itself is not
    /// changed, so a second trigger may follow before the first completes.
    pub fn on_search_triggered(&self) -> (q: String)
        ensures
            q@ == self.pending_query@,
    {
        self.pending_query.clone()
    }

    /// A completed search updates the display as `apply_completion` says:
    /// success replaces the result wholesale, any error leaves the prior
    /// state — `NoResult` included — untouched. The buffer is not changed.
    pub fn on_search_completed(&mut self, outcome: Result<VideoItem, SearchError>)
        ensures
            final(self).state@ == apply_completion(old(self).state@, outcome_view(outcome)),
            final(self).pending_query == old(self).pending_query,
    {
        match outcome {
            Ok(item) => {
                self.state = DisplayState::HasResult(video_from_item(item));
            },
            Err(_) => {},
        }
    }

    /// What the result region renders: nothing while no search has
    /// completed successfully, else the embed address built from the held
    /// result's video id.
    pub fn render_embed(&self) -> (r: Option<String>)
        ensures
            self.state@ is NoResult ==> r is None,
            self.state@ is HasResult ==> r is Some && r->0@ == embed_url_chars(
                self.state@->HasResult_0.id,
            ),
    {
        match &self.state {
            DisplayState::NoResult => None,
            DisplayState::HasResult(v) => Some(embed_url(v.id.as_str())),
        }
    }
}

} // verus!
