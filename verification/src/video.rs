//! The data model of a decoded search hit.
//!
//! A `VideoItem` is one entry of a search response: an identifier (a kind tag
//! plus an opaque video id) and a snippet (title and description). Items are
//! immutable once constructed; the one operation beyond construction is
//! `build_empty_video`, which yields the all-empty placeholder that stands in
//! for "no result".

use vstd::prelude::*;

verus! {

/// The identifier part of a search hit: a kind tag and the video id.
pub struct VideoItemId {
    pub kind: String,
    pub video_id: String,
}

/// The descriptive part of a search hit.
pub struct VideoSnippet {
    pub title: String,
    pub description: String,
}

/// One decoded search hit.
pub struct VideoItem {
    pub id: VideoItemId,
    pub snippet: VideoSnippet,
}

/// The mathematical value of a `VideoItem`: its four text fields as
/// character sequences.
#[verifier::ext_equal]
pub struct VideoItemView {
    pub kind: Seq<char>,
    pub video_id: Seq<char>,
    pub title: Seq<char>,
    pub description: Seq<char>,
}

impl View for VideoItem {
    type V = VideoItemView;

    open spec fn view(&self) -> VideoItemView {
        VideoItemView {
            kind: self.id.kind@,
            video_id: self.id.video_id@,
            title: self.snippet.title@,
            description: self.snippet.description@,
        }
    }
}

/// The placeholder value: every field empty.
pub open spec fn placeholder_view() -> VideoItemView {
    VideoItemView {
        kind: Seq::empty(),
        video_id: Seq::empty(),
        title: Seq::empty(),
        description: Seq::empty(),
    }
}

/// Builds the all-empty placeholder item that a search substitutes when the
/// response holds no items.
pub fn build_empty_video() -> (v: VideoItem)
    ensures
        v@ == placeholder_view(),
{
    let v = VideoItem {
        id: VideoItemId { kind: String::new(), video_id: String::new() },
        snippet: VideoSnippet { title: String::new(), description: String::new() },
    };
    proof {
        assert(v@ =~= placeholder_view());
    }
    v
}

/// Whether an item is the all-empty placeholder. An empty response and a
/// hit whose fields are all blank are represented identically, so a caller
/// that needs to tell "no result" apart must test for this explicitly.
pub fn is_placeholder(v: &VideoItem) -> (r: bool)
    ensures
        r == (v@ == placeholder_view()),
{
    let r = v.id.kind.as_str().is_empty() && v.id.video_id.as_str().is_empty()
        && v.snippet.title.as_str().is_empty() && v.snippet.description.as_str().is_empty();
    proof {
        if r {
            assert(v@ =~= placeholder_view());
        }
    }
    r
}

impl Clone for VideoItemId {
    fn clone(&self) -> (res: Self)
        ensures
            res == *self,
    {
        VideoItemId { kind: self.kind.clone(), video_id: self.video_id.clone() }
    }
}

impl Clone for VideoSnippet {
    fn clone(&self) -> (res: Self)
        ensures
            res == *self,
    {
        VideoSnippet { title: self.title.clone(), description: self.description.clone() }
    }
}

impl Clone for VideoItem {
    fn clone(&self) -> (res: Self)
        ensures
            res == *self,
    {
        VideoItem { id: self.id.clone(), snippet: self.snippet.clone() }
    }
}

} // verus!
