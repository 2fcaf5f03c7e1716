//! The search client: request construction and response handling.
//!
//! A `SearchClient` holds the bearer-token credential it was constructed
//! with. For a query it builds the request — the endpoint URL with the
//! percent-encoded query appended, and the `Bearer` authorization header —
//! and, once the transport and the decoder have handed back their outcome,
//! it turns a decoded item sequence into the single result: the first item
//! where there is one, the all-empty placeholder where there is none, and
//! the error unchanged where the call failed.

use vstd::prelude::*;
use vstd::string::StringExecFns;
use vstd::utf8::encode_utf8;
use crate::encoding::{percent_encode, percent_encoding_of};
use crate::video::{build_empty_video, placeholder_view, VideoItem, VideoItemView};

verus! {

/// How a search can fail: the transport could not deliver the request, or
/// the response body did not match the expected schema.
#[derive(Clone, Copy, Debug, PartialEq, Eq, Structural)]
pub enum SearchError {
    Transport,
    Decode,
}

/// A fully built search request: the URL to fetch and the value of the
/// `Authorization` header to send with it.
pub struct SearchRequest {
    pub url: String,
    pub auth_header: String,
}

/// The fixed search endpoint, asking for identifier and snippet fields;
/// the percent-encoded query is appended to it.
pub open spec fn endpoint_prefix() -> Seq<char> {
    "https://youtube.googleapis.com/youtube/v3/search?part=id%2Csnippet&q="@
}

/// The URL of the search request for a query.
pub open spec fn search_url_chars(query: Seq<char>) -> Seq<char> {
    endpoint_prefix() + percent_encoding_of(encode_utf8(query))
}

/// The `Authorization` header value for a credential.
pub open spec fn auth_header_chars(key: Seq<char>) -> Seq<char> {
    "Bearer "@ + key
}

/// The search client, holding the opaque bearer-token credential that is
/// injected at construction.
pub struct SearchClient {
    pub api_key: String,
}

impl SearchClient {
    /// A client that will authenticate with the given credential.
    pub fn new(api_key: String) -> (c: SearchClient)
        ensures
            c.api_key@ == api_key@,
    {
        SearchClient { api_key }
    }

    /// Builds the request for a query: the endpoint URL with the query
    /// percent-encoded and appended, and the bearer authorization header.
    pub fn request_for(&self, query: &str) -> (req: SearchRequest)
        ensures
            req.url@ == search_url_chars(query@),
            req.auth_header@ == auth_header_chars(self.api_key@),
    {
        let mut url = String::from_str(
            "https://youtube.googleapis.com/youtube/v3/search?part=id%2Csnippet&q=",
        );
        let encoded = percent_encode(query);
        url.append(encoded.as_str());
        let mut auth_header = String::from_str("Bearer ");
        auth_header.append(self.api_key.as_str());
        SearchRequest { url, auth_header }
    }
}

/// Turns the decoded outcome of a search call into its result: the first
/// item of a non-empty response, the all-empty placeholder for an empty
/// response, and the error unchanged where transport or decoding failed.
pub fn complete_search(decoded: Result<Vec<VideoItem>, SearchError>) -> (r: Result<
    VideoItem,
    SearchError,
>)
    ensures
        decoded is Ok && decoded->Ok_0@.len() > 0 ==> r is Ok && r->Ok_0 == decoded->Ok_0@[0],
        decoded is Ok && decoded->Ok_0@.len() == 0 ==> r is Ok && r->Ok_0@ == placeholder_view(),
        decoded is Err ==> r == Result::<VideoItem, SearchError>::Err(decoded->Err_0),
{
    match decoded {
        Ok(items) => Ok(first_or_placeholder(&items)),
        Err(e) => Err(e),
    }
}

/// The first item of a decoded response, or the all-empty placeholder when
/// the response holds no items.
pub fn first_or_placeholder(items: &Vec<VideoItem>) -> (v: VideoItem)
    ensures
        items@.len() > 0 ==> v == items@[0],
        items@.len() == 0 ==> v@ == placeholder_view(),
{
    if items.len() > 0 {
        items[0].clone()
    } else {
        build_empty_video()
    }
}

} // verus!
