use video_search::controller::{DisplayState, ViewController};
use video_search::encoding::percent_encode;
use video_search::search::{complete_search, first_or_placeholder, SearchClient, SearchError};
use video_search::video::{build_empty_video, is_placeholder, VideoItem, VideoItemId, VideoSnippet};

fn item(kind: &str, video_id: &str, title: &str, description: &str) -> VideoItem {
    VideoItem {
        id: VideoItemId { kind: kind.to_string(), video_id: video_id.to_string() },
        snippet: VideoSnippet { title: title.to_string(), description: description.to_string() },
    }
}

#[test]
fn empty_video_has_all_fields_blank() {
    let v = build_empty_video();
    assert_eq!(v.id.kind, "");
    assert_eq!(v.id.video_id, "");
    assert_eq!(v.snippet.title, "");
    assert_eq!(v.snippet.description, "");
}

#[test]
fn placeholder_detection_requires_every_field_blank() {
    assert!(is_placeholder(&build_empty_video()));
    assert!(!is_placeholder(&item("", "abc123", "", "")));
    assert!(!is_placeholder(&item("youtube#video", "", "", "")));
    assert!(is_placeholder(&item("", "", "", "")));
}

#[test]
fn first_item_of_nonempty_response_is_returned() {
    let items = vec![
        item("youtube#video", "abc123", "Lofi Beats", "beats to study to"),
        item("youtube#video", "zzz999", "Other", "other"),
    ];
    let v = first_or_placeholder(&items);
    assert_eq!(v.id.video_id, "abc123");
    assert_eq!(v.snippet.title, "Lofi Beats");
}

#[test]
fn empty_response_yields_placeholder_not_error() {
    let r = complete_search(Ok(Vec::new()));
    let v = r.expect("an empty response is a successful outcome");
    assert_eq!(v.id.kind, "");
    assert_eq!(v.id.video_id, "");
    assert_eq!(v.snippet.title, "");
    assert_eq!(v.snippet.description, "");
}

#[test]
fn errors_pass_through_completion() {
    match complete_search(Err(SearchError::Transport)) {
        Err(SearchError::Transport) => {}
        _ => panic!("a transport failure must come back as the transport error"),
    }
    match complete_search(Err(SearchError::Decode)) {
        Err(SearchError::Decode) => {}
        _ => panic!("a decode failure must come back as the decode error"),
    }
}

#[test]
fn transport_failure_preserves_display_state() {
    let mut c = ViewController::new();
    c.on_search_completed(Err(SearchError::Transport));
    assert!(matches!(c.state, DisplayState::NoResult));

    c.on_search_completed(Ok(item("youtube#video", "abc123", "Lofi Beats", "")));
    c.on_search_completed(Err(SearchError::Transport));
    match &c.state {
        DisplayState::HasResult(v) => {
            assert_eq!(v.id, "abc123");
            assert_eq!(v.name, "Lofi Beats");
        }
        DisplayState::NoResult => panic!("the prior result must stay visible"),
    }
}

#[test]
fn decode_failure_preserves_display_state() {
    let mut c = ViewController::new();
    c.on_search_completed(Err(SearchError::Decode));
    assert!(matches!(c.state, DisplayState::NoResult));

    c.on_search_completed(Ok(item("youtube#video", "abc123", "Lofi Beats", "")));
    c.on_search_completed(Err(SearchError::Decode));
    match &c.state {
        DisplayState::HasResult(v) => assert_eq!(v.id, "abc123"),
        DisplayState::NoResult => panic!("the prior result must stay visible"),
    }
}

#[test]
fn later_arriving_completion_wins() {
    // Two searches are triggered in quick succession; the second search's
    // response arrives first, so the first search's completion is applied
    // last and determines the final display.
    let mut c = ViewController::new();
    c.on_input_change("first".to_string());
    let q1 = c.on_search_triggered();
    c.on_input_change("second".to_string());
    let q2 = c.on_search_triggered();
    assert_eq!(q1, "first");
    assert_eq!(q2, "second");

    let second_response = complete_search(Ok(vec![item("youtube#video", "id2", "Second", "")]));
    let first_response = complete_search(Ok(vec![item("youtube#video", "id1", "First", "")]));
    c.on_search_completed(second_response);
    c.on_search_completed(first_response);
    match &c.state {
        DisplayState::HasResult(v) => {
            assert_eq!(v.id, "id1");
            assert_eq!(v.name, "First");
        }
        DisplayState::NoResult => panic!("a successful completion must set a result"),
    }
}

#[test]
fn lofi_scenario_sets_display_and_embed_address() {
    let mut c = ViewController::new();
    c.on_input_change("lofi".to_string());
    let q = c.on_search_triggered();
    assert_eq!(q, "lofi");

    let response = vec![item(
        "youtube#video",
        "abc123",
        "Lofi Beats",
        "lofi hip hop beats to relax/study to",
    )];
    c.on_search_completed(complete_search(Ok(response)));
    match &c.state {
        DisplayState::HasResult(v) => {
            assert_eq!(v.id, "abc123");
            assert_eq!(v.name, "Lofi Beats");
        }
        DisplayState::NoResult => panic!("the search completed successfully"),
    }
    assert_eq!(c.render_embed().as_deref(), Some("https://www.youtube.com/embed/abc123"));
}

#[test]
fn no_match_scenario_shows_placeholder_embed() {
    let mut c = ViewController::new();
    c.on_input_change("zzzzzzz_no_match".to_string());
    let q = c.on_search_triggered();
    c.on_search_completed(complete_search(Ok(Vec::new())));
    assert_eq!(q, "zzzzzzz_no_match");
    match &c.state {
        DisplayState::HasResult(v) => {
            assert_eq!(v.id, "");
            assert_eq!(v.name, "");
        }
        DisplayState::NoResult => panic!("an empty response still completes successfully"),
    }
    assert_eq!(c.render_embed().as_deref(), Some("https://www.youtube.com/embed/"));
}

#[test]
fn nothing_rendered_before_first_success() {
    let c = ViewController::new();
    assert_eq!(c.render_embed(), None);
}

#[test]
fn input_changes_only_the_pending_buffer() {
    let mut c = ViewController::new();
    assert_eq!(c.on_search_triggered(), "");
    c.on_input_change("cats".to_string());
    c.on_input_change("dogs".to_string());
    assert_eq!(c.pending_query, "dogs");
    assert!(matches!(c.state, DisplayState::NoResult));
}

#[test]
fn unreserved_text_is_kept_verbatim() {
    assert_eq!(percent_encode("lofi"), "lofi");
    assert_eq!(percent_encode("AZaz09-._~"), "AZaz09-._~");
    assert_eq!(percent_encode(""), "");
}

#[test]
fn spaces_and_reserved_bytes_are_escaped() {
    assert_eq!(percent_encode("a b"), "a%20b");
    assert_eq!(percent_encode("&=?/"), "%26%3D%3F%2F");
    assert_eq!(percent_encode("100%"), "100%25");
}

#[test]
fn multibyte_text_is_escaped_bytewise() {
    assert_eq!(percent_encode("caf\u{e9}"), "caf%C3%A9");
    assert_eq!(percent_encode("\u{3042}"), "%E3%81%82");
}

#[test]
fn request_carries_encoded_query_and_bearer_header() {
    let client = SearchClient::new("SECRET-REDACTED".to_string());
    let req = client.request_for("hello world");
    assert_eq!(
        req.url,
        "https://youtube.googleapis.com/youtube/v3/search?part=id%2Csnippet&q=hello%20world"
    );
    assert_eq!(req.auth_header, "Bearer SECRET-REDACTED");
}

#[test]
fn request_for_empty_query_is_bare_endpoint() {
    let client = SearchClient::new("k".to_string());
    let req = client.request_for("");
    assert_eq!(
        req.url,
        "https://youtube.googleapis.com/youtube/v3/search?part=id%2Csnippet&q="
    );
    assert_eq!(req.auth_header, "Bearer k");
}
