//! Decimal parsing and rendering, JSON escaping through the codec,
//! search-query handling, voice-location checks, and error descriptions.

use andelink::error::{AndelinkError, ClusterError};
use andelink::text::{dec_u64, parse_u64_dec, str_eq};
use andelink::track::{auto_search_identifier, looks_like_url, TrackRequester, TrackSearch};
use andelink::util::{is_on_same_vc, VoiceLocationState};

#[test]
fn dec_u64_renders_decimals() {
    assert_eq!(dec_u64(0), "0");
    assert_eq!(dec_u64(7), "7");
    assert_eq!(dec_u64(1000), "1000");
    assert_eq!(dec_u64(18446744073709551615), "18446744073709551615");
}

#[test]
fn parse_u64_accepts_digit_strings() {
    assert_eq!(parse_u64_dec("0"), Some(0));
    assert_eq!(parse_u64_dec("00123"), Some(123));
    assert_eq!(parse_u64_dec("18446744073709551615"), Some(18446744073709551615));
}

#[test]
fn parse_u64_rejects_bad_input() {
    assert_eq!(parse_u64_dec(""), None);
    assert_eq!(parse_u64_dec("12a3"), None);
    assert_eq!(parse_u64_dec("-5"), None);
    assert_eq!(parse_u64_dec(" 5"), None);
    // one past u64::MAX
    assert_eq!(parse_u64_dec("18446744073709551616"), None);
}

#[test]
fn str_eq_compares_characters() {
    assert!(str_eq("stats", "stats"));
    assert!(!str_eq("stats", "stat"));
    assert!(!str_eq("stats", "statz"));
    assert!(str_eq("", ""));
}

#[test]
fn url_queries_pass_through() {
    assert!(looks_like_url("https://example.org/watch?v=abc"));
    assert!(looks_like_url("http://a"));
    assert!(looks_like_url("see http://example.org/x for details"));
    assert_eq!(
        auto_search_identifier("https://example.org/watch?v=abc"),
        "https://example.org/watch?v=abc"
    );
}

#[test]
fn free_text_queries_get_search_prefix() {
    assert!(!looks_like_url("relaxing jazz"));
    assert!(!looks_like_url("http://"));
    assert!(!looks_like_url("http://\nrest"));
    assert_eq!(auto_search_identifier("relaxing jazz"), "ytsearch:relaxing jazz");
}

#[test]
fn track_search_renders_queries() {
    assert_eq!(TrackSearch::Youtube("lofi beats").query(), "ytsearch:lofi beats");
    assert_eq!(TrackSearch::Url("https://example.org/t").query(), "https://example.org/t");
}

#[test]
fn requester_conversions() {
    let by_id = TrackRequester::from(77u64);
    assert_eq!(by_id.id, Some(77));
    assert!(by_id.name.is_none());
    let by_name = TrackRequester::from("someone".to_string());
    assert_eq!(by_name.name.as_deref(), Some("someone"));
    let both = TrackRequester::from((77u64, "someone".to_string()));
    assert_eq!(both.id, Some(77));
    assert_eq!(both.name.as_deref(), Some("someone"));
}

#[test]
fn voice_location_cases() {
    assert_eq!(is_on_same_vc(None, Some(5)), VoiceLocationState::ClientDisconnected);
    assert_eq!(is_on_same_vc(Some(5), None), VoiceLocationState::UserDisconnected);
    assert_eq!(is_on_same_vc(Some(5), Some(5)), VoiceLocationState::OnSameChannel);
    assert_eq!(is_on_same_vc(Some(5), Some(6)), VoiceLocationState::OnDifferentChannel);
}

#[test]
fn error_descriptions() {
    assert_eq!(
        AndelinkError::NoWebsocket.message(),
        "There is no initialized websocket."
    );
    assert_eq!(AndelinkError::PlayerNotFound.message(), "Player not found");
    assert_eq!(
        AndelinkError::ErrorSendingPayload("broken pipe".to_string()).message(),
        "Error while sending payload, json => broken pipe"
    );
    assert_eq!(
        ClusterError::from(AndelinkError::NoWebsocket),
        ClusterError::Andelink(AndelinkError::NoWebsocket)
    );
    assert_eq!(
        ClusterError::CannotFindBestNode.message(),
        "Cannot find the best node, this is caused because there are no nodes added"
    );
    assert_eq!(
        ClusterError::Tungstenite("connection reset".to_string()).message(),
        "connection reset"
    );
    assert_eq!(
        ClusterError::Andelink(AndelinkError::PlayerNotFound).message(),
        "Player not found"
    );
}
