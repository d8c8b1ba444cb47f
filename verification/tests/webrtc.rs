use bytes::{Bytes, BytesMut};
use hbb_common::address::SocketAddress;
use hbb_common::description::{SdpType, SessionDescription};
use hbb_common::endpoint::{endpoint_from_encoded, offer_from_decoded};
use hbb_common::error::{EndpointError, ErrorKind, OfferError, ReadError};
use hbb_common::session::{choose_naming, description_text, text_or_empty, SessionCache};
use hbb_common::setup::{bootstrap_label, peer_config, Setup, SetupAction};
use hbb_common::text::{after_prefix, starts_with};
use hbb_common::webrtc::{
    is_webrtc_endpoint, Opening, ReadEvent, WebRTCStream, DATA_CHANNEL_BUFFER_SIZE,
};

fn description(sdp_type: SdpType, sdp: &str) -> SessionDescription {
    SessionDescription { sdp_type, sdp: sdp.to_string() }
}

fn fresh(endpoint: &str, sessions: &SessionCache<u32>) -> Setup {
    match WebRTCStream::new(endpoint, 30000, sessions) {
        Ok(Opening::Fresh(setup)) => setup,
        Ok(Opening::Cached(_)) => panic!("cached"),
        Err(e) => panic!("{:?}", e),
    }
}

fn cached(endpoint: &str, sessions: &SessionCache<u32>) -> Option<u32> {
    match WebRTCStream::new(endpoint, 1, sessions) {
        Ok(Opening::Cached(session)) => Some(*session),
        _ => None,
    }
}

fn run(setup: &mut Setup) -> Vec<SetupAction> {
    let mut actions = Vec::new();
    let mut next = setup.pending();
    while let Some(action) = next {
        actions.push(action);
        if action == SetupAction::RecordSession {
            break;
        }
        next = setup.step(true);
    }
    actions
}

fn stream() -> WebRTCStream {
    fresh("", &SessionCache::new()).stream()
}

#[test]
fn test_dc() {
}

#[test]
fn prefixes() {
    assert!(starts_with("webrtc://abc", "webrtc://"));
    assert!(starts_with("\u{e9}tat", "\u{e9}"));
    assert!(!starts_with("\u{e8}tat", "\u{e9}"));
    assert!(!starts_with("web", "webrtc://"));
    assert!(starts_with("web", ""));
    assert_eq!(after_prefix("webrtc://\u{e9}t\u{e9}", "webrtc://"), "\u{e9}t\u{e9}");
}

#[test]
fn endpoints_by_scheme() {
    assert!(is_webrtc_endpoint("webrtc://"));
    assert!(is_webrtc_endpoint("webrtc://anything at all"));
    assert!(!is_webrtc_endpoint(""));
    assert!(!is_webrtc_endpoint("webrtc:/"));
    assert!(!is_webrtc_endpoint("WEBRTC://"));
    assert!(!is_webrtc_endpoint(" webrtc://"));
}

#[test]
fn endpoint_of_a_description() {
    assert_eq!(WebRTCStream::sdp_to_endpoint("hello"), "webrtc://aGVsbG8=");
    assert_eq!(WebRTCStream::sdp_to_endpoint("hell"), "webrtc://aGVsbA==");
    assert_eq!(WebRTCStream::sdp_to_endpoint("hel"), "webrtc://aGVs");
    assert_eq!(WebRTCStream::sdp_to_endpoint(""), "webrtc://");
    assert_eq!(WebRTCStream::sdp_to_endpoint("\u{fbff}"), "webrtc://76+/");
}

#[test]
fn form_of_an_endpoint() {
    for n in 0..50usize {
        let sdp = "\u{7f}".repeat(n);
        let endpoint = WebRTCStream::sdp_to_endpoint(&sdp);
        assert_eq!(endpoint.len(), "webrtc://".len() + (n + 2) / 3 * 4);
        let padding = (3 - n % 3) % 3;
        let encoded = after_prefix(&endpoint, "webrtc://").as_bytes();
        let (symbols, rest) = encoded.split_at(encoded.len() - padding);
        assert!(symbols.iter().all(|c| c.is_ascii_alphanumeric() || *c == b'+' || *c == b'/'));
        assert!(rest.iter().all(|c| *c == b'='));
    }
    // the length counts bytes, not characters
    assert_eq!(WebRTCStream::sdp_to_endpoint("\u{1f980}"), "webrtc://8J+mgA==");
}

#[test]
fn description_is_read_back() {
    for sdp in ["", "a", "v=0\r\no=- 1 2", "\u{1f980}\u{0}\u{7f}\u{80}"] {
        let endpoint = WebRTCStream::sdp_to_endpoint(sdp);
        assert!(is_webrtc_endpoint(&endpoint));
        assert_eq!(WebRTCStream::get_remote_offer(&endpoint), Ok(sdp.to_string()));
    }
}

#[test]
fn accepted_endpoint_is_written_back() {
    for endpoint in ["webrtc://", "webrtc://aGVsbG8=", "webrtc://aGVs", "webrtc://76+/"] {
        let offer = WebRTCStream::get_remote_offer(endpoint).unwrap();
        assert_eq!(WebRTCStream::sdp_to_endpoint(&offer), endpoint);
    }
}

#[test]
fn only_the_bare_scheme_carries_nothing() {
    assert_eq!(WebRTCStream::get_remote_offer("webrtc://"), Ok(String::new()));
    assert_eq!(WebRTCStream::get_remote_offer("webrtc://AA=="), Ok("\u{0}".to_string()));
}

#[test]
fn endpoints_that_are_refused() {
    for endpoint in ["", "aGVsbG8=", "webrtc:aGVsbG8=", "tcp://aGVsbG8="] {
        assert_eq!(WebRTCStream::get_remote_offer(endpoint), Err(OfferError::Format));
    }
    // no padding, padding alone, trailing bits, another alphabet, white space
    for encoded in ["aGVsbG8", "====", "aGVsbG9=", "76-_", "aGVs bG8=", "aGVs\n", "\u{e9}"] {
        let endpoint = format!("webrtc://{}", encoded);
        assert_eq!(WebRTCStream::get_remote_offer(&endpoint), Err(OfferError::Base64));
    }
    for encoded in ["/w==", "wA==", "7aCA"] {
        let endpoint = format!("webrtc://{}", encoded);
        assert_eq!(WebRTCStream::get_remote_offer(&endpoint), Err(OfferError::Utf8));
    }
}

#[test]
fn offers_from_decoded_bytes() {
    assert_eq!(offer_from_decoded(None), Err(OfferError::Base64));
    assert_eq!(offer_from_decoded(Some(vec![0x68, 0x69])), Ok("hi".to_string()));
    assert_eq!(offer_from_decoded(Some(vec![])), Ok(String::new()));
    assert_eq!(offer_from_decoded(Some(vec![0x68, 0xff])), Err(OfferError::Utf8));
    assert_eq!(endpoint_from_encoded("aGk="), "webrtc://aGk=");
}

#[test]
fn error_texts() {
    assert_eq!(OfferError::Format.message(), "Invalid WebRTC endpoint format");
    assert_eq!(OfferError::Base64.message(), "Failed to decode Base64 SDP");
    assert_eq!(OfferError::Utf8.message(), "Failed to convert decoded bytes to UTF-8");
    assert_eq!(OfferError::Format.kind(), ErrorKind::InvalidInput);
    assert_eq!(
        ReadError::Failed("gone".to_string()).message(),
        "data channel read error: gone"
    );
    assert_eq!(ReadError::Closed.message(), "data channel read exited with 0 bytes");
    assert_eq!(ReadError::Closed.kind(), ErrorKind::Other);
}

#[test]
fn description_as_json() {
    assert_eq!(
        description_text(&description(SdpType::Offer, "sdp")),
        "{\"type\":\"offer\",\"sdp\":\"sdp\"}"
    );
    assert_eq!(
        description_text(&description(SdpType::Pranswer, "sdp")),
        "{\"type\":\"pranswer\",\"sdp\":\"sdp\"}"
    );
    assert_eq!(
        description_text(&description(SdpType::Answer, "a\r\n\"b")),
        "{\"type\":\"answer\",\"sdp\":\"a\\r\\n\\\"b\"}"
    );
    assert_eq!(
        description_text(&description(SdpType::Rollback, "")),
        "{\"type\":\"rollback\",\"sdp\":\"\"}"
    );
    assert_eq!(
        description_text(&description(SdpType::Unspecified, "")),
        "{\"type\":\"Unspecified\",\"sdp\":\"\"}"
    );
}

#[test]
fn escapes_in_json() {
    let sdp = "\u{8}\t\n\u{c}\r\u{0}\u{1f}\u{7f}\u{2028}\"\\/";
    assert_eq!(
        description_text(&description(SdpType::Offer, sdp)),
        format!(
            "{{\"type\":\"offer\",\"sdp\":\"{}{}{}\"}}",
            "\\b\\t\\n\\f\\r\\u0000\\u001f", "\u{7f}\u{2028}", "\\\"\\\\/"
        )
    );
}

#[test]
fn text_that_was_not_written() {
    assert_eq!(text_or_empty(Ok::<String, u8>("t".to_string())), "t");
    assert_eq!(text_or_empty(Err::<String, u8>(1)), "");
}

#[test]
fn key_is_the_offer() {
    let offer = Some(description(SdpType::Offer, "o"));
    let answer = Some(description(SdpType::Answer, "a"));
    let text = "{\"type\":\"offer\",\"sdp\":\"o\"}";
    assert_eq!(WebRTCStream::get_key_for_peer(&offer, &answer), text);
    assert_eq!(WebRTCStream::get_key_for_peer(&offer, &None), text);
    assert_eq!(WebRTCStream::get_key_for_peer(&answer, &offer), text);
    assert_eq!(WebRTCStream::get_key_for_peer(&answer, &None), "");
    assert_eq!(WebRTCStream::get_key_for_peer(&None, &offer), "");
    assert_eq!(WebRTCStream::get_key_for_peer(&None, &None), "");
    assert_eq!(choose_naming(&answer, &offer), offer.as_ref());
    assert_eq!(choose_naming(&None, &offer), None);
}

#[test]
fn local_endpoint_is_taken_by_the_other_side() {
    for sdp_type in [
        SdpType::Unspecified,
        SdpType::Offer,
        SdpType::Pranswer,
        SdpType::Answer,
        SdpType::Rollback,
    ] {
        let local = Some(description(sdp_type, "v=0\r\n\u{e9}\u{2028}\"\\\t\u{1}"));
        let endpoint = stream().get_local_endpoint(&local).unwrap();
        let read = stream().set_remote_endpoint(&endpoint).unwrap();
        assert_eq!(Some(read), local);
    }
}

#[test]
fn local_endpoint_text() {
    let local = Some(description(SdpType::Offer, "sdp"));
    assert_eq!(
        stream().get_local_endpoint(&local),
        Ok("webrtc://eyJ0eXBlIjoib2ZmZXIiLCJzZHAiOiJzZHAifQ==".to_string())
    );
}

#[test]
fn local_endpoint_needs_a_description() {
    let missing = stream().get_local_endpoint(&None).unwrap_err();
    assert_eq!(missing.message(), "Local description is not set");
}

#[test]
fn remote_endpoints_that_are_refused() {
    assert!(matches!(
        stream().set_remote_endpoint("nothing"),
        Err(EndpointError::Offer(OfferError::Format))
    ));
    assert!(matches!(
        stream().set_remote_endpoint("webrtc://?"),
        Err(EndpointError::Offer(OfferError::Base64))
    ));
    for text in ["", "sdp", "{}", "{\"type\":\"bid\",\"sdp\":\"\"}", "{\"type\":\"offer\"}"] {
        let endpoint = WebRTCStream::sdp_to_endpoint(text);
        assert!(matches!(
            stream().set_remote_endpoint(&endpoint),
            Err(EndpointError::Description(_))
        ));
    }
}

#[test]
fn remote_endpoint_with_spaces_in_its_text() {
    let endpoint =
        WebRTCStream::sdp_to_endpoint("{ \"sdp\": \"x\", \"more\": 1, \"type\": \"answer\" }");
    let read = stream().set_remote_endpoint(&endpoint).unwrap();
    assert_eq!(read, description(SdpType::Answer, "x"));
}

#[test]
fn offering_setup() {
    let mut sessions = SessionCache::new();
    let mut setup = fresh("", &sessions);
    assert_eq!(setup.stream(), stream());
    assert_eq!(
        run(&mut setup),
        vec![
            SetupAction::CreatePeer,
            SetupAction::CreateBootstrapChannel,
            SetupAction::RegisterHandlers,
            SetupAction::CreateOffer,
            SetupAction::PrepareGathering,
            SetupAction::SetLocalDescription,
            SetupAction::AwaitGathering,
            SetupAction::RecordSession,
        ]
    );
    let local = Some(description(SdpType::Offer, "mine"));
    assert!(setup.record(&local, &None, 7, &mut sessions));
    let endpoint = stream().get_local_endpoint(&local).unwrap();
    assert_eq!(cached(&endpoint, &sessions), Some(7));
    // one that makes an offer is always fresh
    assert_eq!(cached("", &sessions), None);
    assert_eq!(cached("webrtc://", &sessions), None);
    // the remote description does not matter
    sessions.forget(&local, &Some(description(SdpType::Answer, "yours")));
    assert_eq!(cached(&endpoint, &sessions), None);
}

#[test]
fn answering_setup() {
    let mut sessions = SessionCache::new();
    let offer = description(SdpType::Offer, "yours");
    let endpoint = WebRTCStream::sdp_to_endpoint(&description_text(&offer));
    let mut setup = fresh(&endpoint, &sessions);
    assert_eq!(setup.remote_description().unwrap(), offer);
    assert_eq!(
        run(&mut setup),
        vec![
            SetupAction::CreatePeer,
            SetupAction::TakePlaceholderChannel,
            SetupAction::RegisterHandlers,
            SetupAction::SetRemoteDescription,
            SetupAction::CreateAnswer,
            SetupAction::PrepareGathering,
            SetupAction::SetLocalDescription,
            SetupAction::AwaitGathering,
            SetupAction::RecordSession,
        ]
    );
    let local = Some(description(SdpType::Answer, "mine"));
    let remote = Some(offer);
    assert!(setup.record(&local, &remote, 8, &mut sessions));
    assert_eq!(cached(&endpoint, &sessions), Some(8));
    let other = WebRTCStream::sdp_to_endpoint("other");
    assert_eq!(cached(&other, &sessions), None);
    sessions.forget(&local, &None);
    assert_eq!(cached(&endpoint, &sessions), Some(8));
    sessions.forget(&local, &remote);
    assert_eq!(cached(&endpoint, &sessions), None);
}

#[test]
fn offer_that_is_no_description() {
    let sessions = SessionCache::new();
    let setup = fresh(&WebRTCStream::sdp_to_endpoint("no json"), &sessions);
    assert!(setup.remote_description().is_err());
}

#[test]
fn bare_scheme_makes_an_offer() {
    let sessions = SessionCache::new();
    let mut setup = fresh("webrtc://", &sessions);
    setup.step(true);
    assert_eq!(setup.pending(), Some(SetupAction::CreateBootstrapChannel));
}

#[test]
fn offers_are_made_whatever_is_kept() {
    let mut sessions = SessionCache::new();
    sessions.keep("".to_string(), 1);
    sessions.keep("k".to_string(), 2);
    for endpoint in ["", "webrtc://"] {
        let mut setup = fresh(endpoint, &sessions);
        assert_eq!(setup.pending(), Some(SetupAction::CreatePeer));
        assert_eq!(setup.step(true), Some(SetupAction::CreateBootstrapChannel));
        assert_eq!(setup.stream(), stream());
    }
}

#[test]
fn failed_setup_keeps_nothing() {
    let endpoint = WebRTCStream::sdp_to_endpoint("offer");
    for failing in 0..9 {
        let mut sessions = SessionCache::new();
        let mut setup = fresh(&endpoint, &sessions);
        for _ in 0..failing {
            assert!(setup.step(true).is_some());
        }
        assert_eq!(setup.step(false), None);
        assert_eq!(setup.step(true), None);
        assert_eq!(setup.pending(), None);
        assert!(!setup.record(&None, &None, 1, &mut sessions));
        assert_eq!(cached(&endpoint, &sessions), None);
    }
}

#[test]
fn setup_that_is_not_done_keeps_nothing() {
    let endpoint = WebRTCStream::sdp_to_endpoint("offer");
    let mut sessions = SessionCache::new();
    let mut setup = fresh(&endpoint, &sessions);
    for _ in 0..7 {
        setup.step(true);
    }
    assert_eq!(setup.pending(), Some(SetupAction::AwaitGathering));
    assert!(!setup.record(&None, &None, 1, &mut sessions));
    assert_eq!(cached(&endpoint, &sessions), None);
}

#[test]
fn refused_endpoint_opens_nothing() {
    let sessions: SessionCache<u32> = SessionCache::new();
    assert!(matches!(WebRTCStream::new("abc", 1, &sessions), Err(OfferError::Format)));
    assert!(matches!(WebRTCStream::new("webrtc://%", 1, &sessions), Err(OfferError::Base64)));
    assert!(matches!(WebRTCStream::new("webrtc:///w==", 1, &sessions), Err(OfferError::Utf8)));
}

#[test]
fn sessions_by_key() {
    let mut sessions = SessionCache::new();
    assert_eq!(sessions.find("k"), None);
    sessions.keep("k".to_string(), 1);
    sessions.keep("l".to_string(), 2);
    sessions.keep("".to_string(), 3);
    assert_eq!(sessions.find("k"), Some(&1));
    assert_eq!(sessions.find("l"), Some(&2));
    assert_eq!(sessions.find(""), None);
    sessions.keep("k".to_string(), 4);
    assert_eq!(sessions.find("k"), Some(&4));
}

#[test]
fn configuration() {
    let config = peer_config();
    assert!(config.detach_data_channels);
    assert!(!config.multicast_dns);
    assert_eq!(config.ice_urls, vec!["stun:stun.cloudflare.com:3478".to_string()]);
    assert_eq!(bootstrap_label(), "bootstrap");
}

#[test]
fn settings_of_a_stream() {
    let mut s = stream();
    s.set_raw();
    s.set_key([7; 32]);
    assert_eq!(s, stream());
    assert!(s.is_secured());
    assert_eq!(s.local_addr(), SocketAddress::V4 { ipv4: [0, 0, 0, 0], port: 0 });
    s.set_send_timeout(5);
    assert_ne!(s, stream());
    assert_eq!(s.clone(), s);
    s.set_send_timeout(30000);
    assert_eq!(s, stream());
}

#[test]
fn sending() {
    let mut s = stream();
    let out = s.send_raw(vec![1, 2, 3], false);
    assert!(out.await_change);
    assert_eq!(out.bytes, Bytes::from_static(&[1, 2, 3]));
    let out = s.send_bytes(Bytes::from_static(b"abc"), true);
    assert!(!out.await_change);
    assert_eq!(out.bytes, Bytes::from_static(b"abc"));
    let out = s.send(Ok::<Vec<u8>, String>(vec![9]), true).ok().unwrap();
    assert!(!out.await_change);
    assert_eq!(out.bytes, Bytes::from_static(&[9]));
    let refused = s.send(Err::<Vec<u8>, String>("no bytes".to_string()), true);
    assert_eq!(refused.err(), Some("no bytes".to_string()));
    assert!(s.wait_for_connect_result(false));
    assert!(!s.wait_for_connect_result(true));
}

#[test]
fn receiving() {
    let mut s = stream();
    let incoming = s.receive(false);
    assert!(incoming.await_change);
    assert_eq!(DATA_CHANNEL_BUFFER_SIZE, u16::MAX);
    assert_eq!(&incoming.buffer[..], &vec![0u8; 65535][..]);
    let mut buffer = s.receive(true).buffer;
    buffer[0] = 1;
    buffer[1] = 2;
    let received = s.next(buffer, ReadEvent::Read(3));
    assert!(!received.close_peer);
    assert_eq!(received.message, Some(Ok(BytesMut::from(&[1u8, 2, 0][..]))));
    let received = s.next(BytesMut::from(&[1u8, 2][..]), ReadEvent::Read(9));
    assert_eq!(received.message, Some(Ok(BytesMut::from(&[1u8, 2][..]))));
}

#[test]
fn receiving_nothing() {
    let mut s = stream();
    let received = s.next(BytesMut::zeroed(4), ReadEvent::Read(0));
    assert!(received.close_peer);
    assert_eq!(received.message, Some(Err(ReadError::Closed)));
    let received = s.next(BytesMut::zeroed(4), ReadEvent::Failed("lost".to_string()));
    assert!(received.close_peer);
    assert_eq!(received.message, Some(Err(ReadError::Failed("lost".to_string()))));
    let received = s.next(BytesMut::zeroed(4), ReadEvent::NotDetached);
    assert!(!received.close_peer);
    assert_eq!(received.message, None);
}

#[test]
fn receiving_in_time() {
    let mut s = stream();
    assert_eq!(s.next_timeout(None), None);
    assert_eq!(s.next_timeout(Some(None)), None);
    assert_eq!(
        s.next_timeout(Some(Some(Err(ReadError::Closed)))),
        Some(Err(ReadError::Closed))
    );
    assert_eq!(
        s.next_timeout(Some(Some(Ok(BytesMut::from(&[5u8][..]))))),
        Some(Ok(BytesMut::from(&[5u8][..])))
    );
}
