use bytes::Bytes;
use hbb_common::address::SocketAddress;
use hbb_common::webrtc_dummy::{is_webrtc_endpoint, WebRTCStream};

#[test]
fn nothing_is_an_endpoint() {
    assert!(!is_webrtc_endpoint("webrtc://aGVsbG8="));
    assert!(!is_webrtc_endpoint(""));
}

#[test]
fn stand_in_takes_everything_and_gives_nothing() {
    let mut s = WebRTCStream {};
    s.set_raw();
    s.set_send_timeout(5);
    s.set_key([0; 32]);
    assert_eq!(s, WebRTCStream {});
    assert!(!s.is_secured());
    assert_eq!(s.local_addr(), SocketAddress::V4 { ipv4: [0, 0, 0, 0], port: 0 });
    let sent: Result<(), String> = s.send(&"message");
    assert_eq!(sent, Ok(()));
    let sent: Result<(), String> = s.send_raw(vec![1]);
    assert_eq!(sent, Ok(()));
    let sent: Result<(), String> = s.send_bytes(Bytes::from_static(b"x"));
    assert_eq!(sent, Ok(()));
    assert_eq!(s.next(), None);
    assert_eq!(s.next_timeout(10), None);
}
