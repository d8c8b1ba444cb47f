use bytes::BytesMut;
use hbb_common::address::SocketAddress;
use hbb_common::error::ErrorKind;
use hbb_common::kcp_io::{
    datagram_buffer, pump_input, pump_output, InputAction, InputEvent, OutputAction, OutputEvent,
};
use hbb_common::kcp_stream::{
    stream_failure, KcpAction, KcpFailure, KcpOpening, KcpProgress, KcpStream,
};
use std::time::Duration;

const PEER: SocketAddress = SocketAddress::V4 { ipv4: [10, 0, 0, 1], port: 21116 };
const ANY: SocketAddress = SocketAddress::V4 { ipv4: [0, 0, 0, 0], port: 0 };
const MINE: SocketAddress =
    SocketAddress::V6 { ipv6: [1; 16], port: 5, flowinfo: 6, scope_id: 7 };

fn accepting() -> KcpOpening {
    KcpStream::accept(PEER)
}

fn connecting() -> KcpOpening {
    KcpStream::connect(PEER, Duration::new(3, 500))
}

fn actions(mut opening: KcpOpening) -> Vec<KcpAction> {
    let mut actions = Vec::new();
    let mut progress = opening.progress();
    while let KcpProgress::Do(action) = progress {
        actions.push(action);
        progress = opening.step(true);
    }
    assert_eq!(progress, KcpProgress::Opened);
    actions
}

fn failure_at(mut opening: KcpOpening, at: usize) -> KcpProgress {
    for _ in 0..at {
        opening.step(true);
    }
    let failed = opening.step(false);
    assert_eq!(opening.step(true), failed);
    assert_eq!(opening.step(false), failed);
    assert_eq!(opening.finish(Some(MINE), ANY), None);
    failed
}

#[test]
fn accepting_in_order() {
    assert_eq!(
        actions(accepting()),
        vec![
            KcpAction::StartEndpoint,
            KcpAction::TakePacketEnds,
            KcpAction::ConnectSocket,
            KcpAction::StartIo,
            KcpAction::Accept,
            KcpAction::TakeStream,
        ]
    );
    assert_eq!(accepting().peer_addr(), PEER);
    assert!(accepting().connect_request().is_none());
}

#[test]
fn connecting_in_order() {
    assert_eq!(
        actions(connecting()),
        vec![
            KcpAction::StartEndpoint,
            KcpAction::TakePacketEnds,
            KcpAction::ConnectSocket,
            KcpAction::StartIo,
            KcpAction::Connect,
            KcpAction::TakeStream,
        ]
    );
    assert_eq!(connecting().peer_addr(), PEER);
    let request = connecting().connect_request().unwrap();
    assert_eq!(request.timeout, Duration::new(3, 500));
    assert_eq!(request.src_session_id, 0);
    assert_eq!(request.dst_session_id, 0);
    assert!(request.data.is_empty());
}

#[test]
fn failures_of_accepting() {
    assert_eq!(failure_at(accepting(), 1), KcpProgress::Failed(KcpFailure::Panic));
    assert_eq!(failure_at(accepting(), 2), KcpProgress::Failed(KcpFailure::PassOn));
    assert_eq!(failure_at(accepting(), 4), KcpProgress::Failed(KcpFailure::PassOn));
    assert_eq!(failure_at(accepting(), 5), KcpProgress::Failed(KcpFailure::NoStream));
    assert_eq!(stream_failure(), "Failed to create KcpStream");
}

#[test]
fn failures_of_connecting() {
    assert_eq!(failure_at(connecting(), 2), KcpProgress::Failed(KcpFailure::PassOn));
    assert_eq!(failure_at(connecting(), 4), KcpProgress::Failed(KcpFailure::Panic));
    assert_eq!(failure_at(connecting(), 5), KcpProgress::Failed(KcpFailure::NoStream));
}

#[test]
fn opened_stream_is_framed() {
    let mut opening = accepting();
    for _ in 0..6 {
        opening.step(true);
    }
    assert_eq!(opening.step(false), KcpProgress::Opened);
    let stream = opening.finish(Some(MINE), ANY).unwrap();
    assert_eq!(stream.stream.local_addr, MINE);
    assert!(!stream.stream.encrypted);
    assert_eq!(stream.stream.send_timeout, 0);
    assert_eq!(KcpStream::create_framed(None, ANY).local_addr, ANY);
}

#[test]
fn opening_that_is_not_done_gives_no_stream() {
    let mut opening = connecting();
    for _ in 0..5 {
        opening.step(true);
    }
    assert_eq!(opening.finish(Some(MINE), ANY), None);
}

#[test]
fn packets_go_out() {
    let packet = BytesMut::from(&[1u8, 2, 3][..]);
    assert!(matches!(
        pump_output(OutputEvent::Packet(packet.clone())),
        OutputAction::Send(sent) if sent == packet
    ));
    assert!(matches!(pump_output(OutputEvent::Sent), OutputAction::Receive));
    assert!(matches!(pump_output(OutputEvent::Closed), OutputAction::Stop));
}

#[test]
fn errors_of_sending() {
    for kind in [ErrorKind::WouldBlock, ErrorKind::Interrupted] {
        assert!(matches!(pump_output(OutputEvent::SendFailed(kind)), OutputAction::Receive));
    }
    for kind in [ErrorKind::Other, ErrorKind::InvalidInput] {
        assert!(matches!(pump_output(OutputEvent::SendFailed(kind)), OutputAction::Stop));
    }
}

#[test]
fn datagrams_come_in() {
    let mut buffer = datagram_buffer();
    assert_eq!(buffer, vec![0u8; 10240]);
    buffer[0] = 4;
    buffer[2] = 6;
    assert!(matches!(
        pump_input(&buffer, InputEvent::Datagram(3)),
        InputAction::Deliver(packet) if packet == [4u8, 0, 6][..]
    ));
    assert!(matches!(
        pump_input(&buffer, InputEvent::Datagram(0)),
        InputAction::Deliver(packet) if packet.is_empty()
    ));
    assert!(matches!(
        pump_input(&buffer, InputEvent::Datagram(10240)),
        InputAction::Deliver(packet) if packet[..] == buffer[..]
    ));
    for taken in [true, false] {
        assert!(matches!(
            pump_input(&buffer, InputEvent::Delivered(taken)),
            InputAction::Receive
        ));
    }
}

#[test]
fn errors_of_receiving() {
    let buffer = datagram_buffer();
    for kind in [ErrorKind::WouldBlock, ErrorKind::Interrupted] {
        assert!(matches!(
            pump_input(&buffer, InputEvent::ReceiveFailed(kind)),
            InputAction::Receive
        ));
    }
    for kind in [ErrorKind::Other, ErrorKind::InvalidInput] {
        assert!(matches!(
            pump_input(&buffer, InputEvent::ReceiveFailed(kind)),
            InputAction::Stop
        ));
    }
}
