use hbb_common::peer::{handle, PeerAction, PeerConnectionState, PeerEvent};

#[test]
fn channel_events() {
    assert_eq!(handle(PeerEvent::ChannelOpen), PeerAction::Notify);
    assert_eq!(handle(PeerEvent::ChannelCreated), PeerAction::UseChannel);
}

#[test]
fn state_changes() {
    let cases = [
        (PeerConnectionState::Unspecified, PeerAction::Ignore),
        (PeerConnectionState::New, PeerAction::Ignore),
        (PeerConnectionState::Connecting, PeerAction::Ignore),
        (PeerConnectionState::Connected, PeerAction::Ignore),
        (PeerConnectionState::Disconnected, PeerAction::NotifyAndClose),
        (PeerConnectionState::Failed, PeerAction::ForgetSession),
        (PeerConnectionState::Closed, PeerAction::ForgetSession),
    ];
    for (state, action) in cases {
        assert_eq!(handle(PeerEvent::StateChange(state)), action);
    }
}
