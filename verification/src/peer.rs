//! What the events of a peer connection lead to.
use vstd::prelude::*;

verus! {

/// The state of a peer connection.
#[derive(Debug, Clone, Copy, PartialEq, Eq, Structural)]
pub enum PeerConnectionState {
    Unspecified,
    New,
    Connecting,
    Connected,
    Disconnected,
    Failed,
    Closed,
}

/// What happened to a peer connection.
#[derive(Debug, Clone, Copy, PartialEq, Eq, Structural)]
pub enum PeerEvent {
    /// The data channel that was there, or that the remote peer created, is open.
    ChannelOpen,
    /// The remote peer created a data channel.
    ChannelCreated,
    /// The state of the connection changed.
    StateChange(PeerConnectionState),
}

/// What is done about it.
#[derive(Debug, Clone, Copy, PartialEq, Eq, Structural)]
pub enum PeerAction {
    /// Nothing.
    Ignore,
    /// Announce that the connection is open, or lost.
    Notify,
    /// Use the new data channel from now on, and have its opening handled.
    UseChannel,
    /// Announce that the connection is lost, and close the data channel.
    NotifyAndClose,
    /// Drop the session from those that are kept.
    ForgetSession,
}

/// What is done about an event.
pub open spec fn reaction(event: PeerEvent) -> PeerAction {
    match event {
        PeerEvent::ChannelOpen => PeerAction::Notify,
        PeerEvent::ChannelCreated => PeerAction::UseChannel,
        PeerEvent::StateChange(PeerConnectionState::Disconnected) => PeerAction::NotifyAndClose,
        PeerEvent::StateChange(PeerConnectionState::Failed) => PeerAction::ForgetSession,
        PeerEvent::StateChange(PeerConnectionState::Closed) => PeerAction::ForgetSession,
        PeerEvent::StateChange(_) => PeerAction::Ignore,
    }
}

/// Whether an event has it announced that the connection is open, or lost.
pub open spec fn announces(event: PeerEvent) -> bool {
    reaction(event) == PeerAction::Notify || reaction(event) == PeerAction::NotifyAndClose
}

/// Whether it has been announced, after these events, that the connection is open, or lost. It
/// starts out not to be, and nothing takes it back.
pub open spec fn notified(events: Seq<PeerEvent>) -> bool
    decreases events.len(),
{
    events.len() > 0 && (announces(events.last()) || notified(events.drop_last()))
}

/// Decides what is done about an event.
pub fn handle(event: PeerEvent) -> (action: PeerAction)
    ensures
        action == reaction(event),
        action == (match event {
            PeerEvent::ChannelOpen => PeerAction::Notify,
            PeerEvent::ChannelCreated => PeerAction::UseChannel,
            PeerEvent::StateChange(state) => match state {
                PeerConnectionState::Disconnected => PeerAction::NotifyAndClose,
                PeerConnectionState::Failed | PeerConnectionState::Closed
                    => PeerAction::ForgetSession,
                _ => PeerAction::Ignore,
            },
        }),
{
    match event {
        PeerEvent::ChannelOpen => PeerAction::Notify,
        PeerEvent::ChannelCreated => PeerAction::UseChannel,
        PeerEvent::StateChange(s) => {
            if s == PeerConnectionState::Disconnected {
                PeerAction::NotifyAndClose
            } else if s == PeerConnectionState::Failed || s == PeerConnectionState::Closed {
                PeerAction::ForgetSession
            } else {
                PeerAction::Ignore
            }
        },
    }
}

/// A session is forgotten when its connection has failed or was closed; the data channel is closed
/// when it is disconnected; an open channel or a disconnection is announced, and nothing else is.
pub proof fn law_reactions(event: PeerEvent)
    ensures
        reaction(event) == PeerAction::ForgetSession <==> {
            ||| event == PeerEvent::StateChange(PeerConnectionState::Failed)
            ||| event == PeerEvent::StateChange(PeerConnectionState::Closed)
        },
        reaction(event) == PeerAction::NotifyAndClose <==> event == PeerEvent::StateChange(
            PeerConnectionState::Disconnected,
        ),
        reaction(event) == PeerAction::Notify <==> event == PeerEvent::ChannelOpen,
        reaction(event) == PeerAction::UseChannel <==> event == PeerEvent::ChannelCreated,
        announces(event) <==> {
            ||| event == PeerEvent::ChannelOpen
            ||| event == PeerEvent::StateChange(PeerConnectionState::Disconnected)
        },
{
}

/// The connection counts as open, or lost, from the first event on that announces it.
pub proof fn law_notified_by_some_event(events: Seq<PeerEvent>)
    ensures
        notified(events) <==> exists|i: int|
            0 <= i < events.len() && announces(#[trigger] events[i]),
    decreases events.len(),
{
    if events.len() > 0 {
        let head = events.drop_last();
        law_notified_by_some_event(head);
        if notified(head) {
            let i = choose|i: int| 0 <= i < head.len() && announces(#[trigger] head[i]);
            assert(announces(events[i]));
        }
        if exists|i: int| 0 <= i < events.len() && announces(#[trigger] events[i]) {
            let i = choose|i: int| 0 <= i < events.len() && announces(#[trigger] events[i]);
            if i < head.len() {
                assert(announces(head[i]));
            }
        }
    }
}

/// Once it was announced that the connection is open, or lost, no later event takes it back: what is
/// sent or received after that waits no more.
pub proof fn law_notified_for_good(events: Seq<PeerEvent>, later: Seq<PeerEvent>)
    requires
        notified(events),
    ensures
        notified(events + later),
{
    law_notified_by_some_event(events);
    law_notified_by_some_event(events + later);
    let i = choose|i: int| 0 <= i < events.len() && announces(#[trigger] events[i]);
    assert(announces((events + later)[i]));
}

} // verus!
