//! How the packets of a KCP endpoint get to a UDP socket, and datagrams from the socket to the
//! endpoint. Each way has a loop of its own; here is what the loops do about what happens.
use vstd::prelude::*;
use bytes::BytesMut;
use crate::buffer::{buffer_content, buffer_from_slice};
use crate::error::ErrorKind;

verus! {

/// The size of the buffer that datagrams are received in.
pub const DATAGRAM_BUFFER_SIZE: usize = 10240;

/// Whether an error passes by itself, so that the loop goes on.
pub open spec fn is_transient(kind: ErrorKind) -> bool {
    kind == ErrorKind::WouldBlock || kind == ErrorKind::Interrupted
}

/// Whether an error passes by itself, so that the loop goes on.
fn transient(kind: ErrorKind) -> (res: bool)
    ensures
        res == is_transient(kind),
        res <==> kind == ErrorKind::WouldBlock || kind == ErrorKind::Interrupted,
{
    kind == ErrorKind::WouldBlock || kind == ErrorKind::Interrupted
}

/// What happened on the way from the endpoint to the socket.
pub enum OutputEvent {
    /// The endpoint gave out a packet.
    Packet(BytesMut),
    /// The endpoint will give out no more packets.
    Closed,
    /// A packet was sent.
    Sent,
    /// A packet could not be sent.
    SendFailed(ErrorKind),
}

/// What the loop from the endpoint to the socket does next.
pub enum OutputAction {
    /// Wait for a packet of the endpoint.
    Receive,
    /// Send the packet.
    Send(BytesMut),
    /// End.
    Stop,
}

/// What happened on the way from the socket to the endpoint.
pub enum InputEvent {
    /// A datagram of this size was received into the buffer.
    Datagram(usize),
    /// Receiving failed.
    ReceiveFailed(ErrorKind),
    /// A packet was handed to the endpoint, which took it or did not.
    Delivered(bool),
}

/// What the loop from the socket to the endpoint does next.
pub enum InputAction {
    /// Wait for a datagram.
    Receive,
    /// Hand the packet to the endpoint.
    Deliver(BytesMut),
    /// End.
    Stop,
}

/// Whether the loop from the endpoint to the socket ends with the event.
pub open spec fn output_ends(event: OutputEvent) -> bool {
    match event {
        OutputEvent::Closed => true,
        OutputEvent::SendFailed(kind) => !is_transient(kind),
        _ => false,
    }
}

/// Whether the loop from the socket to the endpoint ends with the event.
pub open spec fn input_ends(event: InputEvent) -> bool {
    match event {
        InputEvent::ReceiveFailed(kind) => !is_transient(kind),
        _ => false,
    }
}

/// What the loop from the endpoint to the socket does about an event.
pub open spec fn output_action(event: OutputEvent) -> OutputAction {
    match event {
        OutputEvent::Packet(data) => OutputAction::Send(data),
        _ => if output_ends(event) {
            OutputAction::Stop
        } else {
            OutputAction::Receive
        },
    }
}

/// Whether this is what the loop from the socket to the endpoint does about an event, when this is
/// in the buffer.
pub open spec fn is_input_action(buffer: Seq<u8>, event: InputEvent, action: InputAction) -> bool {
    match event {
        InputEvent::Datagram(size) => action matches InputAction::Deliver(packet)
            && buffer_content(packet) == buffer.take(size as int),
        _ => if input_ends(event) {
            action is Stop
        } else {
            action is Receive
        },
    }
}

/// Decides what the loop from the endpoint to the socket does about an event.
pub fn pump_output(event: OutputEvent) -> (action: OutputAction)
    ensures
        action == output_action(event),
        match event {
            OutputEvent::Packet(data) => action == OutputAction::Send(data),
            OutputEvent::Closed => action is Stop,
            OutputEvent::Sent => action is Receive,
            OutputEvent::SendFailed(kind) => if kind == ErrorKind::WouldBlock || kind
                == ErrorKind::Interrupted {
                action is Receive
            } else {
                action is Stop
            },
        },
{
    match event {
        OutputEvent::Packet(data) => OutputAction::Send(data),
        OutputEvent::Closed => OutputAction::Stop,
        OutputEvent::Sent => OutputAction::Receive,
        OutputEvent::SendFailed(kind) => {
            // a fatal error ends the loop, an error that passes does not
            if !transient(kind) {
                OutputAction::Stop
            } else {
                OutputAction::Receive
            }
        },
    }
}

/// Decides what the loop from the socket to the endpoint does about an event.
pub fn pump_input(buffer: &[u8], event: InputEvent) -> (action: InputAction)
    requires
        event matches InputEvent::Datagram(size) ==> size <= buffer@.len(),
    ensures
        is_input_action(buffer@, event, action),
        match event {
            // whatever its size
            InputEvent::Datagram(size) => {
                &&& action matches InputAction::Deliver(packet)
                &&& buffer_content(packet) == buffer@.take(size as int)
            },
            InputEvent::ReceiveFailed(kind) => if kind == ErrorKind::WouldBlock || kind
                == ErrorKind::Interrupted {
                action is Receive
            } else {
                action is Stop
            },
            InputEvent::Delivered(_) => action is Receive,
        },
{
    match event {
        InputEvent::Datagram(size) => {
            let datagram = vstd::slice::slice_subrange(buffer, 0, size);
            assert(datagram@ =~= buffer@.take(size as int));
            InputAction::Deliver(buffer_from_slice(datagram))
        },
        InputEvent::ReceiveFailed(kind) => {
            // a fatal error ends the loop, an error that passes does not
            if !transient(kind) {
                InputAction::Stop
            } else {
                InputAction::Receive
            }
        },
        InputEvent::Delivered(_) => InputAction::Receive,
    }
}

/// The buffer that datagrams are received in.
pub fn datagram_buffer() -> (buffer: Vec<u8>)
    ensures
        buffer@ == Seq::new(DATAGRAM_BUFFER_SIZE as nat, |i: int| 0u8),
        buffer@.len() == 10240,
{
    let buffer: Vec<u8> = vec![0; DATAGRAM_BUFFER_SIZE];
    assert(buffer@ =~= Seq::new(DATAGRAM_BUFFER_SIZE as nat, |i: int| 0u8));
    buffer
}

/// Every packet of the endpoint is sent as it is, whatever it holds; nothing but the end of the
/// packets or a fatal error of sending ends the loop.
pub proof fn law_output_event_by_event(event: OutputEvent)
    ensures
        event matches OutputEvent::Packet(data) ==> output_action(event) == OutputAction::Send(data),
        output_action(OutputEvent::Sent) is Receive,
        output_action(OutputEvent::Closed) is Stop,
        output_action(event) is Stop <==> {
            ||| event is Closed
            ||| event matches OutputEvent::SendFailed(ErrorKind::InvalidInput)
            ||| event matches OutputEvent::SendFailed(ErrorKind::Other)
        },
        output_ends(event) <==> output_action(event) is Stop,
        output_action(event) matches OutputAction::Send(sent) ==> event == OutputEvent::Packet(sent),
{
}

/// Every datagram is handed over as it is, whatever its size and whatever else is in the buffer;
/// nothing but a fatal error of receiving ends the loop.
pub proof fn law_input_event_by_event(
    buffer: Seq<u8>,
    size: usize,
    event: InputEvent,
    action: InputAction,
)
    requires
        size <= buffer.len(),
    ensures
        is_input_action(buffer, InputEvent::Datagram(size), action) <==> {
            &&& action matches InputAction::Deliver(packet)
            &&& buffer_content(packet) == buffer.take(size as int)
        },
        is_input_action(buffer, event, action) ==> {
            &&& action is Deliver <==> event is Datagram
            &&& action is Stop <==> {
                ||| event matches InputEvent::ReceiveFailed(ErrorKind::InvalidInput)
                ||| event matches InputEvent::ReceiveFailed(ErrorKind::Other)
            }
        },
        input_ends(event) <==> {
            ||| event matches InputEvent::ReceiveFailed(ErrorKind::InvalidInput)
            ||| event matches InputEvent::ReceiveFailed(ErrorKind::Other)
        },
{
}

/// The packets that the endpoint gave out, in order.
pub open spec fn packets_given(events: Seq<OutputEvent>) -> Seq<BytesMut>
    decreases events.len(),
{
    if events.len() == 0 {
        Seq::empty()
    } else {
        match events.last() {
            OutputEvent::Packet(data) => packets_given(events.drop_last()).push(data),
            _ => packets_given(events.drop_last()),
        }
    }
}

/// The packets that the loop from the endpoint to the socket has sent after these events, and
/// whether it still runs.
pub open spec fn output_run(events: Seq<OutputEvent>) -> (Seq<BytesMut>, bool)
    decreases events.len(),
{
    if events.len() == 0 {
        (Seq::empty(), true)
    } else {
        let (sent, running) = output_run(events.drop_last());
        if !running {
            (sent, false)
        } else {
            match output_action(events.last()) {
                OutputAction::Send(data) => (sent.push(data), true),
                OutputAction::Receive => (sent, true),
                OutputAction::Stop => (sent, false),
            }
        }
    }
}

/// The loop from the endpoint to the socket ends with the endpoint's packets or with the first fatal
/// error, and with nothing else; until then it sends every packet that the endpoint gives out, once,
/// in order and as it is.
pub proof fn law_output_is_complete(events: Seq<OutputEvent>)
    ensures
        output_run(events).1 <==> forall|i: int|
            0 <= i < events.len() ==> !output_ends(#[trigger] events[i]),
        output_run(events).1 ==> output_run(events).0 == packets_given(events),
    decreases events.len(),
{
    if events.len() > 0 {
        let head = events.drop_last();
        law_output_is_complete(head);
        if output_run(head).1 {
            assert forall|i: int| 0 <= i < events.len() - 1 implies !output_ends(
                #[trigger] events[i],
            ) by {
                assert(!output_ends(head[i]));
            }
        } else {
            let i = choose|i: int| 0 <= i < head.len() && output_ends(#[trigger] head[i]);
            assert(output_ends(events[i]));
        }
    }
}

/// The packets that were given out are those of the events, each in its place.
pub proof fn law_packets_are_those_given(events: Seq<OutputEvent>, event: OutputEvent)
    ensures
        packets_given(Seq::empty()) == Seq::<BytesMut>::empty(),
        event matches OutputEvent::Packet(data) ==> packets_given(events.push(event))
            == packets_given(events).push(data),
        !(event is Packet) ==> packets_given(events.push(event)) == packets_given(events),
{
    assert(events.push(event).drop_last() =~= events);
}

/// The loop from the endpoint to the socket runs as long as the packets have not ended and sending
/// has not failed but for errors that pass; so long, each packet that comes is sent next.
pub proof fn law_output_runs_until_a_fatal_event(events: Seq<OutputEvent>, event: OutputEvent)
    ensures
        output_run(Seq::empty()) == (Seq::<BytesMut>::empty(), true),
        output_run(events).1 <==> forall|i: int|
            0 <= i < events.len() ==> {
                &&& !(#[trigger] events[i] is Closed)
                &&& events[i] != OutputEvent::SendFailed(ErrorKind::InvalidInput)
                &&& events[i] != OutputEvent::SendFailed(ErrorKind::Other)
            },
        output_run(events).1 ==> (event matches OutputEvent::Packet(data) ==> output_run(
            events.push(event),
        ) == (output_run(events).0.push(data), true)),
        output_run(events).1 && !(event is Packet) ==> output_run(events.push(event)).0
            == output_run(events).0,
        !output_run(events).1 ==> output_run(events.push(event)) == output_run(events),
{
    law_output_is_complete(events);
    assert(events.push(event).drop_last() =~= events);
    assert forall|i: int| 0 <= i < events.len() implies (output_ends(#[trigger] events[i]) <==> {
        ||| events[i] is Closed
        ||| events[i] == OutputEvent::SendFailed(ErrorKind::InvalidInput)
        ||| events[i] == OutputEvent::SendFailed(ErrorKind::Other)
    }) by {
        law_output_event_by_event(events[i]);
    }
}

/// Once the loop from the endpoint to the socket has ended, it stays so and sends nothing more,
/// whatever happens.
pub proof fn law_output_ends_for_good(events: Seq<OutputEvent>, later: Seq<OutputEvent>)
    requires
        !output_run(events).1,
    ensures
        output_run(events + later) == output_run(events),
    decreases later.len(),
{
    if later.len() == 0 {
        assert(events + later =~= events);
    } else {
        law_output_ends_for_good(events, later.drop_last());
        assert((events + later).drop_last() =~= events + later.drop_last());
    }
}

/// A loop from the endpoint to the socket that has ended has sent every packet that the endpoint
/// gave out before the end, once, in order and as it is, and nothing after it.
pub proof fn law_output_up_to_the_end(
    events: Seq<OutputEvent>,
    end: OutputEvent,
    later: Seq<OutputEvent>,
)
    requires
        forall|i: int| 0 <= i < events.len() ==> !output_ends(#[trigger] events[i]),
        output_ends(end),
    ensures
        output_run(events.push(end) + later) == (packets_given(events), false),
{
    law_output_is_complete(events);
    assert(events.push(end).drop_last() =~= events);
    law_output_ends_for_good(events.push(end), later);
}

/// The datagrams that were received, in order; each event comes with what is in the buffer.
pub open spec fn datagrams_received(events: Seq<(Seq<u8>, InputEvent)>) -> Seq<Seq<u8>>
    decreases events.len(),
{
    if events.len() == 0 {
        Seq::empty()
    } else {
        match events.last() {
            (buffer, InputEvent::Datagram(size)) => datagrams_received(events.drop_last()).push(
                buffer.take(size as int),
            ),
            _ => datagrams_received(events.drop_last()),
        }
    }
}

/// What the loop from the socket to the endpoint has handed over by these actions, and whether it
/// still runs.
pub open spec fn input_run(actions: Seq<InputAction>) -> (Seq<Seq<u8>>, bool)
    decreases actions.len(),
{
    if actions.len() == 0 {
        (Seq::empty(), true)
    } else {
        let (delivered, running) = input_run(actions.drop_last());
        if !running {
            (delivered, false)
        } else {
            match actions.last() {
                InputAction::Deliver(packet) => (delivered.push(buffer_content(packet)), true),
                InputAction::Receive => (delivered, true),
                InputAction::Stop => (delivered, false),
            }
        }
    }
}

/// The loop from the socket to the endpoint ends with the first fatal error, and with nothing else,
/// not even with an endpoint that takes no more packets; until then it hands over every datagram
/// that is received, once, in order and as it is.
pub proof fn law_input_is_complete(
    events: Seq<(Seq<u8>, InputEvent)>,
    actions: Seq<InputAction>,
)
    requires
        actions.len() == events.len(),
        forall|i: int|
            0 <= i < events.len() ==> is_input_action(
                events[i].0,
                events[i].1,
                #[trigger] actions[i],
            ),
    ensures
        input_run(actions).1 <==> forall|i: int|
            0 <= i < events.len() ==> !input_ends((#[trigger] events[i]).1),
        input_run(actions).1 ==> input_run(actions).0 == datagrams_received(events),
    decreases events.len(),
{
    if events.len() > 0 {
        let head = events.drop_last();
        let before = actions.drop_last();
        assert forall|i: int| 0 <= i < head.len() implies is_input_action(
            head[i].0,
            head[i].1,
            #[trigger] before[i],
        ) by {
            assert(before[i] == actions[i]);
        }
        law_input_is_complete(head, before);
        assert(is_input_action(events.last().0, events.last().1, actions.last()));
        if input_run(before).1 {
            assert forall|i: int| 0 <= i < events.len() - 1 implies !input_ends(
                (#[trigger] events[i]).1,
            ) by {
                assert(!input_ends(head[i].1));
            }
        } else {
            let i = choose|i: int| 0 <= i < head.len() && input_ends((#[trigger] head[i]).1);
            assert(input_ends(events[i].1));
        }
    }
}

/// The datagrams that were received are those of the events, each in its place and with the bytes
/// that were in the buffer up to its size.
pub proof fn law_datagrams_are_those_received(
    events: Seq<(Seq<u8>, InputEvent)>,
    buffer: Seq<u8>,
    event: InputEvent,
)
    ensures
        datagrams_received(Seq::empty()) == Seq::<Seq<u8>>::empty(),
        event matches InputEvent::Datagram(size) ==> datagrams_received(events.push((buffer, event)))
            == datagrams_received(events).push(buffer.take(size as int)),
        !(event is Datagram) ==> datagrams_received(events.push((buffer, event)))
            == datagrams_received(events),
{
    assert(events.push((buffer, event)).drop_last() =~= events);
}

/// The loop from the socket to the endpoint runs as long as it has not stopped; so long, each packet
/// is handed over next.
pub proof fn law_input_runs_until_it_stops(actions: Seq<InputAction>, action: InputAction)
    ensures
        input_run(Seq::empty()) == (Seq::<Seq<u8>>::empty(), true),
        input_run(actions.push(action)).1 <==> input_run(actions).1 && !(action is Stop),
        input_run(actions).1 ==> (action matches InputAction::Deliver(packet) ==> input_run(
            actions.push(action),
        ).0 == input_run(actions).0.push(buffer_content(packet))),
        !input_run(actions).1 || !(action is Deliver) ==> input_run(actions.push(action)).0
            == input_run(actions).0,
{
    assert(actions.push(action).drop_last() =~= actions);
}

/// Every datagram that is received is handed over, whatever its size: the loop from the socket to
/// the endpoint ends only with an error of receiving that does not pass, and until then it has
/// handed over, for each datagram in its place, the bytes of the buffer up to its size.
pub proof fn law_input_runs_until_a_fatal_error(
    events: Seq<(Seq<u8>, InputEvent)>,
    actions: Seq<InputAction>,
)
    requires
        actions.len() == events.len(),
        forall|i: int|
            0 <= i < events.len() ==> is_input_action(
                events[i].0,
                events[i].1,
                #[trigger] actions[i],
            ),
    ensures
        input_run(actions).1 <==> forall|i: int|
            0 <= i < events.len() ==> {
                &&& (#[trigger] events[i]).1 != InputEvent::ReceiveFailed(ErrorKind::InvalidInput)
                &&& events[i].1 != InputEvent::ReceiveFailed(ErrorKind::Other)
            },
        forall|i: int|
            0 <= i < events.len() ==> ((#[trigger] events[i]).1 matches InputEvent::Datagram(size)
                ==> {
                &&& actions[i] matches InputAction::Deliver(packet)
                &&& buffer_content(packet) == events[i].0.take(size as int)
            }),
        input_run(actions).1 ==> input_run(actions).0 == datagrams_received(events),
{
    law_input_is_complete(events, actions);
    assert forall|i: int| 0 <= i < events.len() implies (input_ends((#[trigger] events[i]).1) <==> {
        ||| events[i].1 == InputEvent::ReceiveFailed(ErrorKind::InvalidInput)
        ||| events[i].1 == InputEvent::ReceiveFailed(ErrorKind::Other)
    }) by {
        law_input_event_by_event(Seq::empty(), 0, events[i].1, actions[i]);
    }
    assert forall|i: int|
        0 <= i < events.len() implies ((#[trigger] events[i]).1 matches InputEvent::Datagram(size)
        ==> {
        &&& actions[i] matches InputAction::Deliver(packet)
        &&& buffer_content(packet) == events[i].0.take(size as int)
    }) by {
        assert(is_input_action(events[i].0, events[i].1, actions[i]));
    }
}

/// Once the loop from the socket to the endpoint has ended, it stays so and hands over nothing more,
/// whatever it would have done.
pub proof fn law_input_ends_for_good(actions: Seq<InputAction>, later: Seq<InputAction>)
    requires
        !input_run(actions).1,
    ensures
        input_run(actions + later) == input_run(actions),
    decreases later.len(),
{
    if later.len() == 0 {
        assert(actions + later =~= actions);
    } else {
        law_input_ends_for_good(actions, later.drop_last());
        assert((actions + later).drop_last() =~= actions + later.drop_last());
    }
}

/// A loop from the socket to the endpoint that has ended has handed over every datagram that was
/// received before the end, once, in order and as it is, and nothing after it.
pub proof fn law_input_up_to_the_end(
    events: Seq<(Seq<u8>, InputEvent)>,
    actions: Seq<InputAction>,
    end: (Seq<u8>, InputEvent),
    end_action: InputAction,
    later: Seq<InputAction>,
)
    requires
        actions.len() == events.len(),
        forall|i: int|
            0 <= i < events.len() ==> is_input_action(
                events[i].0,
                events[i].1,
                #[trigger] actions[i],
            ),
        forall|i: int| 0 <= i < events.len() ==> !input_ends((#[trigger] events[i]).1),
        input_ends(end.1),
        is_input_action(end.0, end.1, end_action),
    ensures
        input_run(actions.push(end_action) + later) == (datagrams_received(events), false),
{
    law_input_is_complete(events, actions);
    assert(actions.push(end_action).drop_last() =~= actions);
    law_input_ends_for_good(actions.push(end_action), later);
}

} // verus!
