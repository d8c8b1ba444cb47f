//! A stream over KCP, and how it is opened.
use vstd::prelude::*;
use std::time::Duration;
use bytes::Bytes;
use crate::address::SocketAddress;
use crate::buffer::{bytes_content, no_bytes};

verus! {

/// What a framed stream is made with, beside the stream that it frames.
#[derive(Debug, Clone, Copy, PartialEq, Eq)]
pub struct Framing {
    /// The address of this side.
    pub local_addr: SocketAddress,
    /// Whether messages are encrypted.
    pub encrypted: bool,
    /// The timeout of sending.
    pub send_timeout: u64,
}

/// A stream over KCP, as far as it is not made of connections: those are held beside it.
#[derive(Debug, Clone, Copy, PartialEq, Eq)]
pub struct KcpStream {
    /// How the stream is framed.
    pub stream: Framing,
}

/// One thing to do while a stream is opened.
#[derive(Debug, Clone, Copy, PartialEq, Eq, Structural)]
pub enum KcpAction {
    /// Create an endpoint and run it.
    StartEndpoint,
    /// Take the two ends of the endpoint that packets go through.
    TakePacketEnds,
    /// Connect the socket to the address of [`KcpOpening::peer_addr`].
    ConnectSocket,
    /// Start to move packets between the socket and the endpoint.
    StartIo,
    /// Accept a connection.
    Accept,
    /// Connect, as [`KcpOpening::connect_request`] says.
    Connect,
    /// Take the stream of the connection.
    TakeStream,
}

/// What comes of an action that did not succeed.
#[derive(Debug, Clone, Copy, PartialEq, Eq, Structural)]
pub enum KcpFailure {
    /// The error is passed on.
    PassOn,
    /// There is no stream for the connection: [`stream_failure`] tells so.
    NoStream,
    /// The program must not go on: it was never meant to fail here.
    Panic,
}

/// Where the opening of a stream has come to.
#[derive(Debug, Clone, Copy, PartialEq, Eq, Structural)]
pub enum KcpProgress {
    /// This is to be done.
    Do(KcpAction),
    /// Opening failed.
    Failed(KcpFailure),
    /// The stream is open.
    Opened,
}

/// What is done, in order, by the side that accepts and by the side that connects.
pub open spec fn opening_plan(connecting: bool) -> Seq<KcpAction> {
    seq![
        KcpAction::StartEndpoint,
        KcpAction::TakePacketEnds,
        KcpAction::ConnectSocket,
        KcpAction::StartIo,
        if connecting {
            KcpAction::Connect
        } else {
            KcpAction::Accept
        },
        KcpAction::TakeStream,
    ]
}

/// What comes of a failure of the action.
pub open spec fn failure_of(action: KcpAction) -> KcpFailure {
    match action {
        KcpAction::ConnectSocket | KcpAction::Accept => KcpFailure::PassOn,
        KcpAction::TakeStream => KcpFailure::NoStream,
        _ => KcpFailure::Panic,
    }
}

/// How far the opening of a stream has come.
pub enum KcpStage {
    /// So many actions have succeeded.
    Done(nat),
    /// An action failed.
    Failed(KcpFailure),
}

/// The opening of a stream as a value.
pub struct KcpOpeningState {
    /// The address of the other side.
    pub peer: SocketAddress,
    /// The time that connecting may take, on the side that connects.
    pub timeout: Option<Duration>,
    /// How far it has come.
    pub stage: KcpStage,
}

impl KcpOpeningState {
    /// The opening at its start.
    pub open spec fn start(peer: SocketAddress, timeout: Option<Duration>) -> KcpOpeningState {
        KcpOpeningState { peer, timeout, stage: KcpStage::Done(0) }
    }

    /// The actions of this opening.
    pub open spec fn plan(self) -> Seq<KcpAction> {
        opening_plan(self.timeout is Some)
    }

    /// Where it has come to.
    pub open spec fn progress(self) -> KcpProgress {
        match self.stage {
            KcpStage::Failed(failure) => KcpProgress::Failed(failure),
            KcpStage::Done(n) => if n < self.plan().len() {
                KcpProgress::Do(self.plan()[n as int])
            } else {
                KcpProgress::Opened
            },
        }
    }

    /// The opening after the action to be done has succeeded or failed. An opening that has ended
    /// stays as it is.
    pub open spec fn after(self, succeeded: bool) -> KcpOpeningState {
        let stage = match self.stage {
            KcpStage::Done(n) if n < self.plan().len() => if succeeded {
                KcpStage::Done(n + 1)
            } else {
                KcpStage::Failed(failure_of(self.plan()[n as int]))
            },
            ended => ended,
        };
        KcpOpeningState { stage, ..self }
    }

    /// The opening after a number of actions with these outcomes.
    pub open spec fn after_all(self, outcomes: Seq<bool>) -> KcpOpeningState
        decreases outcomes.len(),
    {
        if outcomes.len() == 0 {
            self
        } else {
            self.after_all(outcomes.drop_last()).after(outcomes.last())
        }
    }
}

/// How an endpoint is asked to connect.
pub struct ConnectRequest {
    /// The time that it may take.
    pub timeout: Duration,
    /// The session of this side.
    pub src_session_id: u32,
    /// The session of the other side.
    pub dst_session_id: u32,
    /// What is told to the other side.
    pub data: Bytes,
}

/// A stream that is being opened.
pub struct KcpOpening {
    peer: SocketAddress,
    timeout: Option<Duration>,
    done: usize,
    failed: Option<KcpFailure>,
}

impl View for KcpOpening {
    type V = KcpOpeningState;

    closed spec fn view(&self) -> KcpOpeningState {
        KcpOpeningState {
            peer: self.peer,
            timeout: self.timeout,
            stage: match self.failed {
                Some(failure) => KcpStage::Failed(failure),
                None => KcpStage::Done(self.done as nat),
            },
        }
    }
}

impl KcpOpening {
    /// An opening never runs past its plan.
    #[verifier::type_invariant]
    spec fn inside_plan(self) -> bool {
        self.done <= 6
    }

    /// Where it has come to.
    pub fn progress(&self) -> (progress: KcpProgress)
        ensures
            progress == self@.progress(),
            progress == (match self@.stage {
                KcpStage::Failed(failure) => KcpProgress::Failed(failure),
                KcpStage::Done(n) => if n == 0 {
                    KcpProgress::Do(KcpAction::StartEndpoint)
                } else if n == 1 {
                    KcpProgress::Do(KcpAction::TakePacketEnds)
                } else if n == 2 {
                    KcpProgress::Do(KcpAction::ConnectSocket)
                } else if n == 3 {
                    KcpProgress::Do(KcpAction::StartIo)
                } else if n == 4 {
                    KcpProgress::Do(
                        if self@.timeout is Some {
                            KcpAction::Connect
                        } else {
                            KcpAction::Accept
                        },
                    )
                } else if n == 5 {
                    KcpProgress::Do(KcpAction::TakeStream)
                } else {
                    KcpProgress::Opened
                },
            }),
    {
        proof {
            use_type_invariant(self);
        }
        match self.failed {
            Some(failure) => KcpProgress::Failed(failure),
            None => match self.done {
                0 => KcpProgress::Do(KcpAction::StartEndpoint),
                1 => KcpProgress::Do(KcpAction::TakePacketEnds),
                2 => KcpProgress::Do(KcpAction::ConnectSocket),
                3 => KcpProgress::Do(KcpAction::StartIo),
                4 => match self.timeout {
                    Some(_) => KcpProgress::Do(KcpAction::Connect),
                    None => KcpProgress::Do(KcpAction::Accept),
                },
                5 => KcpProgress::Do(KcpAction::TakeStream),
                _ => KcpProgress::Opened,
            },
        }
    }

    /// Takes note of how the action to be done went, and tells where that leads.
    pub fn step(&mut self, succeeded: bool) -> (progress: KcpProgress)
        ensures
            final(self)@ == old(self)@.after(succeeded),
            progress == final(self)@.progress(),
            final(self)@.peer == old(self)@.peer,
            final(self)@.timeout == old(self)@.timeout,
            final(self)@.stage == (match old(self)@.stage {
                KcpStage::Failed(failure) => KcpStage::Failed(failure),
                KcpStage::Done(n) => if n >= 6 {
                    KcpStage::Done(n)
                } else if succeeded {
                    KcpStage::Done(n + 1)
                } else if n == 2 || (n == 4 && old(self)@.timeout is None) {
                    KcpStage::Failed(KcpFailure::PassOn)
                } else if n == 5 {
                    KcpStage::Failed(KcpFailure::NoStream)
                } else {
                    KcpStage::Failed(KcpFailure::Panic)
                },
            }),
    {
        proof {
            use_type_invariant(&*self);
        }
        match self.progress() {
            KcpProgress::Do(action) => {
                if succeeded {
                    self.done = self.done + 1;
                } else {
                    let failure = match action {
                        KcpAction::ConnectSocket | KcpAction::Accept => KcpFailure::PassOn,
                        KcpAction::TakeStream => KcpFailure::NoStream,
                        _ => KcpFailure::Panic,
                    };
                    self.failed = Some(failure);
                }
            },
            _ => {},
        }
        self.progress()
    }

    /// The address that the socket is connected to.
    pub fn peer_addr(&self) -> (addr: SocketAddress)
        ensures
            addr == self@.peer,
    {
        self.peer
    }

    /// How the endpoint is asked to connect, on the side that connects: within the timeout, with
    /// both sessions 0 and nothing to tell.
    pub fn connect_request(&self) -> (request: Option<ConnectRequest>)
        ensures
            match self@.timeout {
                Some(timeout) => {
                    &&& request matches Some(r)
                    &&& r.timeout == timeout
                    &&& r.src_session_id == 0
                    &&& r.dst_session_id == 0
                    &&& bytes_content(r.data) == Seq::<u8>::empty()
                },
                None => request is None,
            },
    {
        match self.timeout {
            Some(timeout) => Some(
                ConnectRequest { timeout, src_session_id: 0, dst_session_id: 0, data: no_bytes() },
            ),
            None => None,
        }
    }

    /// The stream, once it is open, on a socket with this address; `any_addr` takes its place where
    /// the socket does not tell its address.
    pub fn finish(
        self,
        local_addr: Option<SocketAddress>,
        any_addr: SocketAddress,
    ) -> (stream: Option<KcpStream>)
        ensures
            stream is Some <==> self@.progress() == KcpProgress::Opened,
            stream matches Some(s) ==> s.stream == framing(local_addr, any_addr),
            stream is Some <==> (self@.stage matches KcpStage::Done(n) && n >= 6),
            // the address that the socket tells, whatever it is
            stream matches Some(s) ==> {
                &&& s.stream.local_addr == (match local_addr {
                    Some(addr) => addr,
                    None => any_addr,
                })
                &&& !s.stream.encrypted
                &&& s.stream.send_timeout == 0
            },
    {
        match self.progress() {
            KcpProgress::Opened => Some(
                KcpStream { stream: KcpStream::create_framed(local_addr, any_addr) },
            ),
            _ => None,
        }
    }
}

/// How a stream on a socket with this address is framed: unencrypted, and with the timeout 0.
pub open spec fn framing(local_addr: Option<SocketAddress>, any_addr: SocketAddress) -> Framing {
    Framing {
        local_addr: match local_addr {
            Some(addr) => addr,
            None => any_addr,
        },
        encrypted: false,
        send_timeout: 0,
    }
}

impl KcpStream {
    /// How a stream on a socket with this address is framed.
    pub fn create_framed(
        local_addr: Option<SocketAddress>,
        any_addr: SocketAddress,
    ) -> (framed: Framing)
        ensures
            framed == framing(local_addr, any_addr),
            // the address that the socket tells, whatever it is
            local_addr matches Some(addr) ==> framed.local_addr == addr,
            local_addr is None ==> framed.local_addr == any_addr,
            !framed.encrypted,
            framed.send_timeout == 0,
    {
        let local_addr = match local_addr {
            Some(addr) => addr,
            None => any_addr,
        };
        Framing { local_addr, encrypted: false, send_timeout: 0 }
    }

    /// Opens a stream by accepting a connection from the address.
    pub fn accept(from_addr: SocketAddress) -> (opening: KcpOpening)
        ensures
            opening@ == KcpOpeningState::start(from_addr, None),
            opening@.peer == from_addr,
            opening@.timeout is None,
            opening@.stage == KcpStage::Done(0),
    {
        KcpOpening { peer: from_addr, timeout: None, done: 0, failed: None }
    }

    /// Opens a stream by connecting to the address.
    pub fn connect(to_addr: SocketAddress, timeout: Duration) -> (opening: KcpOpening)
        ensures
            opening@ == KcpOpeningState::start(to_addr, Some(timeout)),
            opening@.peer == to_addr,
            opening@.timeout == Some(timeout),
            opening@.stage == KcpStage::Done(0),
    {
        KcpOpening { peer: to_addr, timeout: Some(timeout), done: 0, failed: None }
    }
}

/// Tells that there is no stream for the connection.
pub fn stream_failure() -> (message: String)
    ensures
        message@ == "Failed to create KcpStream"@,
{
    "Failed to create KcpStream".to_owned()
}

/// A stream has the address that its socket tells, be it IPv4 or IPv6, and another one only where
/// the socket tells none; it is not encrypted, and starts with the timeout 0.
pub proof fn law_stream_has_the_address_of_its_socket(
    addr: SocketAddress,
    any_addr: SocketAddress,
    other_any_addr: SocketAddress,
)
    ensures
        framing(Some(addr), any_addr).local_addr == addr,
        framing(Some(addr), any_addr) == framing(Some(addr), other_any_addr),
        framing(None, any_addr).local_addr == any_addr,
        !framing(Some(addr), any_addr).encrypted && !framing(None, any_addr).encrypted,
        framing(Some(addr), any_addr).send_timeout == 0,
        framing(None, any_addr).send_timeout == 0,
{
}

/// An opening is for the address and the timeout that it was started with, and keeps them whatever
/// happens.
pub proof fn law_opening_keeps_its_address(
    peer: SocketAddress,
    timeout: Option<Duration>,
    outcomes: Seq<bool>,
)
    ensures
        KcpOpeningState::start(peer, timeout).peer == peer,
        KcpOpeningState::start(peer, timeout).timeout == timeout,
        KcpOpeningState::start(peer, timeout).stage == KcpStage::Done(0),
        KcpOpeningState::start(peer, timeout).after_all(outcomes).peer == peer,
        KcpOpeningState::start(peer, timeout).after_all(outcomes).timeout == timeout,
{
    lemma_after_all(peer, timeout, outcomes);
}

/// What is done, in which order, and what comes of each failure: one of the socket or of accepting
/// is passed on, one of taking the stream tells that there is none, and any other ends the program.
pub proof fn law_opening_goes_action_by_action(
    opening: KcpOpeningState,
    outcomes: Seq<bool>,
    last: bool,
)
    ensures
        opening.after_all(Seq::empty()) == opening,
        opening.after_all(outcomes.push(last)) == opening.after_all(outcomes).after(last),
        opening.after(last).peer == opening.peer,
        opening.after(last).timeout == opening.timeout,
        opening.stage matches KcpStage::Failed(failure) ==> {
            &&& opening.progress() == KcpProgress::Failed(failure)
            &&& opening.after(last) == opening
        },
        opening.stage matches KcpStage::Done(n) ==> {
            &&& n == 0 ==> opening.progress() == KcpProgress::Do(KcpAction::StartEndpoint)
            &&& n == 1 ==> opening.progress() == KcpProgress::Do(KcpAction::TakePacketEnds)
            &&& n == 2 ==> opening.progress() == KcpProgress::Do(KcpAction::ConnectSocket)
            &&& n == 3 ==> opening.progress() == KcpProgress::Do(KcpAction::StartIo)
            &&& n == 4 && opening.timeout is None ==> opening.progress() == KcpProgress::Do(
                KcpAction::Accept,
            )
            &&& n == 4 && opening.timeout is Some ==> opening.progress() == KcpProgress::Do(
                KcpAction::Connect,
            )
            &&& n == 5 ==> opening.progress() == KcpProgress::Do(KcpAction::TakeStream)
            &&& n >= 6 ==> opening.progress() == KcpProgress::Opened
            &&& n < 6 ==> opening.after(true).stage == KcpStage::Done(n + 1)
            &&& n >= 6 ==> opening.after(last) == opening
        },
        opening.progress() matches KcpProgress::Do(action) ==> opening.after(false).progress()
            == KcpProgress::Failed(
            if action == KcpAction::ConnectSocket || action == KcpAction::Accept {
                KcpFailure::PassOn
            } else if action == KcpAction::TakeStream {
                KcpFailure::NoStream
            } else {
                KcpFailure::Panic
            },
        ),
{
    assert(outcomes.push(last).drop_last() =~= outcomes);
}

/// An opening advances by one action for each success, and ends with the first failure.
proof fn lemma_after_all(peer: SocketAddress, timeout: Option<Duration>, outcomes: Seq<bool>)
    ensures
        ({
            let start = KcpOpeningState::start(peer, timeout);
            let end = start.after_all(outcomes);
            let len = start.plan().len();
            &&& end.peer == peer
            &&& end.timeout == timeout
            &&& match end.stage {
                KcpStage::Done(n) => {
                    &&& n == (if outcomes.len() < len { outcomes.len() } else { len })
                    &&& forall|i: int| 0 <= i < n ==> outcomes[i]
                },
                KcpStage::Failed(failure) => exists|i: int|
                    first_failure(start.plan(), outcomes, i) && failure == failure_of(
                        start.plan()[i],
                    ),
            }
        }),
    decreases outcomes.len(),
{
    if outcomes.len() > 0 {
        let start = KcpOpeningState::start(peer, timeout);
        let head = outcomes.drop_last();
        lemma_after_all(peer, timeout, head);
        match start.after_all(head).stage {
            KcpStage::Done(n) => {
                assert forall|i: int| 0 <= i < n implies outcomes[i] by {
                    assert(head[i]);
                }
                if n < start.plan().len() && !outcomes.last() {
                    assert(first_failure(start.plan(), outcomes, n as int));
                }
            },
            KcpStage::Failed(failure) => {
                let i = choose|i: int|
                    first_failure(start.plan(), head, i) && failure == failure_of(
                        start.plan()[i],
                    );
                assert(outcomes[i] == head[i]);
                assert forall|j: int| 0 <= j < i implies outcomes[j] by {
                    assert(head[j]);
                }
                assert(first_failure(start.plan(), outcomes, i));
            },
        }
    }
}

/// Whether the action at the position is the first of the plan that failed.
pub open spec fn first_failure(plan: Seq<KcpAction>, outcomes: Seq<bool>, at: int) -> bool {
    &&& 0 <= at < plan.len()
    &&& at < outcomes.len()
    &&& !outcomes[at]
    &&& forall|i: int| 0 <= i < at ==> outcomes[i]
}

/// A stream is opened exactly when every action of the plan has been done and has succeeded.
pub proof fn law_opened_only_when_all_succeeded(
    peer: SocketAddress,
    timeout: Option<Duration>,
    outcomes: Seq<bool>,
)
    ensures
        ({
            let plan = opening_plan(timeout is Some);
            KcpOpeningState::start(peer, timeout).after_all(outcomes).progress()
                == KcpProgress::Opened <==> {
                &&& outcomes.len() >= plan.len()
                &&& forall|i: int| 0 <= i < plan.len() ==> outcomes[i]
            }
        }),
{
    lemma_after_all(peer, timeout, outcomes);
}

/// The first action that fails decides what comes of the opening, and what happens after it does
/// not matter.
pub proof fn law_first_failure_decides(
    peer: SocketAddress,
    timeout: Option<Duration>,
    outcomes: Seq<bool>,
    at: int,
)
    requires
        first_failure(opening_plan(timeout is Some), outcomes, at),
    ensures
        KcpOpeningState::start(peer, timeout).after_all(outcomes).progress()
            == KcpProgress::Failed(failure_of(opening_plan(timeout is Some)[at])),
{
    lemma_after_all(peer, timeout, outcomes);
    let plan = opening_plan(timeout is Some);
    match KcpOpeningState::start(peer, timeout).after_all(outcomes).stage {
        KcpStage::Done(n) => {
            assert(outcomes[at]);
        },
        KcpStage::Failed(failure) => {
            let i = choose|i: int|
                first_failure(plan, outcomes, i) && failure == failure_of(plan[i]);
            if i < at {
                assert(outcomes[i]);
            }
            if at < i {
                assert(outcomes[at]);
            }
        },
    }
}

/// As long as everything succeeds, the actions are done in the order of the plan, from its first
/// one on.
pub proof fn law_actions_follow_the_plan(
    peer: SocketAddress,
    timeout: Option<Duration>,
    outcomes: Seq<bool>,
)
    requires
        outcomes.len() < opening_plan(timeout is Some).len(),
        forall|i: int| 0 <= i < outcomes.len() ==> outcomes[i],
    ensures
        KcpOpeningState::start(peer, timeout).after_all(outcomes).progress() == KcpProgress::Do(
            opening_plan(timeout is Some)[outcomes.len() as int],
        ),
{
    lemma_after_all(peer, timeout, outcomes);
    match KcpOpeningState::start(peer, timeout).after_all(outcomes).stage {
        KcpStage::Done(n) => {},
        KcpStage::Failed(failure) => {
            let plan = opening_plan(timeout is Some);
            let i = choose|i: int|
                first_failure(plan, outcomes, i) && failure == failure_of(plan[i]);
            assert(outcomes[i]);
        },
    }
}

} // verus!
