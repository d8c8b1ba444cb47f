//! How a stream is set up: what has to be done with the peer connection, in which order, and under
//! which key the session is kept in the end.
use vstd::prelude::*;
use vstd::utf8::encode_utf8;
use crate::base64_text::base64_encoding;
use crate::description::{
    description_json, description_read, description_view, lemma_json_not_empty, read_json,
    read_parts, Description, SdpType, SessionDescription,
};
use crate::endpoint::{
    endpoint_of, law_bare_scheme_carries_nothing, law_offer_is_read_back,
    law_offer_is_what_the_endpoint_holds, scheme,
};
use crate::error::OfferError;
use crate::session::{found, peer_key, SessionCache};
use crate::webrtc::{offer_to_answer, WebRTCStream};

verus! {

/// One thing to do while a stream is set up.
#[derive(Debug, Clone, Copy, PartialEq, Eq, Structural)]
pub enum SetupAction {
    /// Create the peer connection, with the configuration of [`peer_config`].
    CreatePeer,
    /// Create the data channel of [`bootstrap_label`] on the peer connection.
    CreateBootstrapChannel,
    /// Take an unconnected data channel, until the remote peer creates one.
    TakePlaceholderChannel,
    /// Have the events of the peer connection and of the data channel handled.
    RegisterHandlers,
    /// Create an offer.
    CreateOffer,
    /// Set the remote description, which is [`Setup::remote_description`].
    SetRemoteDescription,
    /// Create an answer.
    CreateAnswer,
    /// Have the end of the gathering of candidates announced.
    PrepareGathering,
    /// Set the offer or the answer as the local description.
    SetLocalDescription,
    /// Wait for the end of the gathering of candidates.
    AwaitGathering,
    /// Keep the session, by [`Setup::record`].
    RecordSession,
}

/// What is done, in order, by the side that makes the offer and by the side that answers one.
pub open spec fn plan(offering: bool) -> Seq<SetupAction> {
    if offering {
        seq![
            SetupAction::CreatePeer,
            SetupAction::CreateBootstrapChannel,
            SetupAction::RegisterHandlers,
            SetupAction::CreateOffer,
            SetupAction::PrepareGathering,
            SetupAction::SetLocalDescription,
            SetupAction::AwaitGathering,
            SetupAction::RecordSession,
        ]
    } else {
        seq![
            SetupAction::CreatePeer,
            SetupAction::TakePlaceholderChannel,
            SetupAction::RegisterHandlers,
            SetupAction::SetRemoteDescription,
            SetupAction::CreateAnswer,
            SetupAction::PrepareGathering,
            SetupAction::SetLocalDescription,
            SetupAction::AwaitGathering,
            SetupAction::RecordSession,
        ]
    }
}

/// How far a setup has come.
pub enum Stage {
    /// So many actions of the plan have succeeded, and the next one is to be done.
    Pending(nat),
    /// An action failed.
    Failed,
}

/// A setup as a value.
pub struct SetupState {
    /// The offer of the remote peer; empty where this side makes the offer.
    pub offer: Seq<char>,
    /// The timeout that the stream starts with, in milliseconds.
    pub send_timeout: u64,
    /// How far the setup has come.
    pub stage: Stage,
}

impl SetupState {
    /// A setup at its start.
    pub open spec fn start(offer: Seq<char>, send_timeout: u64) -> SetupState {
        SetupState { offer, send_timeout, stage: Stage::Pending(0) }
    }

    /// The actions of this setup.
    pub open spec fn plan(self) -> Seq<SetupAction> {
        plan(self.offer.len() == 0)
    }

    /// The action to be done.
    pub open spec fn pending(self) -> Option<SetupAction> {
        match self.stage {
            Stage::Pending(done) => Some(self.plan()[done as int]),
            Stage::Failed => None,
        }
    }

    /// Whether only the session remains to be kept.
    pub open spec fn ready(self) -> bool {
        self.pending() == Some(SetupAction::RecordSession)
    }

    /// The setup after the pending action has succeeded or failed. The last action stays pending:
    /// nothing follows it.
    pub open spec fn after(self, succeeded: bool) -> SetupState {
        let stage = match self.stage {
            Stage::Failed => Stage::Failed,
            Stage::Pending(done) => if !succeeded {
                Stage::Failed
            } else if done + 1 < self.plan().len() {
                Stage::Pending(done + 1)
            } else {
                Stage::Pending(done)
            },
        };
        SetupState { stage, ..self }
    }

    /// The setup after a number of actions with these outcomes.
    pub open spec fn after_all(self, outcomes: Seq<bool>) -> SetupState
        decreases outcomes.len(),
    {
        if outcomes.len() == 0 {
            self
        } else {
            self.after_all(outcomes.drop_last()).after(outcomes.last())
        }
    }

    /// The key under which the session is kept, where the peer has these descriptions.
    pub open spec fn key(
        self,
        local: Option<Description>,
        remote: Option<Description>,
    ) -> Seq<char> {
        if self.offer.len() == 0 {
            peer_key(local, remote)
        } else {
            self.offer
        }
    }
}

/// A stream that is being set up.
pub struct Setup {
    remote_offer: String,
    send_timeout: u64,
    position: usize,
    failed: bool,
}

impl View for Setup {
    type V = SetupState;

    closed spec fn view(&self) -> SetupState {
        SetupState {
            offer: self.remote_offer@,
            send_timeout: self.send_timeout,
            stage: if self.failed {
                Stage::Failed
            } else {
                Stage::Pending(self.position as nat)
            },
        }
    }
}

/// The action at a position of the plan.
fn action_at(offering: bool, position: usize) -> (action: SetupAction)
    requires
        position < plan(offering).len(),
    ensures
        action == plan(offering)[position as int],
{
    if offering {
        match position {
            0 => SetupAction::CreatePeer,
            1 => SetupAction::CreateBootstrapChannel,
            2 => SetupAction::RegisterHandlers,
            3 => SetupAction::CreateOffer,
            4 => SetupAction::PrepareGathering,
            5 => SetupAction::SetLocalDescription,
            6 => SetupAction::AwaitGathering,
            _ => SetupAction::RecordSession,
        }
    } else {
        match position {
            0 => SetupAction::CreatePeer,
            1 => SetupAction::TakePlaceholderChannel,
            2 => SetupAction::RegisterHandlers,
            3 => SetupAction::SetRemoteDescription,
            4 => SetupAction::CreateAnswer,
            5 => SetupAction::PrepareGathering,
            6 => SetupAction::SetLocalDescription,
            7 => SetupAction::AwaitGathering,
            _ => SetupAction::RecordSession,
        }
    }
}

impl Setup {
    /// A setup never runs past its plan.
    #[verifier::type_invariant]
    spec fn inside_plan(self) -> bool {
        self.position < plan(self.remote_offer@.len() == 0).len()
    }

    /// Starts the setup of a stream: one that answers the offer, or one that makes an offer, where
    /// there is none to answer.
    pub(crate) fn start(remote_offer: String, send_timeout: u64) -> (setup: Setup)
        ensures
            setup@ == SetupState::start(remote_offer@, send_timeout),
            setup@.offer == remote_offer@,
            setup@.send_timeout == send_timeout,
            setup@.stage == Stage::Pending(0),
    {
        Setup { remote_offer, send_timeout, position: 0, failed: false }
    }

    /// The action to be done; none once an action has failed.
    pub fn pending(&self) -> (action: Option<SetupAction>)
        ensures
            action == self@.pending(),
            action is None <==> self@.stage is Failed,
            self@.stage matches Stage::Pending(done) ==> action == Some(
                if done == 0 {
                    SetupAction::CreatePeer
                } else if done == 2 {
                    SetupAction::RegisterHandlers
                } else if self@.offer.len() == 0 {
                    if done == 1 {
                        SetupAction::CreateBootstrapChannel
                    } else if done == 3 {
                        SetupAction::CreateOffer
                    } else if done == 4 {
                        SetupAction::PrepareGathering
                    } else if done == 5 {
                        SetupAction::SetLocalDescription
                    } else if done == 6 {
                        SetupAction::AwaitGathering
                    } else {
                        SetupAction::RecordSession
                    }
                } else {
                    if done == 1 {
                        SetupAction::TakePlaceholderChannel
                    } else if done == 3 {
                        SetupAction::SetRemoteDescription
                    } else if done == 4 {
                        SetupAction::CreateAnswer
                    } else if done == 5 {
                        SetupAction::PrepareGathering
                    } else if done == 6 {
                        SetupAction::SetLocalDescription
                    } else if done == 7 {
                        SetupAction::AwaitGathering
                    } else {
                        SetupAction::RecordSession
                    }
                },
            ),
    {
        proof {
            use_type_invariant(self);
        }
        if self.failed {
            None
        } else {
            Some(action_at(self.remote_offer.as_str().is_empty(), self.position))
        }
    }

    /// Takes note of how the pending action went, and gives the next one.
    pub fn step(&mut self, succeeded: bool) -> (next: Option<SetupAction>)
        ensures
            final(self)@ == old(self)@.after(succeeded),
            next == final(self)@.pending(),
            final(self)@.offer == old(self)@.offer,
            final(self)@.send_timeout == old(self)@.send_timeout,
            final(self)@.stage == (match old(self)@.stage {
                Stage::Failed => Stage::Failed,
                Stage::Pending(done) => if !succeeded {
                    Stage::Failed
                } else if done < (if old(self)@.offer.len() == 0 { 7int } else { 8 }) {
                    Stage::Pending(done + 1)
                } else {
                    Stage::Pending(done)
                },
            }),
            next is None <==> !succeeded || old(self)@.stage is Failed,
    {
        proof {
            use_type_invariant(&*self);
        }
        if !succeeded {
            self.failed = true;
        } else if !self.failed {
            let last: usize = if self.remote_offer.as_str().is_empty() {
                7
            } else {
                8
            };
            if self.position < last {
                self.position = self.position + 1;
            }
        }
        self.pending()
    }

    /// The description that the remote offer holds.
    pub fn remote_description(&self) -> (read: Result<SessionDescription, serde_json::Error>)
        ensures
            read_parts(read) == description_read(self@.offer),
            match description_read(self@.offer) {
                Some((sdp_type, sdp)) => {
                    &&& read matches Ok(d)
                    &&& d.sdp_type == sdp_type
                    &&& d.sdp@ == sdp
                },
                None => read is Err,
            },
    {
        read_json(self.remote_offer.as_str())
    }

    /// The stream that is being set up.
    pub fn stream(&self) -> (stream: WebRTCStream)
        ensures
            stream.timeout() == self@.send_timeout,
    {
        WebRTCStream::with_timeout(self.send_timeout)
    }

    /// Keeps the session, if everything else has succeeded, and tells whether it was kept. The peer
    /// has the descriptions that are given.
    pub fn record<S>(
        self,
        local: &Option<SessionDescription>,
        remote: &Option<SessionDescription>,
        session: S,
        sessions: &mut SessionCache<S>,
    ) -> (kept: bool)
        ensures
            kept == self@.ready(),
            final(sessions)@ == (if self@.ready() {
                old(sessions)@.insert(
                    self@.key(description_view(*local), description_view(*remote)),
                    session,
                )
            } else {
                old(sessions)@
            }),
            // kept once only the last action of the plan is left
            kept <==> self@.stage == Stage::Pending(if self@.offer.len() == 0 { 7 } else { 8 }),
            !kept ==> final(sessions)@ == old(sessions)@,
            // an answered offer is the key itself
            kept && self@.offer.len() > 0 ==> final(sessions)@ == old(sessions)@.insert(
                self@.offer,
                session,
            ),
            // else the key is the JSON text of the offer of the two sides, wherever it is
            kept && self@.offer.len() == 0 ==> final(sessions)@ == old(sessions)@.insert(
                (match *local {
                    Some(l) => if l.sdp_type == SdpType::Offer {
                        description_json(SdpType::Offer, l.sdp@)
                    } else {
                        match *remote {
                            Some(r) => description_json(r.sdp_type, r.sdp@),
                            None => Seq::empty(),
                        }
                    },
                    None => Seq::empty(),
                }),
                session,
            ),
    {
        proof {
            use_type_invariant(&self);
        }
        match self.pending() {
            Some(SetupAction::RecordSession) => {
                let key = if self.remote_offer.as_str().is_empty() {
                    WebRTCStream::get_key_for_peer(local, remote)
                } else {
                    self.remote_offer
                };
                sessions.keep(key, session);
                true
            },
            _ => false,
        }
    }
}

/// How a peer connection is configured.
#[derive(Debug, PartialEq, Eq)]
pub struct PeerConfig {
    /// Whether data channels can be detached and read from directly.
    pub detach_data_channels: bool,
    /// Whether candidates are hidden behind multicast DNS names.
    pub multicast_dns: bool,
    /// The servers that candidates are gathered with.
    pub ice_urls: Vec<String>,
}

/// The configuration of every peer connection.
pub fn peer_config() -> (config: PeerConfig)
    ensures
        config.detach_data_channels,
        !config.multicast_dns,
        config.ice_urls@.len() == 1,
        config.ice_urls@[0]@ == "stun:stun.cloudflare.com:3478"@,
{
    let mut ice_urls: Vec<String> = Vec::new();
    ice_urls.push("stun:stun.cloudflare.com:3478".to_owned());
    PeerConfig { detach_data_channels: true, multicast_dns: false, ice_urls }
}

/// The label of the data channel that the offering side creates.
pub fn bootstrap_label() -> (label: String)
    ensures
        label@ == "bootstrap"@,
{
    "bootstrap".to_owned()
}

/// A setup advances by one action for each success, and ends for good with the first failure.
proof fn lemma_after_all(offer: Seq<char>, send_timeout: u64, outcomes: Seq<bool>)
    ensures
        ({
            let start = SetupState::start(offer, send_timeout);
            let last = (start.plan().len() - 1) as nat;
            let all = forall|i: int| 0 <= i < outcomes.len() ==> outcomes[i];
            let stage = if !all {
                Stage::Failed
            } else if outcomes.len() < last {
                Stage::Pending(outcomes.len())
            } else {
                Stage::Pending(last)
            };
            start.after_all(outcomes) == SetupState { stage, ..start }
        }),
    decreases outcomes.len(),
{
    if outcomes.len() > 0 {
        let head = outcomes.drop_last();
        lemma_after_all(offer, send_timeout, head);
        if forall|i: int| 0 <= i < head.len() ==> head[i] {
            assert forall|i: int| 0 <= i < outcomes.len() - 1 implies outcomes[i] by {
                assert(head[i]);
            }
        } else {
            let bad = choose|i: int| 0 <= i < head.len() && !head[i];
            assert(!outcomes[bad]);
        }
    }
}

/// A session can be kept exactly when every other action of the plan has been done and none has
/// failed.
pub proof fn law_kept_only_when_all_succeeded(
    offer: Seq<char>,
    send_timeout: u64,
    outcomes: Seq<bool>,
)
    ensures
        SetupState::start(offer, send_timeout).after_all(outcomes).ready() <==> {
            &&& outcomes.len() >= plan(offer.len() == 0).len() - 1
            &&& forall|i: int| 0 <= i < outcomes.len() ==> outcomes[i]
        },
{
    lemma_after_all(offer, send_timeout, outcomes);
}

/// As long as everything succeeds, the actions are done in the order of the plan, from its first
/// one on.
pub proof fn law_actions_follow_the_plan(
    offer: Seq<char>,
    send_timeout: u64,
    outcomes: Seq<bool>,
)
    requires
        outcomes.len() < plan(offer.len() == 0).len(),
        forall|i: int| 0 <= i < outcomes.len() ==> outcomes[i],
    ensures
        SetupState::start(offer, send_timeout).after_all(outcomes).pending() == Some(
            plan(offer.len() == 0)[outcomes.len() as int],
        ),
{
    lemma_after_all(offer, send_timeout, outcomes);
}

/// A setup that has failed stays failed: it has nothing more to do, and keeps no session.
pub proof fn law_failure_is_final(setup: SetupState, outcomes: Seq<bool>)
    requires
        setup.stage is Failed,
    ensures
        setup.after_all(outcomes) == setup,
        setup.pending() is None,
        !setup.ready(),
    decreases outcomes.len(),
{
    if outcomes.len() > 0 {
        law_failure_is_final(setup, outcomes.drop_last());
    }
}

/// The offer and the timeout of a setup stay what they were at its start.
pub proof fn law_setup_keeps_its_offer(setup: SetupState, outcomes: Seq<bool>)
    ensures
        setup.after_all(outcomes).offer == setup.offer,
        setup.after_all(outcomes).send_timeout == setup.send_timeout,
    decreases outcomes.len(),
{
    if outcomes.len() > 0 {
        law_setup_keeps_its_offer(setup, outcomes.drop_last());
    }
}

/// A setup that is started for an offer has that offer and that timeout, and keeps them whatever
/// happens; nothing of its plan has been done at the start.
pub proof fn law_setup_is_for_its_offer(
    offer: Seq<char>,
    send_timeout: u64,
    outcomes: Seq<bool>,
)
    ensures
        SetupState::start(offer, send_timeout).offer == offer,
        SetupState::start(offer, send_timeout).send_timeout == send_timeout,
        SetupState::start(offer, send_timeout).stage == Stage::Pending(0),
        SetupState::start(offer, send_timeout).after_all(outcomes).offer == offer,
        SetupState::start(offer, send_timeout).after_all(outcomes).send_timeout == send_timeout,
{
    law_setup_keeps_its_offer(SetupState::start(offer, send_timeout), outcomes);
}

/// One action that succeeds takes a setup one action further, up to the last one, which stays to be
/// done; one that fails ends the setup.
pub proof fn law_setup_goes_action_by_action(setup: SetupState, outcomes: Seq<bool>, last: bool)
    ensures
        setup.after_all(Seq::empty()) == setup,
        setup.after_all(outcomes.push(last)) == setup.after_all(outcomes).after(last),
        setup.after(last).offer == setup.offer,
        setup.after(last).send_timeout == setup.send_timeout,
        setup.after(false).stage is Failed,
        setup.stage is Failed ==> setup.after(true).stage is Failed,
        setup.stage matches Stage::Pending(done) ==> setup.after(true).stage == Stage::Pending(
            if done < (if setup.offer.len() == 0 { 7int } else { 8 }) { done + 1 } else { done },
        ),
{
    assert(outcomes.push(last).drop_last() =~= outcomes);
}

/// What both sides do, and in which order: the side that makes an offer sets it as its local
/// description, and the side that answers one first sets the remote description that it answers.
/// Gathering is prepared before the local description is set, and awaited after that; the session
/// is kept when all else is done.
pub proof fn law_what_is_done_in_which_order(setup: SetupState)
    ensures
        setup.stage is Failed <==> setup.pending() is None,
        setup.stage matches Stage::Pending(done) ==> {
            let action = setup.pending()->Some_0;
            &&& done == 0 ==> action == SetupAction::CreatePeer
            &&& done == 2 ==> action == SetupAction::RegisterHandlers
            &&& setup.offer.len() == 0 ==> {
                &&& done == 1 ==> action == SetupAction::CreateBootstrapChannel
                &&& done == 3 ==> action == SetupAction::CreateOffer
                &&& done == 4 ==> action == SetupAction::PrepareGathering
                &&& done == 5 ==> action == SetupAction::SetLocalDescription
                &&& done == 6 ==> action == SetupAction::AwaitGathering
                &&& done == 7 ==> action == SetupAction::RecordSession
                &&& done < 8 ==> (setup.ready() <==> done == 7)
            }
            &&& setup.offer.len() > 0 ==> {
                &&& done == 1 ==> action == SetupAction::TakePlaceholderChannel
                &&& done == 3 ==> action == SetupAction::SetRemoteDescription
                &&& done == 4 ==> action == SetupAction::CreateAnswer
                &&& done == 5 ==> action == SetupAction::PrepareGathering
                &&& done == 6 ==> action == SetupAction::SetLocalDescription
                &&& done == 7 ==> action == SetupAction::AwaitGathering
                &&& done == 8 ==> action == SetupAction::RecordSession
                &&& done < 9 ==> (setup.ready() <==> done == 8)
            }
        },
        setup.stage is Failed ==> !setup.ready(),
{
}

/// A session that answers an offer is kept under that offer, and one that makes an offer under the
/// JSON text of it.
pub proof fn law_session_is_kept_under_its_offer(
    setup: SetupState,
    local: Description,
    remote: Option<Description>,
)
    ensures
        setup.offer.len() > 0 ==> {
            &&& setup.key(Some(local), remote) == setup.offer
            &&& setup.key(None, remote) == setup.offer
        },
        setup.offer.len() == 0 ==> {
            &&& setup.key(None, remote) == Seq::<char>::empty()
            &&& local.sdp_type == SdpType::Offer ==> setup.key(Some(local), remote)
                == description_json(SdpType::Offer, local.sdp)
            &&& local.sdp_type != SdpType::Offer ==> setup.key(Some(local), remote) == (
            match remote {
                Some(r) => description_json(r.sdp_type, r.sdp),
                None => Seq::empty(),
            })
        },
{
}

/// Opening an endpoint that holds a text starts a setup for exactly that text, so the description
/// that it sets as the remote one is the one in the text; and once the session is kept, opening the
/// same endpoint again gives that session, however the setup went on and whatever else was kept.
pub proof fn law_opening_again_gives_the_session<S>(
    endpoint: Seq<char>,
    offer: Seq<char>,
    send_timeout: u64,
    outcomes: Seq<bool>,
    local: Option<Description>,
    remote: Option<Description>,
    session: S,
    sessions: Map<Seq<char>, S>,
)
    requires
        endpoint == "webrtc://"@ + base64_encoding(encode_utf8(offer)),
    ensures
        ({
            let setup = SetupState::start(offer, send_timeout).after_all(outcomes);
            &&& offer_to_answer(endpoint) == Ok::<Seq<char>, OfferError>(offer)
            &&& description_read(setup.offer) == description_read(offer)
            &&& setup.send_timeout == send_timeout
            &&& offer.len() > 0 ==> found(
                sessions.insert(setup.key(local, remote), session),
                offer,
            ) == Some(session)
            &&& offer.len() == 0 ==> found(sessions, offer) is None
        }),
{
    reveal_strlit("webrtc://");
    law_offer_is_what_the_endpoint_holds(endpoint, offer);
    law_setup_is_for_its_offer(offer, send_timeout, outcomes);
}

/// Once an endpoint's offer was answered, opening the endpoint again gives the session that is
/// kept, whatever the peer's descriptions are.
pub proof fn law_answered_session_is_found<S>(
    endpoint: Seq<char>,
    setup: SetupState,
    local: Option<Description>,
    remote: Option<Description>,
    session: S,
    sessions: Map<Seq<char>, S>,
)
    requires
        offer_to_answer(endpoint) == Ok::<Seq<char>, OfferError>(setup.offer),
        setup.offer.len() > 0,
    ensures
        found(
            sessions.insert(setup.key(local, remote), session),
            offer_to_answer(endpoint)->Ok_0,
        ) == Some(session),
{
}

/// Once an offer was made, opening the endpoint that carries it gives the session that is kept.
pub proof fn law_offered_session_is_found<S>(
    setup: SetupState,
    local: Description,
    remote: Option<Description>,
    session: S,
    sessions: Map<Seq<char>, S>,
)
    requires
        setup.offer.len() == 0,
        local.sdp_type == SdpType::Offer,
    ensures
        offer_to_answer(endpoint_of(local.json())) == Ok::<Seq<char>, OfferError>(local.json()),
        found(
            sessions.insert(setup.key(Some(local), remote), session),
            offer_to_answer(endpoint_of(local.json()))->Ok_0,
        ) == Some(session),
{
    law_offer_is_read_back(local.json());
    lemma_json_not_empty(local);
    reveal_strlit("webrtc://");
}

/// A stream that makes an offer, as one does without an endpoint or with one that carries nothing,
/// is never taken from the sessions that are kept.
pub proof fn law_offering_is_always_fresh<S>(sessions: Map<Seq<char>, S>)
    ensures
        offer_to_answer(Seq::empty()) == Ok::<Seq<char>, OfferError>(Seq::empty()),
        offer_to_answer(scheme()) == Ok::<Seq<char>, OfferError>(Seq::empty()),
        found(sessions, Seq::empty()) is None,
{
    law_bare_scheme_carries_nothing(scheme());
}

/// A session is not found by any offer but its own.
pub proof fn law_other_sessions_stay<S>(
    key: Seq<char>,
    other: Seq<char>,
    session: S,
    sessions: Map<Seq<char>, S>,
)
    requires
        key != other,
    ensures
        found(sessions.insert(key, session), other) == found(sessions, other),
        found(sessions.remove(key), other) == found(sessions, other),
        found(sessions.remove(key), key) is None,
{
}

/// A session that made an offer is dropped under the key that it was kept under, as long as the
/// offer remains the local description; no other session is.
pub proof fn law_forgetting_an_offered_session<S>(
    setup: SetupState,
    local: Description,
    remote: Option<Description>,
    later_remote: Option<Description>,
    session: S,
    sessions: Map<Seq<char>, S>,
)
    requires
        setup.offer.len() == 0,
        local.sdp_type == SdpType::Offer,
    ensures
        ({
            let key = setup.key(Some(local), remote);
            sessions.insert(key, session).remove(peer_key(Some(local), later_remote))
                == sessions.remove(key)
        }),
{
    let key = setup.key(Some(local), remote);
    assert(sessions.insert(key, session).remove(key) =~= sessions.remove(key));
}

/// A session that answered an offer is dropped under the key that it was kept under, where the
/// offer is the JSON text of the remote description as it is written here; no other session is.
pub proof fn law_forgetting_an_answered_session<S>(
    setup: SetupState,
    local: Description,
    remote: Description,
    session: S,
    sessions: Map<Seq<char>, S>,
)
    requires
        setup.offer.len() > 0,
        local.sdp_type != SdpType::Offer,
        setup.offer == remote.json(),
    ensures
        ({
            let key = setup.key(Some(local), Some(remote));
            sessions.insert(key, session).remove(peer_key(Some(local), Some(remote)))
                == sessions.remove(key)
        }),
{
    let key = setup.offer;
    assert(sessions.insert(key, session).remove(key) =~= sessions.remove(key));
}

} // verus!
