//! A stream over a WebRTC data channel.
use vstd::prelude::*;
use vstd::utf8::{encode_utf8, valid_utf8};
use bytes::{Bytes, BytesMut};
use crate::address::SocketAddress;
use crate::base64_text::{
    base64_decoding, base64_encoding, decode, encode, encoded_len, has_form,
    law_decoding_inverts_encoding, law_encoding_inverts_decoding,
};
use crate::buffer::{buffer_content, bytes_content, bytes_from_vec, truncate, zeroed};
use crate::description::{
    description_json, description_read, description_view, read_json, Description, SdpType,
    SessionDescription,
};
use crate::endpoint::{
    encoded_part, endpoint_from_encoded, endpoint_of, is_endpoint, law_bare_scheme_carries_nothing,
    law_endpoint_is_written_back, law_offer_is_read_back, law_offer_is_what_the_endpoint_holds,
    offer_from_decoded, offer_view, remote_offer, scheme,
};
use crate::error::{EndpointError, NoLocalDescription, OfferError, ReadError};
use crate::session::{
    choose_naming, description_text, found, naming_description, peer_key, SessionCache,
};
use crate::setup::{Setup, SetupState, Stage};
use crate::text::{after_prefix, starts_with};

verus! {

/// The size of the buffer that a message is received in: the limit for messages in Chromium.
pub const DATA_CHANNEL_BUFFER_SIZE: u16 = 65535;

/// A key of secret-key encryption.
pub type Key = [u8; 32];

/// A stream over a WebRTC data channel, as far as it is not made of connections: those are held
/// beside it and shared by its clones.
#[derive(Debug, PartialEq, Eq)]
pub struct WebRTCStream {
    send_timeout: u64,
}

impl Clone for WebRTCStream {
    /// The same stream once more.
    fn clone(&self) -> (res: Self)
        ensures
            res == *self,
    {
        WebRTCStream { send_timeout: self.send_timeout }
    }
}

/// How a stream is opened.
pub enum Opening<'a, S> {
    /// The endpoint was opened before: this is its session.
    Cached(&'a S),
    /// A session has to be set up.
    Fresh(Setup),
}

/// What is to be sent, and when.
pub struct Outgoing {
    /// Whether to wait until the connection is known to be open, or lost, before anything else.
    pub await_change: bool,
    /// The bytes to be sent.
    pub bytes: Bytes,
}

/// Where to receive, and when.
pub struct Incoming {
    /// Whether to wait until the connection is known to be open, or lost, before anything else.
    pub await_change: bool,
    /// The buffer to read into.
    pub buffer: BytesMut,
}

/// How reading from the data channel went.
pub enum ReadEvent {
    /// The data channel could not be detached.
    NotDetached,
    /// Reading failed, for the reason that the text gives.
    Failed(String),
    /// So many bytes were read into the buffer.
    Read(usize),
}

/// What a read comes to.
pub struct Received {
    /// Whether the peer connection has to be closed.
    pub close_peer: bool,
    /// The message, or the end of the stream, or why there is no message.
    pub message: Option<Result<BytesMut, ReadError>>,
}

/// The offer that a stream to the endpoint answers; empty where there is no endpoint.
pub open spec fn offer_to_answer(endpoint: Seq<char>) -> Result<Seq<char>, OfferError> {
    if endpoint.len() == 0 {
        Ok(Seq::empty())
    } else {
        remote_offer(endpoint)
    }
}

/// The description that the endpoint carries, if it carries one.
pub open spec fn endpoint_description(endpoint: Seq<char>) -> Option<Description> {
    match remote_offer(endpoint) {
        Ok(offer) => Description::read(offer),
        Err(_) => None,
    }
}

impl WebRTCStream {
    /// The time that sending may take, in milliseconds.
    pub closed spec fn timeout(self) -> u64 {
        self.send_timeout
    }

    /// A stream with this timeout.
    pub(crate) fn with_timeout(send_timeout: u64) -> (stream: Self)
        ensures
            stream.timeout() == send_timeout,
    {
        WebRTCStream { send_timeout }
    }

    /// The text, a session description in JSON, that the endpoint carries.
    pub fn get_remote_offer(endpoint: &str) -> (offer: Result<String, OfferError>)
        ensures
            offer_view(offer) == remote_offer(endpoint@),
            // an endpoint that is accepted is the one that its offer is turned into
            offer matches Ok(text) ==> endpoint_of(text@) == endpoint@,
            offer matches Ok(text) ==> has_form(
                encoded_part(endpoint@),
                encode_utf8(text@).len(),
            ),
            // what is not of the form of Base64 is refused as such
            is_endpoint(endpoint@) ==> (base64_decoding(encoded_part(endpoint@)) matches Some(
                bytes,
            ) ==> has_form(encoded_part(endpoint@), bytes.len())),
            // the bare scheme, and nothing else, carries an empty offer
            endpoint@ == scheme() ==> offer is Ok,
            offer matches Ok(text) ==> (text@.len() == 0 <==> endpoint@ == scheme()),
            // the offer is the text whose bytes stand in Base64 behind the scheme
            offer matches Ok(text) ==> endpoint@ == "webrtc://"@ + base64_encoding(
                encode_utf8(text@),
            ),
            forall|text: Seq<char>|
                endpoint@ == "webrtc://"@ + base64_encoding(#[trigger] encode_utf8(text)) ==> {
                    &&& offer matches Ok(t)
                    &&& t@ == text
                },
            // each error has its cause
            offer matches Err(OfferError::Format) <==> !"webrtc://"@.is_prefix_of(endpoint@),
            offer matches Err(OfferError::Base64) <==> {
                &&& "webrtc://"@.is_prefix_of(endpoint@)
                &&& forall|bytes: Seq<u8>|
                    endpoint@ != "webrtc://"@ + #[trigger] base64_encoding(bytes)
            },
            offer matches Err(OfferError::Utf8) <==> exists|bytes: Seq<u8>|
                endpoint@ == "webrtc://"@ + #[trigger] base64_encoding(bytes) && !valid_utf8(bytes),
    {
        proof {
            assert forall|text: Seq<char>|
                endpoint@ == "webrtc://"@ + base64_encoding(
                    #[trigger] encode_utf8(text),
                ) implies remote_offer(endpoint@) == Ok::<Seq<char>, OfferError>(text) by {
                law_offer_is_what_the_endpoint_holds(endpoint@, text);
            }
            law_offer_is_what_the_endpoint_holds(endpoint@, Seq::empty());
            law_endpoint_is_written_back(endpoint@);
            law_encoding_inverts_decoding(encoded_part(endpoint@));
            law_bare_scheme_carries_nothing(endpoint@);
            if remote_offer(endpoint@) is Ok {
                law_offer_is_read_back(remote_offer(endpoint@)->Ok_0);
            }
        }
        if !starts_with(endpoint, "webrtc://") {
            return Err(OfferError::Format);
        }
        let encoded_sdp = after_prefix(endpoint, "webrtc://");
        let decoded = match decode(encoded_sdp) {
            Ok(bytes) => {
                proof {
                    law_decoding_inverts_encoding(bytes@);
                }
                Some(bytes)
            },
            Err(_) => None,
        };
        let offer = offer_from_decoded(decoded);
        assert(offer matches Ok(text) ==> (text@.len() == 0 ==> text@ =~= Seq::empty()));
        offer
    }

    /// The endpoint that carries the session description.
    pub fn sdp_to_endpoint(sdp: &str) -> (endpoint: String)
        ensures
            endpoint@ == endpoint_of(sdp@),
            endpoint@ == "webrtc://"@ + base64_encoding(encode_utf8(sdp@)),
            // the description is read back from the endpoint
            is_endpoint(endpoint@),
            remote_offer(endpoint@) == Ok::<Seq<char>, OfferError>(sdp@),
            // behind the scheme stands Base64, of this length
            has_form(encoded_part(endpoint@), encode_utf8(sdp@).len()),
            endpoint@.len() == scheme().len() + encoded_len(encode_utf8(sdp@).len()),
    {
        proof {
            law_offer_is_read_back(sdp@);
        }
        let encoded_sdp = encode(sdp.as_bytes());
        endpoint_from_encoded(encoded_sdp.as_str())
    }

    /// The key of the session of a peer with these descriptions.
    pub fn get_key_for_peer(
        local: &Option<SessionDescription>,
        remote: &Option<SessionDescription>,
    ) -> (key: String)
        ensures
            key@ == peer_key(description_view(*local), description_view(*remote)),
            key@.len() > 0 <==> naming_description(
                description_view(*local),
                description_view(*remote),
            ) is Some,
            // the JSON text of the offer of the two sides, wherever it is
            key@ == (match *local {
                    Some(l) => if l.sdp_type == SdpType::Offer {
                        description_json(SdpType::Offer, l.sdp@)
                    } else {
                        match *remote {
                            Some(r) => description_json(r.sdp_type, r.sdp@),
                            None => Seq::empty(),
                        }
                    },
                    None => Seq::empty(),
                }),
    {
        match choose_naming(local, remote) {
            Some(description) => description_text(description),
            None => String::new(),
        }
    }

    /// Opens a stream to the endpoint, or one that makes an offer where the endpoint is empty. An
    /// endpoint that was opened before gives the session that is kept for it, as it is.
    pub fn new<'a, S>(
        remote_endpoint: &str,
        ms_timeout: u64,
        sessions: &'a SessionCache<S>,
    ) -> (opening: Result<Opening<'a, S>, OfferError>)
        ensures
            match offer_to_answer(remote_endpoint@) {
                Err(e) => opening matches Err(error) && error == e,
                Ok(offer) => match found(sessions@, offer) {
                    Some(session) => opening matches Ok(Opening::Cached(cached)) && *cached
                        == session,
                    None => opening matches Ok(Opening::Fresh(setup)) && setup@
                        == SetupState::start(offer, ms_timeout),
                },
            },
            // no endpoint, and one that carries nothing: an offer is made, whatever is kept
            remote_endpoint@.len() == 0 || remote_endpoint@ == scheme() ==> {
                &&& opening matches Ok(Opening::Fresh(setup))
                &&& setup@ == SetupState::start(Seq::empty(), ms_timeout)
            },
            remote_endpoint@.len() == 0 ==> {
                &&& opening matches Ok(Opening::Fresh(setup))
                &&& setup@.offer.len() == 0
                &&& setup@.send_timeout == ms_timeout
                &&& setup@.stage == Stage::Pending(0)
            },
            // the offer in the endpoint finds the session that is kept under it, and is answered
            // where there is none
            forall|offer: Seq<char>|
                remote_endpoint@ == "webrtc://"@ + base64_encoding(#[trigger] encode_utf8(offer))
                    ==> if offer.len() > 0 && sessions@.contains_key(offer) {
                    &&& opening matches Ok(Opening::Cached(cached))
                    &&& *cached == sessions@[offer]
                } else {
                    &&& opening matches Ok(Opening::Fresh(setup))
                    &&& setup@.offer == offer
                    &&& setup@.send_timeout == ms_timeout
                    &&& setup@.stage == Stage::Pending(0)
                },
            // each error has its cause
            opening matches Err(OfferError::Format) <==> remote_endpoint@.len() > 0
                && !"webrtc://"@.is_prefix_of(remote_endpoint@),
            opening matches Err(OfferError::Base64) <==> {
                &&& "webrtc://"@.is_prefix_of(remote_endpoint@)
                &&& forall|bytes: Seq<u8>|
                    remote_endpoint@ != "webrtc://"@ + #[trigger] base64_encoding(bytes)
            },
            opening matches Err(OfferError::Utf8) <==> exists|bytes: Seq<u8>|
                remote_endpoint@ == "webrtc://"@ + #[trigger] base64_encoding(bytes) && !valid_utf8(
                    bytes,
                ),
    {
        proof {
            reveal_strlit("webrtc://");
        }
        let remote_offer = if remote_endpoint.is_empty() {
            String::new()
        } else {
            match Self::get_remote_offer(remote_endpoint) {
                Ok(offer) => offer,
                Err(e) => return Err(e),
            }
        };
        assert(remote_offer@.len() == 0 ==> remote_offer@ =~= Seq::empty());
        match sessions.find(remote_offer.as_str()) {
            Some(cached) => Ok(Opening::Cached(cached)),
            None => Ok(Opening::Fresh(Setup::start(remote_offer, ms_timeout))),
        }
    }

    /// The endpoint that carries the local description.
    pub fn get_local_endpoint(&self, local: &Option<SessionDescription>) -> (endpoint: Result<
        String,
        NoLocalDescription,
    >)
        ensures
            endpoint is Ok <==> *local is Some,
            *local matches Some(description) ==> {
                let text = endpoint->Ok_0@;
                let json = description@.json();
                &&& text == endpoint_of(json)
                // the other side reads the description from the endpoint, and finds under its
                // offer what is kept under the key of an offering peer
                &&& endpoint_description(text) == Some(description@)
                &&& offer_to_answer(text) == Ok::<Seq<char>, OfferError>(json)
                &&& json.len() > 0
                // type and SDP are the description's own
                &&& json == description_json(description.sdp_type, description.sdp@)
                &&& text == "webrtc://"@ + base64_encoding(encode_utf8(json))
                &&& description_read(json) == Some((description.sdp_type, description.sdp@))
            },
    {
        match local {
            Some(description) => {
                let sdp = description_text(description);
                let endpoint = Self::sdp_to_endpoint(sdp.as_str());
                proof {
                    reveal_strlit("webrtc://");
                }
                Ok(endpoint)
            },
            None => Err(NoLocalDescription),
        }
    }

    /// The description in the endpoint, which is to be set as the remote description.
    pub fn set_remote_endpoint(&self, endpoint: &str) -> (description: Result<
        SessionDescription,
        EndpointError,
    >)
        ensures
            match remote_offer(endpoint@) {
                Err(e) => description matches Err(EndpointError::Offer(error)) && error == e,
                Ok(offer) => match Description::read(offer) {
                    Some(d) => description matches Ok(read) && read@ == d,
                    None => description matches Err(EndpointError::Description(_)),
                },
            },
            description is Ok <==> endpoint_description(endpoint@) is Some,
            // type and SDP are those that stand in the text which the endpoint holds in Base64
            forall|offer: Seq<char>|
                endpoint@ == "webrtc://"@ + base64_encoding(#[trigger] encode_utf8(offer))
                    ==> match description_read(offer) {
                    Some((sdp_type, sdp)) => {
                        &&& description matches Ok(read)
                        &&& read.sdp_type == sdp_type
                        &&& read.sdp@ == sdp
                    },
                    None => description matches Err(EndpointError::Description(_)),
                },
            // each error has its cause
            description matches Err(EndpointError::Offer(OfferError::Format))
                <==> !"webrtc://"@.is_prefix_of(endpoint@),
            description matches Err(EndpointError::Offer(OfferError::Base64)) <==> {
                &&& "webrtc://"@.is_prefix_of(endpoint@)
                &&& forall|bytes: Seq<u8>|
                    endpoint@ != "webrtc://"@ + #[trigger] base64_encoding(bytes)
            },
            description matches Err(EndpointError::Offer(OfferError::Utf8)) <==> exists|
                bytes: Seq<u8>,
            |
                endpoint@ == "webrtc://"@ + #[trigger] base64_encoding(bytes) && !valid_utf8(bytes),
    {
        let offer = match Self::get_remote_offer(endpoint) {
            Ok(offer) => offer,
            Err(e) => return Err(EndpointError::Offer(e)),
        };
        description_or_error(read_json(offer.as_str()))
    }

    /// Does nothing: there is no raw mode.
    pub fn set_raw(&mut self)
        ensures
            *final(self) == *old(self),
    {
    }

    /// The address of this side, of which nothing in particular is known.
    pub fn local_addr(&self) -> (addr: SocketAddress)
        ensures
            addr.is_unspecified(),
            addr matches SocketAddress::V4 { ipv4, port } && ipv4@ == seq![0u8, 0, 0, 0] && port
                == 0,
    {
        SocketAddress::unspecified()
    }

    /// Sets the time that sending may take, in milliseconds.
    pub fn set_send_timeout(&mut self, ms: u64)
        ensures
            final(self).timeout() == ms,
    {
        self.send_timeout = ms;
    }

    /// Does nothing: DTLS, which WebRTC comes with, exchanges keys and encrypts by itself.
    pub fn set_key(&mut self, _key: Key)
        ensures
            *final(self) == *old(self),
    {
    }

    /// The stream is always encrypted.
    pub fn is_secured(&self) -> (secured: bool)
        ensures
            secured,
    {
        true
    }

    /// Sends a message, unless turning it into bytes failed.
    pub fn send<E>(&mut self, encoded: Result<Vec<u8>, E>, notified: bool) -> (outgoing: Result<
        Outgoing,
        E,
    >)
        ensures
            *final(self) == *old(self),
            match encoded {
                Ok(msg) => outgoing matches Ok(out) && out.await_change == !notified
                    && bytes_content(out.bytes) == msg@,
                Err(e) => outgoing matches Err(error) && error == e,
            },
    {
        match encoded {
            Ok(msg) => Ok(self.send_raw(msg, notified)),
            Err(e) => Err(e),
        }
    }

    /// Sends the bytes of a message.
    pub fn send_raw(&mut self, msg: Vec<u8>, notified: bool) -> (outgoing: Outgoing)
        ensures
            *final(self) == *old(self),
            outgoing.await_change == !notified,
            bytes_content(outgoing.bytes) == msg@,
    {
        self.send_bytes(bytes_from_vec(msg), notified)
    }

    /// Whether a change of the connection has to be awaited first: not where it has been announced
    /// already that the connection is open, or lost.
    pub fn wait_for_connect_result(&mut self, notified: bool) -> (await_change: bool)
        ensures
            *final(self) == *old(self),
            await_change == !notified,
    {
        if notified {
            return false;
        }
        true
    }

    /// Sends the bytes as they are.
    pub fn send_bytes(&mut self, bytes: Bytes, notified: bool) -> (outgoing: Outgoing)
        ensures
            *final(self) == *old(self),
            outgoing.await_change == !notified,
            outgoing.bytes == bytes,
    {
        let await_change = self.wait_for_connect_result(notified);
        Outgoing { await_change, bytes }
    }

    /// Begins to receive the next message.
    pub fn receive(&mut self, notified: bool) -> (incoming: Incoming)
        ensures
            *final(self) == *old(self),
            incoming.await_change == !notified,
            buffer_content(incoming.buffer).len() == 65535,
            buffer_content(incoming.buffer) == Seq::new(
                DATA_CHANNEL_BUFFER_SIZE as nat,
                |i: int| 0u8,
            ),
    {
        let await_change = self.wait_for_connect_result(notified);
        Incoming { await_change, buffer: zeroed(DATA_CHANNEL_BUFFER_SIZE as usize) }
    }

    /// The next message, once it was read into the buffer: what was read, and no more. A read that
    /// fails or gives nothing is an error and closes the peer connection; a data channel that cannot
    /// be read from ends the stream.
    pub fn next(&mut self, buffer: BytesMut, event: ReadEvent) -> (received: Received)
        ensures
            *final(self) == *old(self),
            match event {
                ReadEvent::NotDetached => received.message is None && !received.close_peer,
                ReadEvent::Failed(reason) => {
                    &&& received.message == Some(
                        Err::<BytesMut, ReadError>(ReadError::Failed(reason)),
                    )
                    &&& received.close_peer
                },
                ReadEvent::Read(n) => if n == 0 {
                    &&& received.message == Some(Err::<BytesMut, ReadError>(ReadError::Closed))
                    &&& received.close_peer
                } else {
                    &&& received.message matches Some(Ok(message))
                    &&& buffer_content(message) == (if n <= buffer_content(buffer).len() {
                        buffer_content(buffer).take(n as int)
                    } else {
                        buffer_content(buffer)
                    })
                    &&& !received.close_peer
                },
            },
    {
        let n = match event {
            ReadEvent::NotDetached => return Received { close_peer: false, message: None },
            ReadEvent::Failed(reason) => return Received {
                close_peer: true,
                message: Some(Err(ReadError::Failed(reason))),
            },
            ReadEvent::Read(n) => n,
        };
        if n == 0 {
            return Received { close_peer: true, message: Some(Err(ReadError::Closed)) };
        }
        let mut message = buffer;
        truncate(&mut message, n);
        Received { close_peer: false, message: Some(Ok(message)) }
    }

    /// The next message, where waiting for it ended in time; `None` stands for a wait that did not.
    pub fn next_timeout(
        &mut self,
        in_time: Option<Option<Result<BytesMut, ReadError>>>,
    ) -> (message: Option<Result<BytesMut, ReadError>>)
        ensures
            *final(self) == *old(self),
            message == (match in_time {
                Some(message) => message,
                None => None,
            }),
    {
        match in_time {
            Some(message) => message,
            None => None,
        }
    }
}

/// A stream to an endpoint answers the text that the endpoint holds; without an endpoint there is
/// none to answer.
pub proof fn law_offer_to_answer(endpoint: Seq<char>, offer: Seq<char>)
    ensures
        offer_to_answer(Seq::empty()) == Ok::<Seq<char>, OfferError>(Seq::empty()),
        endpoint == "webrtc://"@ + base64_encoding(encode_utf8(offer)) ==> offer_to_answer(endpoint)
            == Ok::<Seq<char>, OfferError>(offer),
        endpoint.len() > 0 && offer_to_answer(endpoint) == Ok::<Seq<char>, OfferError>(offer)
            ==> endpoint == "webrtc://"@ + base64_encoding(encode_utf8(offer)),
        offer_to_answer(endpoint) == Err::<Seq<char>, OfferError>(OfferError::Format) <==> {
            &&& endpoint.len() > 0
            &&& !"webrtc://"@.is_prefix_of(endpoint)
        },
{
    reveal_strlit("webrtc://");
    law_offer_is_what_the_endpoint_holds(endpoint, offer);
}

/// An endpoint that holds the text of a description carries that description, of that type and with
/// that SDP.
pub proof fn law_endpoint_carries_its_description(endpoint: Seq<char>, offer: Seq<char>)
    requires
        endpoint == "webrtc://"@ + base64_encoding(encode_utf8(offer)),
    ensures
        match description_read(offer) {
            Some((sdp_type, sdp)) => {
                &&& endpoint_description(endpoint) matches Some(d)
                &&& d.sdp_type == sdp_type
                &&& d.sdp == sdp
            },
            None => endpoint_description(endpoint) is None,
        },
{
    law_offer_is_what_the_endpoint_holds(endpoint, offer);
}

/// Streams differ in nothing but their timeouts.
pub proof fn law_stream_is_its_timeout(a: WebRTCStream, b: WebRTCStream)
    ensures
        a.timeout() == b.timeout() <==> a == b,
{
}

/// The description that was read from an endpoint's offer, or the error that reading it ended in.
pub fn description_or_error(
    read: Result<SessionDescription, serde_json::Error>,
) -> (description: Result<SessionDescription, EndpointError>)
    ensures
        description == (match read {
            Ok(d) => Ok(d),
            Err(e) => Err(EndpointError::Description(e)),
        }),
{
    match read {
        Ok(description) => Ok(description),
        Err(e) => Err(EndpointError::Description(e)),
    }
}

/// Whether the text is a WebRTC endpoint, which its scheme tells.
pub fn is_webrtc_endpoint(endpoint: &str) -> (res: bool)
    ensures
        res == is_endpoint(endpoint@),
        res == "webrtc://"@.is_prefix_of(endpoint@),
{
    starts_with(endpoint, "webrtc://")
}

} // verus!
