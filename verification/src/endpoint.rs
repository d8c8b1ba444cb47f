//! Endpoints: a scheme, and behind it a session description in Base64.
use vstd::prelude::*;
use vstd::string::StringExecFns;
use vstd::utf8::{
    decode_utf8, decode_utf8_encode_utf8, encode_utf8, encode_utf8_decode_utf8,
    encode_utf8_valid_utf8, valid_utf8,
};
use crate::base64_text::{
    base64_decoding, base64_encoding, encoded_len, has_form, law_decoding_inverts_encoding,
    law_encoding_by_position, law_encoding_has_form, law_encoding_inverts_decoding,
};
use crate::error::OfferError;

verus! {

/// The scheme that WebRTC endpoints start with.
pub open spec fn scheme() -> Seq<char> {
    "webrtc://"@
}

/// Whether the text is a WebRTC endpoint by its scheme.
pub open spec fn is_endpoint(text: Seq<char>) -> bool {
    scheme().is_prefix_of(text)
}

/// The endpoint whose encoded part is `encoded`.
pub open spec fn endpoint_with(encoded: Seq<char>) -> Seq<char> {
    scheme() + encoded
}

/// The endpoint that carries the text.
pub open spec fn endpoint_of(sdp: Seq<char>) -> Seq<char> {
    endpoint_with(base64_encoding(encode_utf8(sdp)))
}

/// The encoded part of an endpoint.
pub open spec fn encoded_part(endpoint: Seq<char>) -> Seq<char> {
    endpoint.skip(scheme().len() as int)
}

/// The text in the bytes that an endpoint's encoded part decoded to, if it did.
pub open spec fn offer_in(decoded: Option<Seq<u8>>) -> Result<Seq<char>, OfferError> {
    match decoded {
        None => Err(OfferError::Base64),
        Some(bytes) => if valid_utf8(bytes) {
            Ok(decode_utf8(bytes))
        } else {
            Err(OfferError::Utf8)
        },
    }
}

/// The text that the endpoint carries.
pub open spec fn remote_offer(endpoint: Seq<char>) -> Result<Seq<char>, OfferError> {
    if is_endpoint(endpoint) {
        offer_in(base64_decoding(encoded_part(endpoint)))
    } else {
        Err(OfferError::Format)
    }
}

/// The text of an outcome.
pub open spec fn offer_view(offer: Result<String, OfferError>) -> Result<Seq<char>, OfferError> {
    match offer {
        Ok(text) => Ok(text@),
        Err(e) => Err(e),
    }
}

/// Reads the text from the bytes that an endpoint's encoded part decoded to; `None` stands for a
/// part that is not Base64.
pub fn offer_from_decoded(decoded: Option<Vec<u8>>) -> (offer: Result<String, OfferError>)
    ensures
        offer_view(offer) == offer_in(
            match decoded {
                Some(bytes) => Some(bytes@),
                None => None,
            },
        ),
        match decoded {
            None => offer matches Err(OfferError::Base64),
            Some(bytes) => if valid_utf8(bytes@) {
                offer matches Ok(text) && encode_utf8(text@) == bytes@
            } else {
                offer matches Err(OfferError::Utf8)
            },
        },
{
    proof {
        if decoded is Some && valid_utf8(decoded->Some_0@) {
            decode_utf8_encode_utf8(decoded->Some_0@);
        }
    }
    match decoded {
        None => Err(OfferError::Base64),
        Some(bytes) => match String::from_utf8(bytes) {
            Ok(text) => Ok(text),
            Err(_) => Err(OfferError::Utf8),
        },
    }
}

/// Puts the scheme in front of an encoded part.
pub fn endpoint_from_encoded(encoded: &str) -> (endpoint: String)
    ensures
        endpoint@ == endpoint_with(encoded@),
        endpoint@ == "webrtc://"@ + encoded@,
{
    "webrtc://".to_owned().concat(encoded)
}

/// What stands behind the scheme is the encoded part.
pub proof fn lemma_encoded_part(encoded: Seq<char>)
    ensures
        is_endpoint(endpoint_with(encoded)),
        encoded_part(endpoint_with(encoded)) == encoded,
{
    assert(endpoint_with(encoded).subrange(0, scheme().len() as int) =~= scheme());
    assert(encoded_part(endpoint_with(encoded)) =~= encoded);
}

/// An endpoint is its scheme and its encoded part.
pub proof fn lemma_endpoint_parts(endpoint: Seq<char>)
    requires
        is_endpoint(endpoint),
    ensures
        endpoint_with(encoded_part(endpoint)) == endpoint,
{
    assert(endpoint_with(encoded_part(endpoint)) =~= endpoint);
}

/// Every text is read back from the endpoint that carries it; behind the scheme stands Base64, of
/// the length of the text's bytes.
pub proof fn law_offer_is_read_back(sdp: Seq<char>)
    ensures
        is_endpoint(endpoint_of(sdp)),
        remote_offer(endpoint_of(sdp)) == Ok::<Seq<char>, OfferError>(sdp),
        has_form(encoded_part(endpoint_of(sdp)), encode_utf8(sdp).len()),
        endpoint_of(sdp).len() == scheme().len() + encoded_len(encode_utf8(sdp).len()),
{
    let bytes = encode_utf8(sdp);
    lemma_encoded_part(base64_encoding(bytes));
    law_decoding_inverts_encoding(bytes);
    law_encoding_has_form(bytes);
    encode_utf8_valid_utf8(sdp);
    encode_utf8_decode_utf8(sdp);
}

/// Every endpoint that is accepted is the one that carries its offer.
pub proof fn law_endpoint_is_written_back(endpoint: Seq<char>)
    ensures
        remote_offer(endpoint) matches Ok(offer) ==> endpoint_of(offer) == endpoint,
{
    if remote_offer(endpoint) is Ok {
        let encoded = encoded_part(endpoint);
        lemma_endpoint_parts(endpoint);
        law_encoding_inverts_decoding(encoded);
        decode_utf8_encode_utf8(base64_decoding(encoded)->Some_0);
    }
}

/// The bare scheme carries an empty offer, and nothing else does.
pub proof fn law_bare_scheme_carries_nothing(endpoint: Seq<char>)
    ensures
        remote_offer(endpoint) == Ok::<Seq<char>, OfferError>(Seq::empty()) <==> endpoint
            == scheme(),
{
    assert(encode_utf8(Seq::<char>::empty()) =~= Seq::<u8>::empty());
    assert(base64_encoding(Seq::<u8>::empty()) =~= Seq::<char>::empty());
    assert(endpoint_of(Seq::empty()) =~= scheme());
    law_offer_is_read_back(Seq::empty());
    law_endpoint_is_written_back(endpoint);
}

/// The endpoint that carries a text is the scheme and the Base64 of the text's UTF-8 bytes, in their
/// order: behind the scheme, character by character, the groups of six bits of every three bytes.
pub proof fn law_endpoint_by_position(sdp: Seq<char>, k: int)
    ensures
        endpoint_of(sdp) == "webrtc://"@ + base64_encoding(encode_utf8(sdp)),
        endpoint_of(sdp).len() == "webrtc://"@.len() + (encode_utf8(sdp).len() + 2) / 3 * 4,
        "webrtc://"@.is_prefix_of(endpoint_of(sdp)),
        0 <= k < (encode_utf8(sdp).len() + 2) / 3 * 4 ==> ({
            let bytes = encode_utf8(sdp);
            let at = k / 4 * 3;
            let first = bytes[at] as int;
            let second = if at + 1 < bytes.len() { bytes[at + 1] as int } else { 0 };
            let third = if at + 2 < bytes.len() { bytes[at + 2] as int } else { 0 };
            let bits = first * 65536 + second * 256 + third;
            let group = if k % 4 == 0 {
                bits / 262144
            } else if k % 4 == 1 {
                bits / 4096 % 64
            } else if k % 4 == 2 {
                bits / 64 % 64
            } else {
                bits % 64
            };
            endpoint_of(sdp)["webrtc://"@.len() + k] == if k % 4 >= 2 && at + k % 4 - 1
                >= bytes.len() {
                '='
            } else {
                "ABCDEFGHIJKLMNOPQRSTUVWXYZabcdefghijklmnopqrstuvwxyz0123456789+/"@[group]
            }
        }),
{
    law_encoding_by_position(encode_utf8(sdp), k);
    law_offer_is_read_back(sdp);
}

/// The offer of an endpoint is the text whose UTF-8 bytes the endpoint holds in Base64 behind its
/// scheme, and each error has its own cause: no scheme, no Base64, no UTF-8.
pub proof fn law_offer_is_what_the_endpoint_holds(endpoint: Seq<char>, text: Seq<char>)
    ensures
        remote_offer(endpoint) == Ok::<Seq<char>, OfferError>(text) <==> endpoint == "webrtc://"@
            + base64_encoding(encode_utf8(text)),
        remote_offer(endpoint) == Err::<Seq<char>, OfferError>(OfferError::Format)
            <==> !"webrtc://"@.is_prefix_of(endpoint),
        remote_offer(endpoint) == Err::<Seq<char>, OfferError>(OfferError::Base64) <==> {
            &&& "webrtc://"@.is_prefix_of(endpoint)
            &&& !exists|bytes: Seq<u8>|
                endpoint == "webrtc://"@ + #[trigger] base64_encoding(bytes)
        },
        remote_offer(endpoint) == Err::<Seq<char>, OfferError>(OfferError::Utf8) <==> exists|
            bytes: Seq<u8>,
        |
            endpoint == "webrtc://"@ + #[trigger] base64_encoding(bytes) && !valid_utf8(bytes),
{
    law_offer_is_read_back(text);
    law_endpoint_is_written_back(endpoint);
    let encoded = encoded_part(endpoint);
    assert forall|bytes: Seq<u8>|
        endpoint == "webrtc://"@ + #[trigger] base64_encoding(bytes) implies "webrtc://"@.is_prefix_of(
        endpoint,
    ) && base64_decoding(encoded) == Some(bytes) by {
        lemma_encoded_part(base64_encoding(bytes));
        law_decoding_inverts_encoding(bytes);
    }
    if is_endpoint(endpoint) {
        lemma_endpoint_parts(endpoint);
        law_encoding_inverts_decoding(encoded);
    }
}

/// The offer in decoded bytes is the text that they encode; bytes that encode none, and a part that
/// was not decoded, have errors of their own.
pub proof fn law_offer_in_bytes(bytes: Seq<u8>, text: Seq<char>)
    ensures
        offer_in(None) == Err::<Seq<char>, OfferError>(OfferError::Base64),
        offer_in(Some(bytes)) == Ok::<Seq<char>, OfferError>(text) <==> encode_utf8(text) == bytes,
        offer_in(Some(bytes)) == Err::<Seq<char>, OfferError>(OfferError::Utf8) <==> !valid_utf8(
            bytes,
        ),
        offer_in(Some(bytes)) is Ok <==> valid_utf8(bytes),
{
    encode_utf8_valid_utf8(text);
    encode_utf8_decode_utf8(text);
    if valid_utf8(bytes) {
        decode_utf8_encode_utf8(bytes);
    }
}

/// What is refused for its format is exactly what is no WebRTC endpoint.
pub proof fn law_format_is_the_scheme(endpoint: Seq<char>)
    ensures
        remote_offer(endpoint) == Err::<Seq<char>, OfferError>(OfferError::Format)
            <==> !is_endpoint(endpoint),
        is_endpoint(endpoint) <==> "webrtc://"@.is_prefix_of(endpoint),
{
}

} // verus!
