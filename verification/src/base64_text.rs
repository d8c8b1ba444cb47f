//! Standard Base64, which the `base64` crate computes.
use vstd::prelude::*;
use base64::Engine;

verus! {

/// `base64::DecodeError`, which is carried around without being looked into.
#[verifier::external_type_specification]
#[verifier::external_body]
pub struct ExDecodeError(base64::DecodeError);

/// The character of the standard alphabet for a value of six bits.
pub open spec fn symbol(value: int) -> char {
    if value < 26 {
        ('A' as int + value) as char
    } else if value < 52 {
        ('a' as int + (value - 26)) as char
    } else if value < 62 {
        ('0' as int + (value - 52)) as char
    } else if value == 62 {
        '+'
    } else {
        '/'
    }
}

/// The byte at the index, or 0 behind the end.
pub open spec fn byte_or_zero(data: Seq<u8>, index: int) -> int {
    if index < data.len() {
        data[index] as int
    } else {
        0
    }
}

/// The six bits at the index: four times six bits for every three bytes.
pub open spec fn sextet(data: Seq<u8>, index: int) -> int {
    let first = byte_or_zero(data, index / 4 * 3);
    let second = byte_or_zero(data, index / 4 * 3 + 1);
    let third = byte_or_zero(data, index / 4 * 3 + 2);
    if index % 4 == 0 {
        first / 4
    } else if index % 4 == 1 {
        first % 4 * 16 + second / 16
    } else if index % 4 == 2 {
        second % 16 * 4 + third / 64
    } else {
        third % 64
    }
}

/// The length of so many bytes in Base64.
pub open spec fn encoded_len(bytes: nat) -> nat {
    (bytes + 2) / 3 * 4
}

/// How many characters of padding end the text of so many bytes.
pub open spec fn padding(bytes: nat) -> int {
    (3 - bytes as int % 3) % 3
}

/// The bytes in Base64.
pub open spec fn base64_encoding(data: Seq<u8>) -> Seq<char> {
    Seq::new(
        encoded_len(data.len()),
        |i: int|
            if i < encoded_len(data.len()) - padding(data.len()) {
                symbol(sextet(data, i))
            } else {
                '='
            },
    )
}

/// The bytes that the text is the Base64 of, if it is that of any.
pub open spec fn base64_decoding(text: Seq<char>) -> Option<Seq<u8>> {
    if exists|data: Seq<u8>| #[trigger] base64_encoding(data) == text {
        Some(choose|data: Seq<u8>| #[trigger] base64_encoding(data) == text)
    } else {
        None
    }
}

/// Whether the character is one of the 64 of the standard alphabet.
pub open spec fn is_symbol(c: char) -> bool {
    'A' <= c <= 'Z' || 'a' <= c <= 'z' || '0' <= c <= '9' || c == '+' || c == '/'
}

/// Whether the text has the form of so many bytes in Base64: four characters for every three bytes
/// that are begun, of which the last one is `=` where a third byte is missing, and the last two
/// where a second one is too.
pub open spec fn has_form(text: Seq<char>, bytes: nat) -> bool {
    &&& text.len() == encoded_len(bytes)
    &&& forall|i: int|
        0 <= i < text.len() ==> if i < text.len() - padding(bytes) {
            is_symbol(#[trigger] text[i])
        } else {
            text[i] == '='
        }
}

/// `base64::engine::general_purpose::STANDARD.encode`. Claimed of it: the text is the bytes in
/// Base64, by the standard alphabet and with padding. The size of the text is computed without
/// overflow, a slice having at most `isize::MAX` bytes; memory that runs out is left aside here, as
/// for every growing collection.
#[verifier::external_body]
pub(crate) fn encode(data: &[u8]) -> (text: String)
    ensures
        text@ == base64_encoding(data@),
{
    base64::engine::general_purpose::STANDARD.encode(data)
}

/// `base64::engine::general_purpose::STANDARD.decode`. Claimed of it: bytes are given exactly for
/// the text that they are encoded to, since this engine rejects padding that is not canonical and
/// trailing bits that are set. Which of its errors comes for which text is not said.
#[verifier::external_body]
pub(crate) fn decode(text: &str) -> (decoded: Result<Vec<u8>, base64::DecodeError>)
    ensures
        decoded matches Ok(bytes) ==> base64_encoding(bytes@) == text@,
        decoded is Err ==> forall|data: Seq<u8>| #[trigger] base64_encoding(data) != text@,
{
    base64::engine::general_purpose::STANDARD.decode(text)
}

/// Six bits are six bits.
proof fn lemma_sextet_range(data: Seq<u8>, index: int)
    requires
        0 <= index,
    ensures
        0 <= sextet(data, index) < 64,
{
}

/// Different values have different characters, and none has that of the padding.
proof fn lemma_symbol(a: int, b: int)
    requires
        0 <= a < 64,
        0 <= b < 64,
    ensures
        is_symbol(symbol(a)),
        symbol(a) != '=',
        symbol(a) == symbol(b) ==> a == b,
{
}

/// Base64 has its length, its alphabet and its padding.
pub proof fn law_encoding_has_form(data: Seq<u8>)
    ensures
        has_form(base64_encoding(data), data.len()),
{
    let text = base64_encoding(data);
    assert forall|i: int| 0 <= i < text.len() implies if i < text.len() - padding(data.len()) {
        is_symbol(#[trigger] text[i])
    } else {
        text[i] == '='
    } by {
        lemma_sextet_range(data, i);
        lemma_symbol(sextet(data, i), sextet(data, i));
    }
}

/// The standard alphabet, in order.
proof fn lemma_alphabet(value: int)
    requires
        0 <= value < 64,
    ensures
        symbol(value)
            == "ABCDEFGHIJKLMNOPQRSTUVWXYZabcdefghijklmnopqrstuvwxyz0123456789+/"@[value],
{
    reveal_strlit("ABCDEFGHIJKLMNOPQRSTUVWXYZabcdefghijklmnopqrstuvwxyz0123456789+/");
}

/// Three bytes as one number have these groups of six bits.
proof fn lemma_groups(first: int, second: int, third: int)
    requires
        0 <= first < 256,
        0 <= second < 256,
        0 <= third < 256,
    ensures
        ({
            let bits = first * 65536 + second * 256 + third;
            &&& bits / 262144 == first / 4
            &&& bits / 4096 % 64 == first % 4 * 16 + second / 16
            &&& bits / 64 % 64 == second % 16 * 4 + third / 64
            &&& bits % 64 == third % 64
        }),
{
    let bits = first * 65536 + second * 256 + third;
    assert(bits / 4096 == first * 16 + second / 16);
    assert(bits / 64 == first * 1024 + second * 4 + third / 64);
}

/// The text of bytes, character by character. Every three bytes are one number of 24 bits, the first
/// byte highest, with zeros for bytes that are missing; its four groups of six bits, the highest
/// first, are the indices of four characters of the alphabet, but a group that holds no bit of any
/// byte is written `=`.
pub proof fn law_encoding_by_position(data: Seq<u8>, k: int)
    ensures
        base64_encoding(data).len() == (data.len() + 2) / 3 * 4,
        0 <= k < (data.len() + 2) / 3 * 4 ==> ({
            let at = k / 4 * 3;
            let first = data[at] as int;
            let second = if at + 1 < data.len() { data[at + 1] as int } else { 0 };
            let third = if at + 2 < data.len() { data[at + 2] as int } else { 0 };
            let bits = first * 65536 + second * 256 + third;
            let group = if k % 4 == 0 {
                bits / 262144
            } else if k % 4 == 1 {
                bits / 4096 % 64
            } else if k % 4 == 2 {
                bits / 64 % 64
            } else {
                bits % 64
            };
            base64_encoding(data)[k] == if k % 4 >= 2 && at + k % 4 - 1 >= data.len() {
                '='
            } else {
                "ABCDEFGHIJKLMNOPQRSTUVWXYZabcdefghijklmnopqrstuvwxyz0123456789+/"@[group]
            }
        }),
{
    if 0 <= k < (data.len() + 2) / 3 * 4 {
        let at = k / 4 * 3;
        assert(at < data.len());
        lemma_sextet_range(data, k);
        lemma_alphabet(sextet(data, k));
        lemma_groups(
            byte_or_zero(data, at),
            byte_or_zero(data, at + 1),
            byte_or_zero(data, at + 2),
        );
        assert(k < encoded_len(data.len()) - padding(data.len()) <==> !(k % 4 >= 2 && at + k % 4 - 1
            >= data.len()));
    }
}

/// A text is decoded to exactly the bytes that it is the encoding of.
pub proof fn law_decoded_is_what_was_encoded(text: Seq<char>, data: Seq<u8>)
    ensures
        base64_decoding(text) == Some(data) <==> base64_encoding(data) == text,
        base64_decoding(text) is None <==> !exists|d: Seq<u8>| #[trigger] base64_encoding(d) == text,
{
    if base64_encoding(data) == text {
        law_decoding_inverts_encoding(data);
    }
    law_encoding_inverts_decoding(text);
}

/// Bytes with the same text are equally many.
proof fn lemma_same_length(a: Seq<u8>, b: Seq<u8>)
    requires
        base64_encoding(a) == base64_encoding(b),
    ensures
        a.len() == b.len(),
{
    let text = base64_encoding(a);
    law_encoding_has_form(a);
    law_encoding_has_form(b);
    if padding(a.len()) != padding(b.len()) {
        let at = text.len() - if padding(a.len()) < padding(b.len()) {
            padding(b.len())
        } else {
            padding(a.len())
        };
        assert(!is_symbol('='));
        assert(is_symbol(text[at]));
        assert(text[at] == '=');
    }
}

/// Different bytes have different texts.
pub proof fn law_encoding_is_injective(a: Seq<u8>, b: Seq<u8>)
    requires
        base64_encoding(a) == base64_encoding(b),
    ensures
        a == b,
{
    lemma_same_length(a, b);
    let text = base64_encoding(a);
    let end = text.len() - padding(a.len());
    assert forall|i: int| 0 <= i < end implies #[trigger] sextet(a, i) == sextet(b, i) by {
        lemma_sextet_range(a, i);
        lemma_sextet_range(b, i);
        lemma_symbol(sextet(a, i), sextet(b, i));
        assert(text[i] == symbol(sextet(a, i)));
        assert(text[i] == symbol(sextet(b, i)));
    }
    assert forall|k: int| 0 <= k < a.len() implies a[k] == b[k] by {
        let i = k / 3 * 4 + k % 3;
        assert(i / 4 == k / 3 && i % 4 == k % 3);
        assert((i + 1) / 4 == k / 3 && (i + 1) % 4 == k % 3 + 1);
        assert(i + 1 < end);
        assert(sextet(a, i) == sextet(b, i));
        assert(sextet(a, i + 1) == sextet(b, i + 1));
    }
    assert(a =~= b);
}

/// Decoding gives back what was encoded.
pub proof fn law_decoding_inverts_encoding(data: Seq<u8>)
    ensures
        base64_decoding(base64_encoding(data)) == Some(data),
{
    let text = base64_encoding(data);
    let found = choose|d: Seq<u8>| #[trigger] base64_encoding(d) == text;
    law_encoding_is_injective(found, data);
}

/// What is decoded is encoded to the same text again.
pub proof fn law_encoding_inverts_decoding(text: Seq<char>)
    ensures
        base64_decoding(text) matches Some(data) ==> base64_encoding(data) == text && has_form(
            text,
            data.len(),
        ),
{
    if let Some(data) = base64_decoding(text) {
        law_encoding_has_form(data);
    }
}

} // verus!
