//! Prefixes of strings, compared on their UTF-8 bytes.
use vstd::prelude::*;
use vstd::string::StringSliceAdditionalSpecFns;
use vstd::utf8::{
    decode_utf8, decode_utf8_encode_utf8, encode_utf8, encode_utf8_decode_utf8,
    encode_utf8_valid_utf8, is_char_boundary, is_char_boundary_iff_not_is_continuation_byte,
    is_char_boundary_start_end_of_seq, partial_valid_partial_invalid_utf8, valid_utf8,
};

verus! {

/// `std::string::FromUtf8Error`, which is carried around without being looked into.
#[verifier::external_type_specification]
#[verifier::external_body]
pub struct ExFromUtf8Error(std::string::FromUtf8Error);

/// `String::from_utf8`: the bytes are taken as a string if and only if they are valid UTF-8, and
/// the string then holds the characters that they encode.
pub assume_specification[ String::from_utf8 ](vec: Vec<u8>) -> (res: Result<
    String,
    std::string::FromUtf8Error,
>)
    ensures
        res is Ok <==> valid_utf8(vec@),
        res matches Ok(s) ==> s@ == decode_utf8(vec@),
;

/// The bytes of a concatenation are the concatenated bytes.
pub proof fn lemma_encode_concat(a: Seq<char>, b: Seq<char>)
    ensures
        encode_utf8(a + b) == encode_utf8(a) + encode_utf8(b),
    decreases a.len(),
{
    if a.len() == 0 {
        assert(a + b =~= b);
    } else {
        assert((a + b).drop_first() =~= a.drop_first() + b);
        lemma_encode_concat(a.drop_first(), b);
    }
}

/// Strings with the same bytes are the same strings.
pub proof fn lemma_encode_injective(a: Seq<char>, b: Seq<char>)
    requires
        encode_utf8(a) == encode_utf8(b),
    ensures
        a == b,
{
    encode_utf8_decode_utf8(a);
    encode_utf8_decode_utf8(b);
}

/// A string starts with `prefix` exactly where its bytes start with those of `prefix`.
pub proof fn lemma_prefix_bytes(prefix: Seq<char>, s: Seq<char>)
    ensures
        encode_utf8(prefix).is_prefix_of(encode_utf8(s)) <==> prefix.is_prefix_of(s),
{
    let p = encode_utf8(prefix);
    let b = encode_utf8(s);
    if prefix.is_prefix_of(s) {
        lemma_encode_concat(prefix, s.skip(prefix.len() as int));
        assert(prefix + s.skip(prefix.len() as int) =~= s);
        assert(p =~= b.subrange(0, p.len() as int));
    }
    if p.is_prefix_of(b) {
        let rest = b.skip(p.len() as int);
        encode_utf8_valid_utf8(prefix);
        encode_utf8_valid_utf8(s);
        assert(b.subrange(0, p.len() as int) =~= p);
        if !valid_utf8(rest) {
            partial_valid_partial_invalid_utf8(b, p.len() as int);
        }
        decode_utf8_encode_utf8(rest);
        lemma_encode_concat(prefix, decode_utf8(rest));
        assert(p + rest =~= b);
        lemma_encode_injective(s, prefix + decode_utf8(rest));
        assert(prefix =~= s.subrange(0, prefix.len() as int));
    }
}

/// Where a string starts with `prefix`, the prefix ends on a character boundary and the bytes
/// behind it are those of the remaining characters.
pub proof fn lemma_prefix_boundary(prefix: Seq<char>, s: Seq<char>)
    requires
        prefix.is_prefix_of(s),
    ensures
        is_char_boundary(encode_utf8(s), encode_utf8(prefix).len() as int),
        encode_utf8(s).subrange(encode_utf8(prefix).len() as int, encode_utf8(s).len() as int)
            == encode_utf8(s.skip(prefix.len() as int)),
{
    let p = encode_utf8(prefix);
    let b = encode_utf8(s);
    let rest = encode_utf8(s.skip(prefix.len() as int));
    lemma_encode_concat(prefix, s.skip(prefix.len() as int));
    assert(prefix + s.skip(prefix.len() as int) =~= s);
    assert(b.subrange(p.len() as int, b.len() as int) =~= rest);
    encode_utf8_valid_utf8(s);
    encode_utf8_valid_utf8(s.skip(prefix.len() as int));
    if rest.len() == 0 {
        is_char_boundary_start_end_of_seq(b);
    } else {
        is_char_boundary_iff_not_is_continuation_byte(b, p.len() as int);
        is_char_boundary_iff_not_is_continuation_byte(rest, 0);
        is_char_boundary_start_end_of_seq(rest);
        assert(b[p.len() as int] == rest[0]);
    }
}

/// Whether `s` starts with `prefix`.
pub fn starts_with(s: &str, prefix: &str) -> (res: bool)
    ensures
        res == prefix@.is_prefix_of(s@),
{
    let bytes = s.as_bytes();
    let start = prefix.as_bytes();
    proof {
        lemma_prefix_bytes(prefix@, s@);
    }
    if bytes.len() < start.len() {
        return false;
    }
    let mut i: usize = 0;
    while i < start.len()
        invariant
            i <= start@.len() <= bytes@.len(),
            forall|k: int| 0 <= k < i ==> start@[k] == bytes@[k],
            bytes@ == encode_utf8(s@),
            start@ == encode_utf8(prefix@),
            encode_utf8(prefix@).is_prefix_of(encode_utf8(s@)) <==> prefix@.is_prefix_of(s@),
        decreases start@.len() - i,
    {
        if bytes[i] != start[i] {
            assert(start@[i as int] != bytes@.subrange(0, start@.len() as int)[i as int]);
            return false;
        }
        i += 1;
    }
    assert(start@ =~= bytes@.subrange(0, start@.len() as int));
    true
}

/// What follows `prefix` in a string that starts with it.
pub fn after_prefix<'a>(s: &'a str, prefix: &str) -> (res: &'a str)
    requires
        prefix@.is_prefix_of(s@),
    ensures
        res@ == s@.skip(prefix@.len() as int),
{
    proof {
        lemma_prefix_boundary(prefix@, s@);
        lemma_prefix_bytes(prefix@, s@);
    }
    let start = prefix.as_bytes().len();
    let (_head, rest) = s.split_at(start);
    proof {
        lemma_encode_injective(rest@, s@.skip(prefix@.len() as int));
    }
    rest
}

} // verus!
