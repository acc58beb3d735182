use vstd::prelude::*;

use ct_codecs::{Base64UrlSafeNoPadding, Decoder, Encoder, Hex};
use vstd::utf8::{encode_utf8, is_ascii_chars, is_ascii_chars_encode_utf8};

verus! {

/// The characters of the URL-safe base64 alphabet.
pub open spec fn is_b64url_char(c: char) -> bool {
    ('A' <= c && c <= 'Z') || ('a' <= c && c <= 'z') || ('0' <= c && c <= '9') || c == '-' || c
        == '_'
}

/// The bytes of a text made of ASCII characters, one byte per character.
pub open spec fn ascii_bytes(s: Seq<char>) -> Seq<u8> {
    s.map_values(|c: char| c as u8)
}

/// The URL-safe, unpadded base64 encoding of a byte string.
pub uninterp spec fn b64url_encoding(b: Seq<u8>) -> Seq<char>;

/// The length of the unpadded base64 encoding of `n` bytes: four characters for each three
/// bytes, and two or three for a remainder of one or two bytes.
pub open spec fn b64url_len(n: nat) -> nat {
    4 * (n / 3) + if n % 3 == 0 {
        0
    } else {
        2 + (n % 3) / 2
    }
}

/// `s` is the base64url text of `b`: its encoding, of the expected length, in the URL-safe
/// alphabet, and the encoding of no other byte string.
pub open spec fn is_b64url_text_of(s: Seq<char>, b: Seq<u8>) -> bool {
    &&& s == b64url_encoding(b)
    &&& s.len() == b64url_len(b.len())
    &&& forall|i: int| 0 <= i < s.len() ==> is_b64url_char(#[trigger] s[i])
    &&& forall|c: Seq<u8>| ascii_bytes(#[trigger] b64url_encoding(c)) == ascii_bytes(s) ==> c == b
}

/// A text in the URL-safe base64 alphabet, with dots, is ASCII: its UTF-8 bytes are its
/// characters.
pub proof fn lemma_b64url_chars_are_ascii(s: Seq<char>)
    requires
        forall|i: int| 0 <= i < s.len() ==> is_b64url_char(#[trigger] s[i]) || s[i] == '.',
    ensures
        encode_utf8(s) == ascii_bytes(s),
{
    assert(is_ascii_chars(s));
    is_ascii_chars_encode_utf8(s);
    assert(encode_utf8(s) =~= ascii_bytes(s));
}

/// What an even-length hexadecimal text decodes to, if it is well formed.
pub uninterp spec fn hex_decoding(s: Seq<u8>) -> Option<Seq<u8>>;

/// Relies on `Base64UrlSafeNoPadding::encode_to_string` of ct-codecs: the output uses the
/// URL-safe alphabet only, is canonical (the decoder gives the input back), and the call only
/// fails when the encoded length would overflow `usize`.
#[verifier::external_body]
pub(crate) fn b64url_encode(b: &[u8]) -> (r: Result<String, ct_codecs::Error>)
    ensures
        b@.len() <= usize::MAX / 2 ==> r is Ok,
        r matches Ok(s) ==> is_b64url_text_of(s@, b@),
{
    Base64UrlSafeNoPadding::encode_to_string(b)
}

/// Relies on `Base64UrlSafeNoPadding::decode_to_vec` of ct-codecs without ignored characters:
/// it accepts exactly the canonical encodings and returns the bytes they encode.
#[verifier::external_body]
pub(crate) fn b64url_decode(s: &[u8]) -> (r: Result<Vec<u8>, ct_codecs::Error>)
    ensures
        r matches Ok(v) ==> s@ == ascii_bytes(b64url_encoding(v@)),
        r matches Ok(v) ==> forall|b: Seq<u8>| s@ == ascii_bytes(#[trigger] b64url_encoding(b)) ==> v@ == b,
        r is Err ==> forall|b: Seq<u8>| s@ != ascii_bytes(#[trigger] b64url_encoding(b)),
{
    Base64UrlSafeNoPadding::decode_to_vec(s, None)
}

/// Relies on `Hex::decode_to_vec` of ct-codecs without ignored characters: two hexadecimal
/// digits per byte, an odd length or any other character is an error.
#[verifier::external_body]
pub(crate) fn hex_decode(s: &[u8]) -> (r: Result<Vec<u8>, ct_codecs::Error>)
    ensures
        r matches Ok(v) ==> hex_decoding(s@) == Some(v@) && 2 * v@.len() == s@.len(),
        r is Err ==> hex_decoding(s@) is None,
{
    Hex::decode_to_vec(s, None)
}

/// The declared error type of ct-codecs.
#[verifier::external_type_specification]
#[verifier::external_body]
pub struct ExCodecError(ct_codecs::Error);

} // verus!
