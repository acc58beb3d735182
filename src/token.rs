use vstd::prelude::*;

use crate::claims::{claims_error, JWTClaims, VerificationOptions};
use crate::codec::{
    ascii_bytes, b64url_decode, b64url_encode, b64url_encoding, is_b64url_char, is_b64url_text_of,
    lemma_b64url_chars_are_ascii,
};
use crate::error::JWTError;
use crate::header::{JWTHeader, TokenMetadata};
use vstd::slice::slice_subrange;
use vstd::string::{StringExecFns, StringSliceAdditionalSpecFns};
use vstd::utf8::encode_utf8;

verus! {

/// The longest header segment, in bytes, that is decoded.
pub const MAX_HEADER_LENGTH: usize = 8192;

/// The byte that separates the segments of a compact token.
pub const DOT: u8 = 46;

/// The end of the segment that starts at `i`: the index of the first dot at or after `i`,
/// or the length of `b` if there is none.
pub open spec fn seg_end(b: Seq<u8>, i: int) -> int
    decreases b.len() - i,
{
    if i < 0 || i >= b.len() {
        b.len() as int
    } else if b[i] == DOT {
        i
    } else {
        seg_end(b, i + 1)
    }
}

/// Where the header segment ends.
pub open spec fn header_end(b: Seq<u8>) -> int {
    seg_end(b, 0)
}

/// Where the claims segment ends.
pub open spec fn claims_end(b: Seq<u8>) -> int {
    seg_end(b, header_end(b) + 1)
}

/// `b` holds exactly two dots, so exactly three segments.
pub open spec fn is_compact(b: Seq<u8>) -> bool {
    &&& header_end(b) < b.len()
    &&& claims_end(b) < b.len()
    &&& seg_end(b, claims_end(b) + 1) == b.len()
}

/// The first segment: everything before the first dot.
pub open spec fn header_segment(b: Seq<u8>) -> Seq<u8> {
    b.subrange(0, header_end(b))
}

/// The second segment of a compact token.
pub open spec fn claims_segment(b: Seq<u8>) -> Seq<u8> {
    b.subrange(header_end(b) + 1, claims_end(b))
}

/// The third segment of a compact token.
pub open spec fn tag_segment(b: Seq<u8>) -> Seq<u8> {
    b.subrange(claims_end(b) + 1, b.len() as int)
}

/// The range of a compact token that the tag or signature covers: the header and claims
/// segments with the dot between them, exactly as they stand in the token.
pub open spec fn authenticated_range(b: Seq<u8>) -> Seq<u8> {
    b.subrange(0, claims_end(b))
}

/// The bytes that a base64url segment encodes, if it is a canonical encoding.
pub open spec fn decoded(s: Seq<u8>) -> Option<Seq<u8>> {
    if exists|b: Seq<u8>| s == ascii_bytes(#[trigger] b64url_encoding(b)) {
        Some(choose|b: Seq<u8>| s == ascii_bytes(#[trigger] b64url_encoding(b)))
    } else {
        None
    }
}

/// The options in force when none are given: no constraint at all.
pub open spec fn effective_options(options: Option<VerificationOptions>) -> VerificationOptions {
    match options {
        Some(o) => o,
        None => VerificationOptions {
            required_key_id: None,
            allowed_issuers: None,
            allowed_audiences: None,
            required_nonce: None,
            time_tolerance: None,
            max_validity: None,
            require_expiration: false,
        },
    }
}

/// The first check of the header that fails, if any: the signature type, then the algorithm,
/// then the key identifier.
pub open spec fn header_error(alg: Seq<char>, h: JWTHeader, o: VerificationOptions) -> Option<
    JWTError,
> {
    if h.signature_type matches Some(t) && t@ != seq!['J', 'W', 'T'] {
        Some(JWTError::NotJWT)
    } else if h.algorithm@ != alg {
        Some(JWTError::AlgorithmMismatch)
    } else if o.required_key_id is Some && h.key_id is None {
        Some(JWTError::MissingJWTKeyIdentifier)
    } else if o.required_key_id matches Some(k) && h.key_id->0@ != k@ {
        Some(JWTError::KeyIdentifierMismatch)
    } else {
        None
    }
}

/// What verifying the token bytes `b` gives, in order of the checks, given what the header
/// parser, the tag check and the claims parser returned. Each of those is only consulted once
/// every earlier check has passed.
pub open spec fn verify_outcome<C>(
    b: Seq<u8>,
    alg: Seq<char>,
    o: VerificationOptions,
    now: nat,
    header: Result<JWTHeader, JWTError>,
    auth: Result<(), JWTError>,
    claims: Result<JWTClaims<C>, JWTError>,
) -> Result<JWTClaims<C>, JWTError> {
    if !is_compact(b) {
        Err(JWTError::CompactEncodingError)
    } else if header_segment(b).len() > MAX_HEADER_LENGTH {
        Err(JWTError::HeaderTooLarge)
    } else if decoded(header_segment(b)) is None {
        Err(JWTError::EncodingError)
    } else if header is Err {
        Err(header->Err_0)
    } else if header_error(alg, header->Ok_0, o) is Some {
        Err(header_error(alg, header->Ok_0, o)->0)
    } else if decoded(tag_segment(b)) is None {
        Err(JWTError::EncodingError)
    } else if auth is Err {
        Err(JWTError::AuthenticationFailure)
    } else if decoded(claims_segment(b)) is None {
        Err(JWTError::EncodingError)
    } else if claims is Err {
        Err(claims->Err_0)
    } else if claims_error(claims->Ok_0, o, now) is Some {
        Err(claims_error(claims->Ok_0, o, now)->0)
    } else {
        claims
    }
}

/// Verification has reached the header parser: three segments, a header segment of
/// acceptable size that decodes.
pub open spec fn reaches_header(b: Seq<u8>) -> bool {
    &&& is_compact(b)
    &&& header_segment(b).len() <= MAX_HEADER_LENGTH
    &&& decoded(header_segment(b)) is Some
}

/// Verification has reached the tag check: the header was parsed and passed its checks, and
/// the tag segment decodes.
pub open spec fn reaches_auth(
    b: Seq<u8>,
    alg: Seq<char>,
    o: VerificationOptions,
    header: Result<JWTHeader, JWTError>,
) -> bool {
    &&& reaches_header(b)
    &&& header is Ok
    &&& header_error(alg, header->Ok_0, o) is None
    &&& decoded(tag_segment(b)) is Some
}

/// Verification has reached the claims parser: the tag was accepted and the claims segment
/// decodes.
pub open spec fn reaches_claims(
    b: Seq<u8>,
    alg: Seq<char>,
    o: VerificationOptions,
    header: Result<JWTHeader, JWTError>,
    auth: Result<(), JWTError>,
) -> bool {
    &&& reaches_auth(b, alg, o, header)
    &&& auth is Ok
    &&& decoded(claims_segment(b)) is Some
}

/// `r` is what verification of `b` gives when the header parser, the tag check and the claims
/// parser returned `header`, `auth` and `claims`; and each of them, where it was reached, was
/// called on exactly the decoded segment, and for the tag check on the authenticated range.
pub open spec fn verify_accounts<C, PH, VF, PC>(
    r: Result<JWTClaims<C>, JWTError>,
    b: Seq<u8>,
    alg: Seq<char>,
    o: VerificationOptions,
    now: nat,
    parse_header: PH,
    verify_fn: VF,
    parse_claims: PC,
    header: Result<JWTHeader, JWTError>,
    auth: Result<(), JWTError>,
    claims: Result<JWTClaims<C>, JWTError>,
) -> bool where
    PH: FnOnce(&[u8]) -> Result<JWTHeader, JWTError>,
    VF: FnOnce(&[u8], &[u8]) -> Result<(), JWTError>,
    PC: FnOnce(&[u8]) -> Result<JWTClaims<C>, JWTError>,
 {
    &&& r == verify_outcome(b, alg, o, now, header, auth, claims)
    &&& reaches_header(b) ==> exists|x: &[u8]|
        x@ == decoded(header_segment(b))->0 && #[trigger] parse_header.ensures((x,), header)
    &&& reaches_auth(b, alg, o, header) ==> exists|m: &[u8], t: &[u8]|
        m@ == authenticated_range(b) && t@ == decoded(tag_segment(b))->0
            && #[trigger] verify_fn.ensures((m, t), auth)
    &&& reaches_claims(b, alg, o, header, auth) ==> exists|x: &[u8]|
        x@ == decoded(claims_segment(b))->0 && #[trigger] parse_claims.ensures((x,), claims)
}

/// The text that is signed: the encoded header and claims joined by a dot.
pub open spec fn signing_input(header_json: Seq<u8>, claims_json: Seq<u8>) -> Seq<char> {
    b64url_encoding(header_json) + seq!['.'] + b64url_encoding(claims_json)
}

/// The compact token for a header, claims and tag.
pub open spec fn compact_text(header_json: Seq<u8>, claims_json: Seq<u8>, tag: Seq<u8>) -> Seq<
    char,
> {
    signing_input(header_json, claims_json) + seq!['.'] + b64url_encoding(tag)
}

/// `r` is what building a token gives when the signer returned `signed`, and the signer was
/// called on exactly the bytes of the signing input.
pub open spec fn build_accounts<F>(
    r: Result<String, JWTError>,
    header_json: Seq<u8>,
    claims_json: Seq<u8>,
    sign: F,
    signed: Result<Vec<u8>, JWTError>,
) -> bool where F: FnOnce(&[u8]) -> Result<Vec<u8>, JWTError> {
    &&& exists|x: &[u8]|
        x@ == ascii_bytes(signing_input(header_json, claims_json)) && #[trigger] sign.ensures(
            (x,),
            signed,
        )
    &&& match signed {
        Err(e) => r == Err::<String, JWTError>(e),
        Ok(tag) => if tag@.len() > usize::MAX / 2 {
            r == Err::<String, JWTError>(JWTError::EncodingError)
        } else {
            &&& r matches Ok(t) && t@ == compact_text(header_json, claims_json, tag@)
            &&& is_b64url_text_of(b64url_encoding(tag@), tag@)
        },
    }
}

/// `r` is what inspecting the header of `b` gives when the header parser returned `header`,
/// which it did, if reached, on exactly the decoded first segment.
pub open spec fn metadata_accounts<PH>(
    r: Result<TokenMetadata, JWTError>,
    b: Seq<u8>,
    parse_header: PH,
    header: Result<JWTHeader, JWTError>,
) -> bool where PH: FnOnce(&[u8]) -> Result<JWTHeader, JWTError> {
    if header_segment(b).len() > MAX_HEADER_LENGTH {
        r == Err::<TokenMetadata, JWTError>(JWTError::HeaderTooLarge)
    } else if decoded(header_segment(b)) is None {
        r == Err::<TokenMetadata, JWTError>(JWTError::EncodingError)
    } else {
        &&& exists|x: &[u8]|
            x@ == decoded(header_segment(b))->0 && #[trigger] parse_header.ensures((x,), header)
        &&& match header {
            Ok(h) => r == Ok::<TokenMetadata, JWTError>(TokenMetadata { jwt_header: h }),
            Err(e) => r == Err::<TokenMetadata, JWTError>(e),
        }
    }
}

/// The index of the first dot at or after `start`, or the length if there is none.
fn find_dot(b: &[u8], start: usize) -> (r: usize)
    requires
        start <= b@.len(),
    ensures
        r == seg_end(b@, start as int),
        start <= r <= b@.len(),
{
    let mut i = start;
    while i < b.len()
        invariant
            start <= i <= b@.len(),
            seg_end(b@, start as int) == seg_end(b@, i as int),
        decreases b@.len() - i,
    {
        if b[i] == DOT {
            return i;
        }
        i = i + 1;
    }
    i
}

/// Decodes one base64url segment.
fn decode_segment(s: &[u8]) -> (r: Result<Vec<u8>, JWTError>)
    ensures
        match decoded(s@) {
            Some(v) => r matches Ok(w) && w@ == v,
            None => r == Err::<Vec<u8>, JWTError>(JWTError::EncodingError),
        },
{
    match b64url_decode(s) {
        Ok(v) => {
            assert(decoded(s@) == Some(v@));
            Ok(v)
        },
        Err(_) => Err(JWTError::EncodingError),
    }
}

/// Utilities to build, verify and inspect compact tokens.
pub struct Token;

impl Token {
    /// Checks a decoded header against the algorithm the key implies and the options.
    pub fn check_header(jwt_alg_name: &str, header: &JWTHeader, options: &VerificationOptions) -> (r:
        Result<(), JWTError>)
        ensures
            match header_error(jwt_alg_name@, *header, *options) {
                None => r is Ok,
                Some(e) => r == Err::<(), JWTError>(e),
            },
    {
        if let Some(signature_type) = &header.signature_type {
            let jwt = "JWT".to_string();
            proof {
                reveal_strlit("JWT");
                assert(jwt@ =~= seq!['J', 'W', 'T']);
            }
            if !(*signature_type == jwt) {
                return Err(JWTError::NotJWT);
            }
        }
        if !(header.algorithm == jwt_alg_name.to_string()) {
            return Err(JWTError::AlgorithmMismatch);
        }
        if let Some(required_key_id) = &options.required_key_id {
            match &header.key_id {
                Some(key_id) => {
                    if !(*key_id == *required_key_id) {
                        return Err(JWTError::KeyIdentifierMismatch);
                    }
                },
                None => {
                    return Err(JWTError::MissingJWTKeyIdentifier);
                },
            }
        }
        Ok(())
    }

    /// Builds a compact token from the JSON text of a header and of claims: each is encoded
    /// as unpadded base64url, the two are joined by a dot, `sign` is called on the bytes of that
    /// text, and the encoded tag it returns is appended after another dot.
    pub fn build<SignFn>(header_json: &[u8], claims_json: &[u8], sign: SignFn) -> (r: Result<
        String,
        JWTError,
    >) where SignFn: FnOnce(&[u8]) -> Result<Vec<u8>, JWTError>
        requires
            header_json@.len() <= usize::MAX / 2,
            claims_json@.len() <= usize::MAX / 2,
            forall|x: &[u8]| sign.requires((x,)),
        ensures
            is_b64url_text_of(b64url_encoding(header_json@), header_json@),
            is_b64url_text_of(b64url_encoding(claims_json@), claims_json@),
            exists|signed: Result<Vec<u8>, JWTError>|
                #[trigger] build_accounts(r, header_json@, claims_json@, sign, signed),
    {
        let header_b64 = match b64url_encode(header_json) {
            Ok(s) => s,
            Err(_) => {
                return Err(JWTError::EncodingError);
            },
        };
        let claims_b64 = match b64url_encode(claims_json) {
            Ok(s) => s,
            Err(_) => {
                return Err(JWTError::EncodingError);
            },
        };
        let dot = ".";
        proof {
            reveal_strlit(".");
        }
        let authenticated = header_b64.concat(dot).concat(claims_b64.as_str());
        assert(authenticated@ =~= signing_input(header_json@, claims_json@));
        proof {
            lemma_b64url_chars_are_ascii(authenticated@);
        }
        let input = authenticated.as_str().as_bytes();
        let signed = sign(input);
        let ghost sr = signed;
        assert(input@ == ascii_bytes(signing_input(header_json@, claims_json@)) && sign.ensures(
            (input,),
            sr,
        ));
        let tag = match signed {
            Ok(tag) => tag,
            Err(e) => {
                let r = Err(e);
                assert(build_accounts(r, header_json@, claims_json@, sign, sr));
                return r;
            },
        };
        if tag.len() > usize::MAX / 2 {
            let r = Err(JWTError::EncodingError);
            assert(build_accounts(r, header_json@, claims_json@, sign, sr));
            return r;
        }
        let tag_b64 = match b64url_encode(tag.as_slice()) {
            Ok(s) => s,
            Err(_) => {
                return Err(JWTError::EncodingError);
            },
        };
        let token = authenticated.concat(dot).concat(tag_b64.as_str());
        assert(token@ =~= compact_text(header_json@, claims_json@, tag@));
        let r = Ok(token);
        assert(build_accounts(r, header_json@, claims_json@, sign, sr));
        r
    }

    /// Decodes the header of a token without any cryptographic check, to help choose a key.
    /// Only the first segment is read, after the same size guard as verification.
    pub fn decode_metadata<ParseHeader>(token: &str, parse_header: ParseHeader) -> (r: Result<
        TokenMetadata,
        JWTError,
    >) where ParseHeader: FnOnce(&[u8]) -> Result<JWTHeader, JWTError>
        requires
            forall|x: &[u8]| parse_header.requires((x,)),
        ensures
            exists|header: Result<JWTHeader, JWTError>|
                #[trigger] metadata_accounts(r, token.spec_bytes(), parse_header, header),
    {
        let ghost b = token.spec_bytes();
        let ghost ph = parse_header;
        // Stands in for the parser's result where the size guard or decoding fails first.
        let ghost no_h: Result<JWTHeader, JWTError> = Err(JWTError::EncodingError);
        let bytes = token.as_bytes();
        let e1 = find_dot(bytes, 0);
        if e1 > MAX_HEADER_LENGTH {
            let r = Err(JWTError::HeaderTooLarge);
            assert(metadata_accounts(r, b, ph, no_h));
            return r;
        }
        let header_b64 = slice_subrange(bytes, 0, e1);
        assert(header_b64@ == header_segment(b));
        let header_bytes = match decode_segment(header_b64) {
            Ok(v) => v,
            Err(e) => {
                let r = Err(e);
                assert(metadata_accounts(r, b, ph, no_h));
                return r;
            },
        };
        let header_arg = header_bytes.as_slice();
        let header_res = parse_header(header_arg);
        let ghost h = header_res;
        assert(header_arg@ == decoded(header_segment(b))->0 && ph.ensures((header_arg,), h));
        let r = match header_res {
            Ok(jwt_header) => Ok(TokenMetadata { jwt_header }),
            Err(e) => Err(e),
        };
        assert(metadata_accounts(r, b, ph, h));
        r
    }

    /// Verifies a compact token and returns its claims.
    ///
    /// In this order: the token must have exactly three segments; the header segment may not
    /// exceed `MAX_HEADER_LENGTH` bytes; it is decoded and parsed with `parse_header` and
    /// checked against `jwt_alg_name` and the options; the tag is decoded and `verify_fn` is
    /// called on the exact authenticated range of the token and the tag; only then are the
    /// claims decoded, parsed with `parse_claims` and validated at time `now`. Whatever error
    /// `verify_fn` reports becomes `AuthenticationFailure`.
    pub fn verify<CustomClaims, ParseHeader, VerifyFn, ParseClaims>(
        jwt_alg_name: &str,
        token: &str,
        options: Option<VerificationOptions>,
        parse_header: ParseHeader,
        verify_fn: VerifyFn,
        parse_claims: ParseClaims,
        now: u64,
    ) -> (r: Result<JWTClaims<CustomClaims>, JWTError>) where
        ParseHeader: FnOnce(&[u8]) -> Result<JWTHeader, JWTError>,
        VerifyFn: FnOnce(&[u8], &[u8]) -> Result<(), JWTError>,
        ParseClaims: FnOnce(&[u8]) -> Result<JWTClaims<CustomClaims>, JWTError>,

        requires
            forall|x: &[u8]| parse_header.requires((x,)),
            forall|m: &[u8], t: &[u8]| verify_fn.requires((m, t)),
            forall|x: &[u8]| parse_claims.requires((x,)),
        ensures
            exists|
                header: Result<JWTHeader, JWTError>,
                auth: Result<(), JWTError>,
                claims: Result<JWTClaims<CustomClaims>, JWTError>,
            |
                #[trigger] verify_accounts(
                    r,
                    token.spec_bytes(),
                    jwt_alg_name@,
                    effective_options(options),
                    now as nat,
                    parse_header,
                    verify_fn,
                    parse_claims,
                    header,
                    auth,
                    claims,
                ),
    {
        let ghost b = token.spec_bytes();
        let ghost alg = jwt_alg_name@;
        let ghost t = now as nat;
        let ghost ph = parse_header;
        let ghost vf = verify_fn;
        let ghost pc = parse_claims;
        let o = match options {
            Some(o) => o,
            None => VerificationOptions::default(),
        };
        assert(o == effective_options(options));
        // Stand-ins for the results of callbacks that a failed earlier check never reaches.
        let ghost no_h: Result<JWTHeader, JWTError> = Err(JWTError::EncodingError);
        let ghost no_a: Result<(), JWTError> = Err(JWTError::EncodingError);
        let ghost no_c: Result<JWTClaims<CustomClaims>, JWTError> = Err(JWTError::EncodingError);
        let bytes = token.as_bytes();
        let n = bytes.len();
        let e1 = find_dot(bytes, 0);
        if e1 == n {
            let r = Err(JWTError::CompactEncodingError);
            assert(verify_accounts(r, b, alg, o, t, ph, vf, pc, no_h, no_a, no_c));
            return r;
        }
        let e2 = find_dot(bytes, e1 + 1);
        if e2 == n {
            let r = Err(JWTError::CompactEncodingError);
            assert(verify_accounts(r, b, alg, o, t, ph, vf, pc, no_h, no_a, no_c));
            return r;
        }
        let e3 = find_dot(bytes, e2 + 1);
        if e3 != n {
            let r = Err(JWTError::CompactEncodingError);
            assert(verify_accounts(r, b, alg, o, t, ph, vf, pc, no_h, no_a, no_c));
            return r;
        }
        assert(is_compact(b));
        if e1 > MAX_HEADER_LENGTH {
            let r = Err(JWTError::HeaderTooLarge);
            assert(verify_accounts(r, b, alg, o, t, ph, vf, pc, no_h, no_a, no_c));
            return r;
        }
        let header_b64 = slice_subrange(bytes, 0, e1);
        assert(header_b64@ == header_segment(b));
        let header_bytes = match decode_segment(header_b64) {
            Ok(v) => v,
            Err(e) => {
                let r = Err(e);
                assert(verify_accounts(r, b, alg, o, t, ph, vf, pc, no_h, no_a, no_c));
                return r;
            },
        };
        let header_arg = header_bytes.as_slice();
        let header_res = parse_header(header_arg);
        let ghost h = header_res;
        assert(header_arg@ == decoded(header_segment(b))->0 && ph.ensures((header_arg,), h));
        let header = match header_res {
            Ok(header) => header,
            Err(e) => {
                let r = Err(e);
                assert(verify_accounts(r, b, alg, o, t, ph, vf, pc, h, no_a, no_c));
                return r;
            },
        };
        match Token::check_header(jwt_alg_name, &header, &o) {
            Ok(()) => {},
            Err(e) => {
                let r = Err(e);
                assert(verify_accounts(r, b, alg, o, t, ph, vf, pc, h, no_a, no_c));
                return r;
            },
        }
        let tag_b64 = slice_subrange(bytes, e2 + 1, n);
        assert(tag_b64@ == tag_segment(b));
        let tag = match decode_segment(tag_b64) {
            Ok(v) => v,
            Err(e) => {
                let r = Err(e);
                assert(verify_accounts(r, b, alg, o, t, ph, vf, pc, h, no_a, no_c));
                return r;
            },
        };
        let authenticated = slice_subrange(bytes, 0, e2);
        assert(authenticated@ == authenticated_range(b));
        let tag_arg = tag.as_slice();
        let auth_res = verify_fn(authenticated, tag_arg);
        let ghost a = auth_res;
        assert(authenticated@ == authenticated_range(b) && tag_arg@ == decoded(tag_segment(b))->0
            && vf.ensures((authenticated, tag_arg), a));
        if auth_res.is_err() {
            let r = Err(JWTError::AuthenticationFailure);
            assert(verify_accounts(r, b, alg, o, t, ph, vf, pc, h, a, no_c));
            return r;
        }
        let claims_b64 = slice_subrange(bytes, e1 + 1, e2);
        assert(claims_b64@ == claims_segment(b));
        let claims_bytes = match decode_segment(claims_b64) {
            Ok(v) => v,
            Err(e) => {
                let r = Err(e);
                assert(verify_accounts(r, b, alg, o, t, ph, vf, pc, h, a, no_c));
                return r;
            },
        };
        let claims_arg = claims_bytes.as_slice();
        let claims_res = parse_claims(claims_arg);
        let ghost c = claims_res;
        assert(claims_arg@ == decoded(claims_segment(b))->0 && pc.ensures((claims_arg,), c));
        let claims = match claims_res {
            Ok(claims) => claims,
            Err(e) => {
                let r = Err(e);
                assert(verify_accounts(r, b, alg, o, t, ph, vf, pc, h, a, c));
                return r;
            },
        };
        match claims.validate(&o, now) {
            Ok(()) => {},
            Err(e) => {
                let r = Err(e);
                assert(verify_accounts(r, b, alg, o, t, ph, vf, pc, h, a, c));
                return r;
            },
        }
        let r = Ok(claims);
        assert(verify_accounts(r, b, alg, o, t, ph, vf, pc, h, a, c));
        r
    }
}


/// A segment that starts at `i` and holds no dot up to `j`, where a dot or the end follows,
/// ends at `j`.
proof fn lemma_seg_end_at(b: Seq<u8>, i: int, j: int)
    requires
        0 <= i <= j <= b.len(),
        forall|k: int| i <= k < j ==> b[k] != DOT,
        j == b.len() || b[j] == DOT,
    ensures
        seg_end(b, i) == j,
    decreases j - i,
{
    if i < j {
        lemma_seg_end_at(b, i + 1, j);
    }
}

/// Two byte strings with dots at the same places have the same segment ends.
proof fn lemma_seg_end_same_dots(b: Seq<u8>, c: Seq<u8>, i: int)
    requires
        b.len() == c.len(),
        forall|k: int| 0 <= k < b.len() ==> (b[k] == DOT <==> c[k] == DOT),
    ensures
        seg_end(b, i) == seg_end(c, i),
    decreases b.len() - i,
{
    if 0 <= i < b.len() {
        lemma_seg_end_same_dots(b, c, i + 1);
    }
}

/// A character of the base64url alphabet is never the segment separator.
proof fn lemma_b64url_char_not_dot(c: char)
    requires
        is_b64url_char(c),
    ensures
        c as u8 != DOT,
{
}

/// Round trip: a token built from a header, claims and tag splits into exactly three
/// segments that decode back to that header, those claims and that tag; its authenticated
/// range is exactly what was signed; and verifying it with parsers that read the header and
/// claims back and a tag check that accepts, under options the header and claims satisfy,
/// gives the claims.
pub proof fn lemma_round_trip<C>(
    header_json: Seq<u8>,
    claims_json: Seq<u8>,
    tag: Seq<u8>,
    alg: Seq<char>,
    o: VerificationOptions,
    now: nat,
    header: JWTHeader,
    claims: JWTClaims<C>,
)
    requires
        is_b64url_text_of(b64url_encoding(header_json), header_json),
        is_b64url_text_of(b64url_encoding(claims_json), claims_json),
        is_b64url_text_of(b64url_encoding(tag), tag),
    ensures
        ({
            let b = encode_utf8(compact_text(header_json, claims_json, tag));
            &&& is_compact(b)
            &&& header_segment(b).len() == b64url_encoding(header_json).len()
            &&& decoded(header_segment(b)) == Some(header_json)
            &&& decoded(claims_segment(b)) == Some(claims_json)
            &&& decoded(tag_segment(b)) == Some(tag)
            &&& authenticated_range(b) == ascii_bytes(signing_input(header_json, claims_json))
            &&& (b64url_encoding(header_json).len() <= MAX_HEADER_LENGTH && header_error(
                alg,
                header,
                o,
            ) is None && claims_error(claims, o, now) is None) ==> verify_outcome(
                b,
                alg,
                o,
                now,
                Ok(header),
                Ok(()),
                Ok(claims),
            ) == Ok::<JWTClaims<C>, JWTError>(claims)
        }),
{
    let hs = b64url_encoding(header_json);
    let cs = b64url_encoding(claims_json);
    let ts = b64url_encoding(tag);
    let text = compact_text(header_json, claims_json, tag);
    assert forall|i: int| 0 <= i < text.len() implies is_b64url_char(#[trigger] text[i]) || text[i]
        == '.' by {
        if i < hs.len() {
            assert(text[i] == hs[i]);
        } else if i == hs.len() {
        } else if i < hs.len() + 1 + cs.len() {
            assert(text[i] == cs[i - hs.len() - 1]);
        } else if i == hs.len() + 1 + cs.len() {
        } else {
            assert(text[i] == ts[i - hs.len() - cs.len() - 2]);
        }
    }
    lemma_b64url_chars_are_ascii(text);
    let b = encode_utf8(text);
    assert(b == ascii_bytes(text));
    let e1 = hs.len() as int;
    let e2 = e1 + 1 + cs.len();
    assert forall|k: int| 0 <= k < b.len() && k != e1 && k != e2 implies b[k] != DOT by {
        lemma_b64url_char_not_dot(text[k]);
    }
    assert(b[e1] == DOT);
    assert(b[e2] == DOT);
    lemma_seg_end_at(b, 0, e1);
    lemma_seg_end_at(b, e1 + 1, e2);
    lemma_seg_end_at(b, e2 + 1, b.len() as int);
    assert(header_segment(b) =~= ascii_bytes(hs));
    assert(claims_segment(b) =~= ascii_bytes(cs));
    assert(tag_segment(b) =~= ascii_bytes(ts));
    assert(authenticated_range(b) =~= ascii_bytes(signing_input(header_json, claims_json)));
}

/// Tamper detection: changing one byte of the authenticated range, without adding or removing
/// a dot, keeps the token's shape and its tag segment, but changes the authenticated range
/// that verification hands to the tag check, so a correct check sees a message the tag was
/// not made for.
pub proof fn lemma_tamper_changes_authenticated_range(b: Seq<u8>, i: int, x: u8)
    requires
        is_compact(b),
        0 <= i < claims_end(b),
        b[i] != DOT,
        x != DOT,
        x != b[i],
    ensures
        is_compact(b.update(i, x)),
        header_segment(b.update(i, x)).len() == header_segment(b).len(),
        tag_segment(b.update(i, x)) == tag_segment(b),
        authenticated_range(b.update(i, x)) != authenticated_range(b),
{
    let c = b.update(i, x);
    lemma_seg_end_same_dots(b, c, 0);
    lemma_seg_end_same_dots(b, c, header_end(b) + 1);
    lemma_seg_end_same_dots(b, c, claims_end(b) + 1);
    assert(tag_segment(c) =~= tag_segment(b));
    assert(authenticated_range(c)[i] != authenticated_range(b)[i]);
}

/// Algorithm confusion: a header that declares another algorithm than the one the key implies
/// is rejected as such, before the tag is ever checked, whatever the tag check would say.
pub proof fn lemma_algorithm_confusion<C>(
    b: Seq<u8>,
    alg: Seq<char>,
    o: VerificationOptions,
    now: nat,
    header: JWTHeader,
    auth: Result<(), JWTError>,
    claims: Result<JWTClaims<C>, JWTError>,
)
    requires
        header.algorithm@ != alg,
        header.signature_type matches Some(t) ==> t@ == seq!['J', 'W', 'T'],
        reaches_header(b),
    ensures
        header_error(alg, header, o) == Some(JWTError::AlgorithmMismatch),
        !reaches_auth(b, alg, o, Ok(header)),
        verify_outcome(b, alg, o, now, Ok(header), auth, claims) == Err::<JWTClaims<C>, JWTError>(
            JWTError::AlgorithmMismatch,
        ),
{
}

/// Size guard: a first segment longer than `MAX_HEADER_LENGTH` is rejected by verification of
/// a three-segment token and by header inspection, before the header parser is reached.
pub proof fn lemma_size_guard<C, PH>(
    b: Seq<u8>,
    alg: Seq<char>,
    o: VerificationOptions,
    now: nat,
    header: Result<JWTHeader, JWTError>,
    auth: Result<(), JWTError>,
    claims: Result<JWTClaims<C>, JWTError>,
    parse_header: PH,
    metadata: Result<TokenMetadata, JWTError>,
) where PH: FnOnce(&[u8]) -> Result<JWTHeader, JWTError>
    requires
        header_segment(b).len() > MAX_HEADER_LENGTH,
    ensures
        !reaches_header(b),
        is_compact(b) ==> verify_outcome(b, alg, o, now, header, auth, claims) == Err::<
            JWTClaims<C>,
            JWTError,
        >(JWTError::HeaderTooLarge),
        metadata_accounts(metadata, b, parse_header, header) ==> metadata == Err::<
            TokenMetadata,
            JWTError,
        >(JWTError::HeaderTooLarge),
{
}

} // verus!
