use vstd::prelude::*;

use crate::codec::{
    ascii_bytes, b64url_decode, b64url_encode, b64url_encoding, b64url_len, hex_decode, hex_decoding,
    is_b64url_text_of, lemma_b64url_chars_are_ascii,
};
use crate::error::JWTError;
use vstd::utf8::encode_utf8;

verus! {

/// The header of a token: how it is secured, and advisory hints that nothing authenticates
/// until the caller trusts them by other means.
#[derive(Debug, Clone)]
pub struct JWTHeader {
    pub algorithm: String,
    pub content_type: Option<String>,
    pub key_id: Option<String>,
    pub signature_type: Option<String>,
    pub critical: Option<Vec<String>>,
    pub certificate_chain: Option<Vec<String>>,
    pub key_set_url: Option<String>,
    pub public_key: Option<String>,
    pub certificate_url: Option<String>,
    pub certificate_sha1_thumbprint: Option<String>,
    pub certificate_sha256_thumbprint: Option<String>,
}

impl JWTHeader {
    /// A header with the given algorithm and key identifier and no other field.
    pub fn new(algorithm: String, key_id: Option<String>) -> (r: Self)
        ensures
            r.algorithm@ == algorithm@,
            r.key_id.deep_view() == key_id.deep_view(),
            r.content_type is None,
            r.signature_type is None,
            r.critical is None,
            r.certificate_chain is None,
            r.key_set_url is None,
            r.public_key is None,
            r.certificate_url is None,
            r.certificate_sha1_thumbprint is None,
            r.certificate_sha256_thumbprint is None,
    {
        JWTHeader {
            algorithm,
            content_type: None,
            key_id,
            signature_type: None,
            critical: None,
            certificate_chain: None,
            key_set_url: None,
            public_key: None,
            certificate_url: None,
            certificate_sha1_thumbprint: None,
            certificate_sha256_thumbprint: None,
        }
    }
}

/// The text of an optional string field, seen as a borrowed string.
fn opt_str(o: &Option<String>) -> (r: Option<&str>)
    ensures
        r.deep_view() == o.deep_view(),
{
    match o {
        Some(s) => Some(s.as_str()),
        None => None,
    }
}

/// The items of an optional list field, seen as a borrowed slice.
fn opt_slice(o: &Option<Vec<String>>) -> (r: Option<&[String]>)
    ensures
        r.deep_view() == o.deep_view(),
{
    match o {
        Some(v) => Some(v.as_slice()),
        None => None,
    }
}

/// Token information that is useful before the signature or tag is verified.
///
/// Nothing here is authenticated: any third party can change every field, so none of it may
/// drive a trust decision without independent verification.
#[derive(Debug, Clone)]
pub struct TokenMetadata {
    pub jwt_header: JWTHeader,
}

impl TokenMetadata {
    /// The algorithm the token claims to use. Clients should ignore it and use the right kind
    /// of key directly.
    pub fn algorithm(&self) -> (r: &str)
        ensures
            r@ == self.jwt_header.algorithm@,
    {
        self.jwt_header.algorithm.as_str()
    }

    /// The content type of the token.
    pub fn content_type(&self) -> (r: Option<&str>)
        ensures
            r.deep_view() == self.jwt_header.content_type.deep_view(),
    {
        opt_str(&self.jwt_header.content_type)
    }

    /// The identifier of the key, or public key, the token claims to be secured with.
    pub fn key_id(&self) -> (r: Option<&str>)
        ensures
            r.deep_view() == self.jwt_header.key_id.deep_view(),
    {
        opt_str(&self.jwt_header.key_id)
    }

    /// The signature type of the token.
    pub fn signature_type(&self) -> (r: Option<&str>)
        ensures
            r.deep_view() == self.jwt_header.signature_type.deep_view(),
    {
        opt_str(&self.jwt_header.signature_type)
    }

    /// The raw critical properties of the token.
    pub fn critical(&self) -> (r: Option<&[String]>)
        ensures
            r.deep_view() == self.jwt_header.critical.deep_view(),
    {
        opt_slice(&self.jwt_header.critical)
    }

    /// The certificate chain of the token. Unprotected: a third party can change it.
    pub fn certificate_chain(&self) -> (r: Option<&[String]>)
        ensures
            r.deep_view() == self.jwt_header.certificate_chain.deep_view(),
    {
        opt_slice(&self.jwt_header.certificate_chain)
    }

    /// The key set URL of the token. Unprotected: at the very least, check that the URL
    /// belongs to the expected domain.
    pub fn key_set_url(&self) -> (r: Option<&str>)
        ensures
            r.deep_view() == self.jwt_header.key_set_url.deep_view(),
    {
        opt_str(&self.jwt_header.key_set_url)
    }

    /// The public key of the token. Unprotected: at the very least, check that it belongs to a
    /// set of keys already trusted.
    pub fn public_key(&self) -> (r: Option<&str>)
        ensures
            r.deep_view() == self.jwt_header.public_key.deep_view(),
    {
        opt_str(&self.jwt_header.public_key)
    }

    /// The certificate URL of the token. Unprotected: at the very least, check that the URL
    /// belongs to the expected domain.
    pub fn certificate_url(&self) -> (r: Option<&str>)
        ensures
            r.deep_view() == self.jwt_header.certificate_url.deep_view(),
    {
        opt_str(&self.jwt_header.certificate_url)
    }

    /// The base64url SHA-1 thumbprint of the X.509 certificate. Unprotected.
    pub fn certificate_sha1_thumbprint(&self) -> (r: Option<&str>)
        ensures
            r.deep_view() == self.jwt_header.certificate_sha1_thumbprint.deep_view(),
    {
        opt_str(&self.jwt_header.certificate_sha1_thumbprint)
    }

    /// The base64url SHA-256 thumbprint of the X.509 certificate. Unprotected.
    pub fn certificate_sha256_thumbprint(&self) -> (r: Option<&str>)
        ensures
            r.deep_view() == self.jwt_header.certificate_sha256_thumbprint.deep_view(),
    {
        opt_str(&self.jwt_header.certificate_sha256_thumbprint)
    }
}

/// What a thumbprint setter stores for the text `s`, given the digest size `n` in bytes:
/// `2 * n` hexadecimal digits are re-encoded as base64url, anything else must already be the
/// base64url encoding of `n` bytes and is kept as it is.
pub open spec fn thumbprint_value(s: Seq<char>, n: nat) -> Result<Seq<char>, JWTError> {
    let t = encode_utf8(s);
    if t.len() == 2 * n {
        match hex_decoding(t) {
            Some(b) => if b.len() == n {
                Ok(b64url_encoding(b))
            } else {
                Err(JWTError::InvalidCertThumbprint)
            },
            None => Err(JWTError::EncodingError),
        }
    } else if exists|b: Seq<u8>| t == ascii_bytes(#[trigger] b64url_encoding(b)) && b.len() == n {
        Ok(s)
    } else if exists|b: Seq<u8>| t == ascii_bytes(#[trigger] b64url_encoding(b)) {
        Err(JWTError::InvalidCertThumbprint)
    } else {
        Err(JWTError::EncodingError)
    }
}

/// Normalises a certificate thumbprint of `n` bytes to its base64url text.
fn normalize_thumbprint(thumbprint: &str, n: usize) -> (r: Result<String, JWTError>)
    requires
        n <= 64,
    ensures
        match thumbprint_value(thumbprint@, n as nat) {
            Ok(v) => r matches Ok(s) && s@ == v,
            Err(e) => r == Err::<String, JWTError>(e),
        },
{
    let t = thumbprint.as_bytes();
    if t.len() == 2 * n {
        match hex_decode(t) {
            Ok(bin) => {
                if bin.len() != n {
                    return Err(JWTError::InvalidCertThumbprint);
                }
                match b64url_encode(bin.as_slice()) {
                    Ok(s) => Ok(s),
                    Err(_) => Err(JWTError::EncodingError),
                }
            },
            Err(_) => Err(JWTError::EncodingError),
        }
    } else {
        match b64url_decode(t) {
            Ok(bin) => {
                if bin.len() != n {
                    return Err(JWTError::InvalidCertThumbprint);
                }
                Ok(thumbprint.to_string())
            },
            Err(_) => Err(JWTError::EncodingError),
        }
    }
}

/// Unsigned metadata to attach to a new token.
#[derive(Debug, Clone)]
pub struct NewTokenMetadata {
    pub jwt_header: JWTHeader,
}

impl NewTokenMetadata {
    /// Metadata for a token secured with `algorithm`, under the key named by `key_id`.
    pub fn new(algorithm: String, key_id: Option<String>) -> (r: Self)
        ensures
            r.jwt_header.algorithm@ == algorithm@,
            r.jwt_header.key_id.deep_view() == key_id.deep_view(),
            r.jwt_header.content_type is None,
            r.jwt_header.signature_type is None,
            r.jwt_header.critical is None,
            r.jwt_header.certificate_chain is None,
            r.jwt_header.key_set_url is None,
            r.jwt_header.public_key is None,
            r.jwt_header.certificate_url is None,
            r.jwt_header.certificate_sha1_thumbprint is None,
            r.jwt_header.certificate_sha256_thumbprint is None,
    {
        NewTokenMetadata { jwt_header: JWTHeader::new(algorithm, key_id) }
    }

    /// Sets the key set URL.
    pub fn with_key_set_url(self, key_set_url: &str) -> (r: Self)
        ensures
            r.jwt_header.key_set_url.deep_view() == Some(key_set_url@),
            r.jwt_header == (JWTHeader { key_set_url: r.jwt_header.key_set_url, ..self.jwt_header }),
    {
        let mut this = self;
        this.jwt_header.key_set_url = Some(key_set_url.to_string());
        this
    }

    /// Sets the public key.
    pub fn with_public_key(self, public_key: &str) -> (r: Self)
        ensures
            r.jwt_header.public_key.deep_view() == Some(public_key@),
            r.jwt_header == (JWTHeader { public_key: r.jwt_header.public_key, ..self.jwt_header }),
    {
        let mut this = self;
        this.jwt_header.public_key = Some(public_key.to_string());
        this
    }

    /// Sets the certificate URL.
    pub fn with_certificate_url(self, certificate_url: &str) -> (r: Self)
        ensures
            r.jwt_header.certificate_url.deep_view() == Some(certificate_url@),
            r.jwt_header == (JWTHeader {
                certificate_url: r.jwt_header.certificate_url,
                ..self.jwt_header
            }),
    {
        let mut this = self;
        this.jwt_header.certificate_url = Some(certificate_url.to_string());
        this
    }

    /// Sets the SHA-1 certificate thumbprint, given as 40 hexadecimal digits or as the
    /// base64url text of 20 bytes; it is stored as base64url.
    pub fn with_certificate_sha1_thumbprint(self, certificate_sha1_thumbprint: &str) -> (r:
        Result<Self, JWTError>)
        ensures
            match thumbprint_value(certificate_sha1_thumbprint@, 20) {
                Ok(v) => r matches Ok(m) && m.jwt_header.certificate_sha1_thumbprint.deep_view()
                    == Some(v) && m.jwt_header == (JWTHeader {
                    certificate_sha1_thumbprint: m.jwt_header.certificate_sha1_thumbprint,
                    ..self.jwt_header
                }),
                Err(e) => r matches Err(f) && f == e,
            },
    {
        let thumbprint = normalize_thumbprint(certificate_sha1_thumbprint, 20)?;
        let mut this = self;
        this.jwt_header.certificate_sha1_thumbprint = Some(thumbprint);
        Ok(this)
    }

    /// Sets the SHA-256 certificate thumbprint, given as 64 hexadecimal digits or as the
    /// base64url text of 32 bytes; it is stored as base64url.
    pub fn with_certificate_sha256_thumbprint(self, certificate_sha256_thumbprint: &str) -> (r:
        Result<Self, JWTError>)
        ensures
            match thumbprint_value(certificate_sha256_thumbprint@, 32) {
                Ok(v) => r matches Ok(m) && m.jwt_header.certificate_sha256_thumbprint.deep_view()
                    == Some(v) && m.jwt_header == (JWTHeader {
                    certificate_sha256_thumbprint: m.jwt_header.certificate_sha256_thumbprint,
                    ..self.jwt_header
                }),
                Err(e) => r matches Err(f) && f == e,
            },
    {
        let thumbprint = normalize_thumbprint(certificate_sha256_thumbprint, 32)?;
        let mut this = self;
        this.jwt_header.certificate_sha256_thumbprint = Some(thumbprint);
        Ok(this)
    }
}

/// A digest given as hexadecimal digits and the same digest given as its base64url text are
/// stored identically by the thumbprint setters (SHA-1 and SHA-256 digest sizes).
pub proof fn lemma_thumbprint_normalization(hex: Seq<char>, b64: Seq<char>, digest: Seq<u8>, n: nat)
    requires
        n == 20 || n == 32,
        encode_utf8(hex).len() == 2 * n,
        hex_decoding(encode_utf8(hex)) == Some(digest),
        digest.len() == n,
        is_b64url_text_of(b64, digest),
    ensures
        thumbprint_value(hex, n) == Ok::<Seq<char>, JWTError>(b64),
        thumbprint_value(b64, n) == Ok::<Seq<char>, JWTError>(b64),
{
    lemma_b64url_chars_are_ascii(b64);
    assert(b64url_len(n) != 2 * n);
    assert(encode_utf8(b64) == ascii_bytes(b64url_encoding(digest)));
}

} // verus!
