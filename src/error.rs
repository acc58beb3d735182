use vstd::prelude::*;

verus! {

/// Every way in which building, verifying or inspecting a token can fail.
#[derive(Debug, Clone, Copy, PartialEq, Eq, Structural)]
pub enum JWTError {
    /// The token does not consist of exactly three dot-separated segments.
    CompactEncodingError,
    /// The header segment is longer than `MAX_HEADER_LENGTH` bytes.
    HeaderTooLarge,
    /// The header carries a signature type other than `JWT`.
    NotJWT,
    /// The header's algorithm differs from the one the key implies.
    AlgorithmMismatch,
    /// A key identifier is required but the header carries none.
    MissingJWTKeyIdentifier,
    /// The header's key identifier differs from the required one.
    KeyIdentifierMismatch,
    /// A certificate thumbprint does not decode to a digest of the right size.
    InvalidCertThumbprint,
    /// Malformed base64url or hexadecimal text.
    EncodingError,
    /// Malformed or schema-mismatched JSON.
    SerializationError,
    /// The signature or authentication tag was rejected.
    AuthenticationFailure,
    /// The token expired before now, allowing for the clock tolerance.
    TokenHasExpired,
    /// The token is not valid before a time still in the future.
    TokenNotValidYet,
    /// The token was issued longer ago than the maximum validity allows.
    TokenIsTooOld,
    /// The token has no expiration although one is required.
    MissingRequiredExpiration,
    /// The issuer is missing or not among the allowed issuers.
    InvalidIssuer,
    /// No audience of the token is among the allowed audiences.
    InvalidAudience,
    /// The nonce is missing or differs from the required one.
    NonceMismatch,
}

} // verus!
