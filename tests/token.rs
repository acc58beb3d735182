use jwt_simple::claims::{Audiences, JWTClaims, NoCustomClaims, VerificationOptions};
use jwt_simple::error::JWTError;
use jwt_simple::header::{JWTHeader, NewTokenMetadata};
use jwt_simple::token::{Token, MAX_HEADER_LENGTH};
use ct_codecs::{Base64UrlSafeNoPadding, Encoder};
use serde_json::Value;

type JsonObject = serde_json::Map<String, Value>;

const KEY: &[u8] = b"a test key for HS256 tokens, 32b";
const NOW: u64 = 1_700_000_000;

fn put_str(m: &mut JsonObject, k: &str, v: &Option<String>) {
    if let Some(v) = v {
        m.insert(k.to_string(), Value::String(v.clone()));
    }
}

fn put_list(m: &mut JsonObject, k: &str, v: &Option<Vec<String>>) {
    if let Some(v) = v {
        let items = v.iter().map(|s| Value::String(s.clone())).collect();
        m.insert(k.to_string(), Value::Array(items));
    }
}

fn put_u64(m: &mut JsonObject, k: &str, v: Option<u64>) {
    if let Some(v) = v {
        m.insert(k.to_string(), Value::from(v));
    }
}

fn get_str(m: &JsonObject, k: &str) -> Result<Option<String>, JWTError> {
    match m.get(k) {
        None => Ok(None),
        Some(Value::String(s)) => Ok(Some(s.clone())),
        Some(_) => Err(JWTError::SerializationError),
    }
}

fn get_list(m: &JsonObject, k: &str) -> Result<Option<Vec<String>>, JWTError> {
    match m.get(k) {
        None => Ok(None),
        Some(Value::Array(items)) => {
            let mut out = Vec::new();
            for item in items {
                match item {
                    Value::String(s) => out.push(s.clone()),
                    _ => return Err(JWTError::SerializationError),
                }
            }
            Ok(Some(out))
        }
        Some(_) => Err(JWTError::SerializationError),
    }
}

fn get_u64(m: &JsonObject, k: &str) -> Result<Option<u64>, JWTError> {
    match m.get(k) {
        None => Ok(None),
        Some(v) => v.as_u64().map(Some).ok_or(JWTError::SerializationError),
    }
}

fn object(bytes: &[u8]) -> Result<JsonObject, JWTError> {
    match serde_json::from_slice::<Value>(bytes) {
        Ok(Value::Object(m)) => Ok(m),
        _ => Err(JWTError::SerializationError),
    }
}

fn header_json(h: &JWTHeader) -> Vec<u8> {
    let mut m = JsonObject::new();
    m.insert("alg".to_string(), Value::String(h.algorithm.clone()));
    put_str(&mut m, "cty", &h.content_type);
    put_str(&mut m, "kid", &h.key_id);
    put_str(&mut m, "typ", &h.signature_type);
    put_list(&mut m, "crit", &h.critical);
    put_list(&mut m, "x5c", &h.certificate_chain);
    put_str(&mut m, "jku", &h.key_set_url);
    put_str(&mut m, "jwk", &h.public_key);
    put_str(&mut m, "x5u", &h.certificate_url);
    put_str(&mut m, "x5t", &h.certificate_sha1_thumbprint);
    put_str(&mut m, "x5t#S256", &h.certificate_sha256_thumbprint);
    serde_json::to_vec(&Value::Object(m)).unwrap()
}

fn parse_header(bytes: &[u8]) -> Result<JWTHeader, JWTError> {
    let m = object(bytes)?;
    let algorithm = get_str(&m, "alg")?.ok_or(JWTError::SerializationError)?;
    Ok(JWTHeader {
        algorithm,
        content_type: get_str(&m, "cty")?,
        key_id: get_str(&m, "kid")?,
        signature_type: get_str(&m, "typ")?,
        critical: get_list(&m, "crit")?,
        certificate_chain: get_list(&m, "x5c")?,
        key_set_url: get_str(&m, "jku")?,
        public_key: get_str(&m, "jwk")?,
        certificate_url: get_str(&m, "x5u")?,
        certificate_sha1_thumbprint: get_str(&m, "x5t")?,
        certificate_sha256_thumbprint: get_str(&m, "x5t#S256")?,
    })
}

fn claims_json(c: &JWTClaims<NoCustomClaims>) -> Vec<u8> {
    let mut m = JsonObject::new();
    put_u64(&mut m, "iat", c.issued_at);
    put_u64(&mut m, "exp", c.expires_at);
    put_u64(&mut m, "nbf", c.invalid_before);
    put_str(&mut m, "iss", &c.issuer);
    put_str(&mut m, "sub", &c.subject);
    match &c.audiences {
        None => {}
        Some(Audiences::AsString(s)) => {
            m.insert("aud".to_string(), Value::String(s.clone()));
        }
        Some(Audiences::AsSet(v)) => put_list(&mut m, "aud", &Some(v.clone())),
    }
    put_str(&mut m, "jti", &c.jwt_id);
    put_str(&mut m, "nonce", &c.nonce);
    serde_json::to_vec(&Value::Object(m)).unwrap()
}

fn parse_claims(bytes: &[u8]) -> Result<JWTClaims<NoCustomClaims>, JWTError> {
    let m = object(bytes)?;
    let audiences = match m.get("aud") {
        None => None,
        Some(Value::String(s)) => Some(Audiences::AsString(s.clone())),
        Some(_) => Some(Audiences::AsSet(get_list(&m, "aud")?.unwrap_or_default())),
    };
    Ok(JWTClaims {
        issued_at: get_u64(&m, "iat")?,
        expires_at: get_u64(&m, "exp")?,
        invalid_before: get_u64(&m, "nbf")?,
        issuer: get_str(&m, "iss")?,
        subject: get_str(&m, "sub")?,
        audiences,
        jwt_id: get_str(&m, "jti")?,
        nonce: get_str(&m, "nonce")?,
        custom: NoCustomClaims {},
    })
}

fn hs256_sign(input: &[u8]) -> Result<Vec<u8>, JWTError> {
    Ok(hmac_sha256::HMAC::mac(input, KEY).to_vec())
}

fn hs256_verify(input: &[u8], tag: &[u8]) -> Result<(), JWTError> {
    let expected = hmac_sha256::HMAC::mac(input, KEY);
    if expected.as_slice() == tag {
        Ok(())
    } else {
        Err(JWTError::AuthenticationFailure)
    }
}

/// A stand-in for an HS256 key: it authenticates claims and verifies tokens.
struct HS256Key;

impl HS256Key {
    fn generate() -> Self {
        HS256Key
    }

    fn authenticate(&self, claims: JWTClaims<NoCustomClaims>) -> Result<String, JWTError> {
        self.authenticate_with(&JWTHeader::new("HS256".to_string(), None), claims)
    }

    fn authenticate_with(
        &self,
        header: &JWTHeader,
        claims: JWTClaims<NoCustomClaims>,
    ) -> Result<String, JWTError> {
        Token::build(&header_json(header), &claims_json(&claims), hs256_sign)
    }

    fn verify_token(
        &self,
        token: &str,
        options: Option<VerificationOptions>,
    ) -> Result<JWTClaims<NoCustomClaims>, JWTError> {
        Token::verify("HS256", token, options, parse_header, hs256_verify, parse_claims, NOW)
    }
}

fn create(valid_for: u64) -> JWTClaims<NoCustomClaims> {
    JWTClaims::create(NoCustomClaims {}, NOW, valid_for)
}

fn strings(items: &[&str]) -> Vec<String> {
    items.iter().map(|s| s.to_string()).collect()
}

fn b64(bytes: &[u8]) -> String {
    Base64UrlSafeNoPadding::encode_to_string(bytes).unwrap()
}

#[test]
fn should_verify_token() {
    let key = HS256Key::generate();
    let issuer = "issuer";
    let audience = "recipient";
    let claims = create(10 * 60)
        .with_issuer(issuer)
        .with_audience(audience)
        .with_nonce("a nonce that only this test uses");
    let nonce = claims.nonce.clone().unwrap();
    let token = key.authenticate(claims).unwrap();
    let options = VerificationOptions {
        required_nonce: Some(nonce),
        allowed_issuers: Some(strings(&[issuer])),
        allowed_audiences: Some(strings(&[audience])),
        ..Default::default()
    };
    key.verify_token(&token, Some(options)).unwrap();
}

#[test]
fn multiple_audiences() {
    let key = HS256Key::generate();
    let audiences = strings(&["audience 1", "audience 2", "audience 3"]);
    let claims = create(10 * 60).with_audiences(audiences);
    let token = key.authenticate(claims).unwrap();
    let options = VerificationOptions {
        allowed_audiences: Some(strings(&["audience 1"])),
        ..Default::default()
    };
    key.verify_token(&token, Some(options)).unwrap();
}

#[test]
fn explicitly_empty_audiences() {
    let key = HS256Key::generate();

    let claims = create(10 * 60).with_audiences(Vec::new());
    let token = key.authenticate(claims).unwrap();
    let decoded = key.verify_token(&token, None).unwrap();
    assert!(decoded.audiences.is_some());

    let claims = create(10 * 60).with_audience("");
    let token = key.authenticate(claims).unwrap();
    let decoded = key.verify_token(&token, None).unwrap();
    assert!(decoded.audiences.is_some());

    let claims = create(10 * 60);
    let token = key.authenticate(claims).unwrap();
    let decoded = key.verify_token(&token, None).unwrap();
    assert!(decoded.audiences.is_none());
}

#[test]
fn round_trip_keeps_standard_claims() {
    let key = HS256Key::generate();
    let claims = create(3600)
        .with_issuer("iss")
        .with_subject("sub")
        .with_jwt_id("id-1")
        .with_audience("aud");
    let token = key.authenticate(claims).unwrap();
    assert_eq!(token.matches('.').count(), 2);
    let decoded = key.verify_token(&token, None).unwrap();
    assert_eq!(decoded.issued_at, Some(NOW));
    assert_eq!(decoded.invalid_before, Some(NOW));
    assert_eq!(decoded.expires_at, Some(NOW + 3600));
    assert_eq!(decoded.issuer.as_deref(), Some("iss"));
    assert_eq!(decoded.subject.as_deref(), Some("sub"));
    assert_eq!(decoded.jwt_id.as_deref(), Some("id-1"));
    assert!(matches!(decoded.audiences, Some(Audiences::AsString(ref a)) if a == "aud"));
}

#[test]
fn build_encodes_each_segment() {
    let token = Token::build(b"{\"alg\":\"HS256\"}", b"{}", |_: &[u8]| Ok(vec![1u8, 2, 3])).unwrap();
    assert_eq!(token, "eyJhbGciOiJIUzI1NiJ9.e30.AQID");
}

#[test]
fn build_passes_signing_input_and_propagates_errors() {
    let mut seen = Vec::new();
    let token = Token::build(b"{}", b"{}", |m: &[u8]| {
        seen = m.to_vec();
        Ok(Vec::new())
    })
    .unwrap();
    assert_eq!(seen, b"e30.e30".to_vec());
    assert_eq!(token, "e30.e30.");
    let r = Token::build(b"{}", b"{}", |_: &[u8]| Err(JWTError::AuthenticationFailure));
    assert_eq!(r, Err(JWTError::AuthenticationFailure));
}

#[test]
fn algorithm_confusion_is_rejected() {
    let key = HS256Key::generate();
    let header = JWTHeader::new("RS256".to_string(), None);
    let token = key.authenticate_with(&header, create(600)).unwrap();
    assert_eq!(key.verify_token(&token, None).unwrap_err(), JWTError::AlgorithmMismatch);
}

#[test]
fn tampering_is_detected() {
    let key = HS256Key::generate();
    let token = key.authenticate(create(600).with_issuer("issuer")).unwrap();
    let claims_start = token.find('.').unwrap() + 1;
    let mut bytes = token.clone().into_bytes();
    bytes[claims_start] = if bytes[claims_start] == b'A' { b'B' } else { b'A' };
    let tampered = String::from_utf8(bytes).unwrap();
    assert_eq!(key.verify_token(&tampered, None).unwrap_err(), JWTError::AuthenticationFailure);
}

#[test]
fn audience_semantics() {
    let key = HS256Key::generate();
    let allowed = VerificationOptions {
        allowed_audiences: Some(strings(&["a"])),
        ..Default::default()
    };
    let empty = key.authenticate(create(600).with_audiences(Vec::new())).unwrap();
    assert_eq!(key.verify_token(&empty, Some(allowed.clone())).unwrap_err(), JWTError::InvalidAudience);
    let none = key.authenticate(create(600)).unwrap();
    assert_eq!(key.verify_token(&none, Some(allowed.clone())).unwrap_err(), JWTError::InvalidAudience);
    let both = key.authenticate(create(600).with_audiences(strings(&["a", "b"]))).unwrap();
    assert!(key.verify_token(&both, Some(allowed)).is_ok());
}

#[test]
fn oversized_header_is_rejected() {
    let long = "A".repeat(MAX_HEADER_LENGTH + 1);
    let token = format!("{}.e30.AQID", long);
    assert_eq!(
        Token::verify("HS256", &token, None, parse_header, hs256_verify, parse_claims, NOW).unwrap_err(),
        JWTError::HeaderTooLarge
    );
    assert_eq!(Token::decode_metadata(&token, parse_header).unwrap_err(), JWTError::HeaderTooLarge);
    assert_eq!(Token::decode_metadata(&long, parse_header).unwrap_err(), JWTError::HeaderTooLarge);
}

#[test]
fn nonce_mismatch() {
    let key = HS256Key::generate();
    let token = key.authenticate(create(600).with_nonce("N")).unwrap();
    let options = VerificationOptions {
        required_nonce: Some("M".to_string()),
        ..Default::default()
    };
    assert_eq!(key.verify_token(&token, Some(options)).unwrap_err(), JWTError::NonceMismatch);
    let missing = key.authenticate(create(600)).unwrap();
    let options = VerificationOptions {
        required_nonce: Some("M".to_string()),
        ..Default::default()
    };
    assert_eq!(key.verify_token(&missing, Some(options)).unwrap_err(), JWTError::NonceMismatch);
}

#[test]
fn segment_count_errors() {
    for token in ["", "abc", "a.b", "a.b.c.d"] {
        assert_eq!(
            Token::verify("HS256", token, None, parse_header, hs256_verify, parse_claims, NOW).unwrap_err(),
            JWTError::CompactEncodingError
        );
    }
}

#[test]
fn encoding_and_serialization_errors() {
    let bad_b64 = "e3!.e30.AQID";
    assert_eq!(
        Token::verify("HS256", bad_b64, None, parse_header, hs256_verify, parse_claims, NOW).unwrap_err(),
        JWTError::EncodingError
    );
    let not_json = format!("{}.e30.AQID", b64(b"not json"));
    assert_eq!(
        Token::verify("HS256", &not_json, None, parse_header, hs256_verify, parse_claims, NOW).unwrap_err(),
        JWTError::SerializationError
    );
    let bad_tag = format!("{}.e30.A", b64(b"{\"alg\":\"HS256\"}"));
    assert_eq!(
        Token::verify("HS256", &bad_tag, None, parse_header, hs256_verify, parse_claims, NOW).unwrap_err(),
        JWTError::EncodingError
    );
}

#[test]
fn signature_type_and_key_id_checks() {
    let key = HS256Key::generate();
    let mut header = JWTHeader::new("HS256".to_string(), None);
    header.signature_type = Some("JWS".to_string());
    let token = key.authenticate_with(&header, create(600)).unwrap();
    assert_eq!(key.verify_token(&token, None).unwrap_err(), JWTError::NotJWT);

    header.signature_type = Some("JWT".to_string());
    let token = key.authenticate_with(&header, create(600)).unwrap();
    let options = VerificationOptions {
        required_key_id: Some("k1".to_string()),
        ..Default::default()
    };
    assert_eq!(key.verify_token(&token, Some(options.clone())).unwrap_err(), JWTError::MissingJWTKeyIdentifier);

    let header = JWTHeader::new("HS256".to_string(), Some("k2".to_string()));
    let token = key.authenticate_with(&header, create(600)).unwrap();
    assert_eq!(key.verify_token(&token, Some(options)).unwrap_err(), JWTError::KeyIdentifierMismatch);

    let header = JWTHeader::new("HS256".to_string(), Some("k1".to_string()));
    let token = key.authenticate_with(&header, create(600)).unwrap();
    let options = VerificationOptions {
        required_key_id: Some("k1".to_string()),
        ..Default::default()
    };
    assert!(key.verify_token(&token, Some(options)).is_ok());
}

#[test]
fn time_checks() {
    let claims = create(600);
    let o = VerificationOptions::default();
    assert_eq!(claims.validate(&o, NOW + 600), Ok(()));
    assert_eq!(claims.validate(&o, NOW + 601), Err(JWTError::TokenHasExpired));
    assert_eq!(claims.validate(&o, NOW - 1), Err(JWTError::TokenNotValidYet));
    let tolerant = VerificationOptions { time_tolerance: Some(10), ..Default::default() };
    assert_eq!(claims.validate(&tolerant, NOW + 610), Ok(()));
    assert_eq!(claims.validate(&tolerant, NOW + 611), Err(JWTError::TokenHasExpired));
    assert_eq!(claims.validate(&tolerant, NOW - 10), Ok(()));
    let short = VerificationOptions { max_validity: Some(100), ..Default::default() };
    assert_eq!(claims.validate(&short, NOW + 101), Err(JWTError::TokenIsTooOld));
    let mut no_exp = create(600);
    no_exp.expires_at = None;
    let strict = VerificationOptions { require_expiration: true, ..Default::default() };
    assert_eq!(no_exp.validate(&strict, NOW), Err(JWTError::MissingRequiredExpiration));
}

#[test]
fn issuer_checks() {
    let o = VerificationOptions { allowed_issuers: Some(strings(&["a", "b"])), ..Default::default() };
    assert_eq!(create(600).validate(&o, NOW), Err(JWTError::InvalidIssuer));
    assert_eq!(create(600).with_issuer("c").validate(&o, NOW), Err(JWTError::InvalidIssuer));
    assert_eq!(create(600).with_issuer("A").validate(&o, NOW), Err(JWTError::InvalidIssuer));
    assert_eq!(create(600).with_issuer("b").validate(&o, NOW), Ok(()));
}

#[test]
fn bad_tag_is_authentication_failure() {
    let key = HS256Key::generate();
    let token = key.authenticate(create(600)).unwrap();
    let cut = token.rfind('.').unwrap();
    let forged = format!("{}.{}", &token[..cut], b64(&[0u8; 32]));
    assert_eq!(key.verify_token(&forged, None).unwrap_err(), JWTError::AuthenticationFailure);
}

#[test]
fn metadata_exposes_header_fields() {
    let mut header = JWTHeader::new("HS256".to_string(), Some("kid-1".to_string()));
    header.content_type = Some("JWT".to_string());
    header.critical = Some(strings(&["ext"]));
    header.certificate_chain = Some(strings(&["c1", "c2"]));
    header.key_set_url = Some("https://example.com/jwks".to_string());
    let token = HS256Key::generate().authenticate_with(&header, create(600)).unwrap();
    let m = Token::decode_metadata(&token, parse_header).unwrap();
    assert_eq!(m.algorithm(), "HS256");
    assert_eq!(m.key_id(), Some("kid-1"));
    assert_eq!(m.content_type(), Some("JWT"));
    assert_eq!(m.signature_type(), None);
    assert_eq!(m.critical(), Some(&strings(&["ext"])[..]));
    assert_eq!(m.certificate_chain().map(|c| c.len()), Some(2));
    assert_eq!(m.key_set_url(), Some("https://example.com/jwks"));
    assert_eq!(m.public_key(), None);
    assert_eq!(m.certificate_url(), None);
    assert_eq!(m.certificate_sha1_thumbprint(), None);
    assert_eq!(m.certificate_sha256_thumbprint(), None);
    assert_eq!(Token::decode_metadata("e3!", parse_header).unwrap_err(), JWTError::EncodingError);
}

#[test]
fn builder_setters() {
    let m = NewTokenMetadata::new("ES256".to_string(), Some("k".to_string()))
        .with_key_set_url("https://a/jwks")
        .with_public_key("pk")
        .with_certificate_url("https://a/cert");
    assert_eq!(m.jwt_header.algorithm, "ES256");
    assert_eq!(m.jwt_header.key_id.as_deref(), Some("k"));
    assert_eq!(m.jwt_header.key_set_url.as_deref(), Some("https://a/jwks"));
    assert_eq!(m.jwt_header.public_key.as_deref(), Some("pk"));
    assert_eq!(m.jwt_header.certificate_url.as_deref(), Some("https://a/cert"));
}

#[test]
fn thumbprint_normalization() {
    let digest: Vec<u8> = (0u8..20).collect();
    let hex: String = digest.iter().map(|b| format!("{:02x}", b)).collect();
    let from_hex = NewTokenMetadata::new("HS256".to_string(), None)
        .with_certificate_sha1_thumbprint(&hex)
        .unwrap();
    let from_b64 = NewTokenMetadata::new("HS256".to_string(), None)
        .with_certificate_sha1_thumbprint(&b64(&digest))
        .unwrap();
    assert_eq!(from_hex.jwt_header.certificate_sha1_thumbprint, Some(b64(&digest)));
    assert_eq!(header_json(&from_hex.jwt_header), header_json(&from_b64.jwt_header));
    assert_eq!(from_hex.jwt_header.certificate_sha1_thumbprint.as_deref(), Some("AAECAwQFBgcICQoLDA0ODxAREhM"));
}

#[test]
fn sha256_thumbprint_uses_its_own_field() {
    let digest = [7u8; 32];
    let hex: String = digest.iter().map(|b| format!("{:02x}", b)).collect();
    let m = NewTokenMetadata::new("HS256".to_string(), None)
        .with_certificate_sha256_thumbprint(&hex)
        .unwrap();
    assert_eq!(m.jwt_header.certificate_sha256_thumbprint, Some(b64(&digest)));
    assert_eq!(m.jwt_header.certificate_sha1_thumbprint, None);
}

#[test]
fn thumbprint_errors() {
    let base = NewTokenMetadata::new("HS256".to_string(), None);
    assert_eq!(
        base.clone().with_certificate_sha1_thumbprint(&b64(&[1u8; 19])).unwrap_err(),
        JWTError::InvalidCertThumbprint
    );
    assert_eq!(
        base.clone().with_certificate_sha1_thumbprint(&b64(&[1u8; 21])).unwrap_err(),
        JWTError::InvalidCertThumbprint
    );
    assert_eq!(
        base.clone().with_certificate_sha1_thumbprint(&"zz".repeat(20)).unwrap_err(),
        JWTError::EncodingError
    );
    assert_eq!(base.with_certificate_sha256_thumbprint("!!").unwrap_err(), JWTError::EncodingError);
}

#[test]
fn unknown_claims_fields_do_not_break_decoding() {
    let claims_text = format!(
        "{{\"iat\":{},\"exp\":{},\"iss\":\"issuer\",\"role\":\"admin\",\"extra\":[1,2]}}",
        NOW,
        NOW + 60
    );
    let token = Token::build(&header_json(&JWTHeader::new("HS256".to_string(), None)), claims_text.as_bytes(), hs256_sign)
        .unwrap();
    let decoded = HS256Key::generate().verify_token(&token, None).unwrap();
    assert_eq!(decoded.issued_at, Some(NOW));
    assert_eq!(decoded.expires_at, Some(NOW + 60));
    assert_eq!(decoded.issuer.as_deref(), Some("issuer"));
    assert!(decoded.audiences.is_none());
}
