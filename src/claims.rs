use vstd::prelude::*;

use crate::error::JWTError;

verus! {

/// The audiences of a token: a set of names, or a single name.
#[derive(Debug, Clone)]
pub enum Audiences {
    AsSet(Vec<String>),
    AsString(String),
}

impl Audiences {
    /// The audience names, in the order they are held.
    pub open spec fn values(&self) -> Seq<Seq<char>> {
        match self {
            Audiences::AsSet(v) => v.deep_view(),
            Audiences::AsString(s) => seq![s@],
        }
    }

    /// Whether at least one of these audiences is among `allowed`.
    pub fn contains(&self, allowed: &Vec<String>) -> (r: bool)
        ensures
            r == intersects(self.values(), allowed.deep_view()),
    {
        match self {
            Audiences::AsSet(v) => {
                let mut i: usize = 0;
                while i < v.len()
                    invariant
                        0 <= i <= v.len(),
                        v.deep_view().len() == v.len(),
                        self.values() == v.deep_view(),
                        forall|k: int| 0 <= k < i ==> !allowed.deep_view().contains(#[trigger] v.deep_view()[k]),
                    decreases v.len() - i,
                {
                    if contains_name(allowed, &v[i]) {
                        assert(v.deep_view()[i as int] == v[i as int]@);
                        assert(allowed.deep_view().contains(self.values()[i as int]));
                        return true;
                    }
                    i = i + 1;
                }
                assert(!intersects(self.values(), allowed.deep_view()));
                false
            },
            Audiences::AsString(s) => {
                let r = contains_name(allowed, s);
                assert(self.values()[0] == s@);
                r
            },
        }
    }
}

/// Some name of `names` is among `allowed`.
pub open spec fn intersects(names: Seq<Seq<char>>, allowed: Seq<Seq<char>>) -> bool {
    exists|i: int| 0 <= i < names.len() && allowed.contains(#[trigger] names[i])
}

/// Whether `name` is among `names`, comparing exactly.
pub fn contains_name(names: &Vec<String>, name: &String) -> (r: bool)
    ensures
        r == names.deep_view().contains(name@),
{
    let mut i: usize = 0;
    while i < names.len()
        invariant
            0 <= i <= names.len(),
            forall|k: int| 0 <= k < i ==> names.deep_view()[k] != name@,
        decreases names.len() - i,
    {
        if names[i] == *name {
            assert(names.deep_view()[i as int] == name@);
            return true;
        }
        i = i + 1;
    }
    false
}

/// The claims of a token: standard time and identity claims, and a caller-defined payload.
/// Times are whole seconds since the Unix epoch.
#[derive(Debug, Clone)]
pub struct JWTClaims<CustomClaims> {
    pub issued_at: Option<u64>,
    pub expires_at: Option<u64>,
    pub invalid_before: Option<u64>,
    pub issuer: Option<String>,
    pub subject: Option<String>,
    pub audiences: Option<Audiences>,
    pub jwt_id: Option<String>,
    pub nonce: Option<String>,
    pub custom: CustomClaims,
}

/// The payload of a token that carries only standard claims.
#[derive(Debug, Clone, Copy, PartialEq, Eq, Structural)]
pub struct NoCustomClaims {}

/// The constraints a token's claims must meet. An absent constraint is not enforced.
#[derive(Debug, Clone)]
pub struct VerificationOptions {
    /// The key identifier the header must carry.
    pub required_key_id: Option<String>,
    /// The issuers accepted.
    pub allowed_issuers: Option<Vec<String>>,
    /// The audiences accepted: the token must name at least one.
    pub allowed_audiences: Option<Vec<String>>,
    /// The nonce the token must carry.
    pub required_nonce: Option<String>,
    /// The clock skew tolerated on time checks, in seconds; none when absent.
    pub time_tolerance: Option<u64>,
    /// The longest time since issuance accepted, in seconds.
    pub max_validity: Option<u64>,
    /// Whether a token without an expiration is rejected.
    pub require_expiration: bool,
}

impl Default for VerificationOptions {
    fn default() -> (r: Self)
        ensures
            r.required_key_id is None,
            r.allowed_issuers is None,
            r.allowed_audiences is None,
            r.required_nonce is None,
            r.time_tolerance is None,
            r.max_validity is None,
            !r.require_expiration,
    {
        VerificationOptions {
            required_key_id: None,
            allowed_issuers: None,
            allowed_audiences: None,
            required_nonce: None,
            time_tolerance: None,
            max_validity: None,
            require_expiration: false,
        }
    }
}

/// The clock tolerance in force.
pub open spec fn tolerance(o: VerificationOptions) -> nat {
    match o.time_tolerance {
        Some(t) => t as nat,
        None => 0,
    }
}

/// The first time constraint that the claims break at time `now`, if any.
pub open spec fn time_error<C>(c: JWTClaims<C>, o: VerificationOptions, now: nat) -> Option<
    JWTError,
> {
    let tol = tolerance(o);
    if c.issued_at is Some && o.max_validity is Some && now > c.issued_at->0
        + o.max_validity->0 {
        Some(JWTError::TokenIsTooOld)
    } else if c.expires_at is Some && now > c.expires_at->0 + tol {
        Some(JWTError::TokenHasExpired)
    } else if c.expires_at is None && o.require_expiration {
        Some(JWTError::MissingRequiredExpiration)
    } else if c.invalid_before is Some && now + tol < c.invalid_before->0 {
        Some(JWTError::TokenNotValidYet)
    } else {
        None
    }
}

/// The issuer is accepted: no issuer is required, or it is present and allowed.
pub open spec fn issuer_ok<C>(c: JWTClaims<C>, o: VerificationOptions) -> bool {
    match o.allowed_issuers {
        None => true,
        Some(allowed) => c.issuer matches Some(i) && allowed.deep_view().contains(i@),
    }
}

/// The audience is accepted: none is required, or the token names an allowed one.
pub open spec fn audience_ok<C>(c: JWTClaims<C>, o: VerificationOptions) -> bool {
    match o.allowed_audiences {
        None => true,
        Some(allowed) => c.audiences matches Some(a) && intersects(a.values(), allowed.deep_view()),
    }
}

/// The nonce is accepted: none is required, or it is present and equal.
pub open spec fn nonce_ok<C>(c: JWTClaims<C>, o: VerificationOptions) -> bool {
    match o.required_nonce {
        None => true,
        Some(m) => c.nonce matches Some(n) && n@ == m@,
    }
}

/// The first constraint of `o` that the claims break at time `now`, if any.
pub open spec fn claims_error<C>(c: JWTClaims<C>, o: VerificationOptions, now: nat) -> Option<
    JWTError,
> {
    if time_error(c, o, now) is Some {
        time_error(c, o, now)
    } else if !issuer_ok(c, o) {
        Some(JWTError::InvalidIssuer)
    } else if !audience_ok(c, o) {
        Some(JWTError::InvalidAudience)
    } else if !nonce_ok(c, o) {
        Some(JWTError::NonceMismatch)
    } else {
        None
    }
}

impl<CustomClaims> JWTClaims<CustomClaims> {
    /// Claims issued at `now`, valid from then on for `valid_for` seconds.
    pub fn create(custom: CustomClaims, now: u64, valid_for: u64) -> (r: Self)
        requires
            now + valid_for <= u64::MAX,
        ensures
            r.issued_at == Some(now),
            r.invalid_before == Some(now),
            r.expires_at == Some((now + valid_for) as u64),
            r.issuer is None,
            r.subject is None,
            r.audiences is None,
            r.jwt_id is None,
            r.nonce is None,
            r.custom == custom,
    {
        JWTClaims {
            issued_at: Some(now),
            expires_at: Some(now + valid_for),
            invalid_before: Some(now),
            issuer: None,
            subject: None,
            audiences: None,
            jwt_id: None,
            nonce: None,
            custom,
        }
    }

    /// Sets the issuer.
    pub fn with_issuer(self, issuer: &str) -> (r: Self)
        ensures
            r.issuer matches Some(i) && i@ == issuer@,
            r == (JWTClaims { issuer: r.issuer, ..self }),
    {
        let mut this = self;
        this.issuer = Some(issuer.to_string());
        this
    }

    /// Sets the subject.
    pub fn with_subject(self, subject: &str) -> (r: Self)
        ensures
            r.subject matches Some(s) && s@ == subject@,
            r == (JWTClaims { subject: r.subject, ..self }),
    {
        let mut this = self;
        this.subject = Some(subject.to_string());
        this
    }

    /// Sets a single audience.
    pub fn with_audience(self, audience: &str) -> (r: Self)
        ensures
            r.audiences matches Some(Audiences::AsString(a)) && a@ == audience@,
            r == (JWTClaims { audiences: r.audiences, ..self }),
    {
        let mut this = self;
        this.audiences = Some(Audiences::AsString(audience.to_string()));
        this
    }

    /// Sets a set of audiences, possibly empty.
    pub fn with_audiences(self, audiences: Vec<String>) -> (r: Self)
        ensures
            r.audiences == Some(Audiences::AsSet(audiences)),
            r == (JWTClaims { audiences: r.audiences, ..self }),
    {
        let mut this = self;
        this.audiences = Some(Audiences::AsSet(audiences));
        this
    }

    /// Sets the token identifier.
    pub fn with_jwt_id(self, jwt_id: &str) -> (r: Self)
        ensures
            r.jwt_id matches Some(j) && j@ == jwt_id@,
            r == (JWTClaims { jwt_id: r.jwt_id, ..self }),
    {
        let mut this = self;
        this.jwt_id = Some(jwt_id.to_string());
        this
    }

    /// Sets the nonce, to be matched against the verifier's required nonce.
    pub fn with_nonce(self, nonce: &str) -> (r: Self)
        ensures
            r.nonce matches Some(n) && n@ == nonce@,
            r == (JWTClaims { nonce: r.nonce, ..self }),
    {
        let mut this = self;
        this.nonce = Some(nonce.to_string());
        this
    }

    /// Checks the claims against `options` at time `now`, reporting the first constraint that
    /// they break.
    pub fn validate(&self, options: &VerificationOptions, now: u64) -> (r: Result<(), JWTError>)
        ensures
            match claims_error(*self, *options, now as nat) {
                None => r is Ok,
                Some(e) => r == Err::<(), JWTError>(e),
            },
    {
        let tol: u64 = match options.time_tolerance {
            Some(t) => t,
            None => 0,
        };
        if let Some(issued_at) = self.issued_at {
            if let Some(max_validity) = options.max_validity {
                if now > issued_at && now - issued_at > max_validity {
                    return Err(JWTError::TokenIsTooOld);
                }
            }
        }
        match self.expires_at {
            Some(expires_at) => {
                if now >= tol && now - tol > expires_at {
                    return Err(JWTError::TokenHasExpired);
                }
            },
            None => {
                if options.require_expiration {
                    return Err(JWTError::MissingRequiredExpiration);
                }
            },
        }
        if let Some(invalid_before) = self.invalid_before {
            if invalid_before > tol && now < invalid_before - tol {
                return Err(JWTError::TokenNotValidYet);
            }
        }
        if let Some(allowed_issuers) = &options.allowed_issuers {
            match &self.issuer {
                Some(issuer) => {
                    if !contains_name(allowed_issuers, issuer) {
                        return Err(JWTError::InvalidIssuer);
                    }
                },
                None => {
                    return Err(JWTError::InvalidIssuer);
                },
            }
        }
        if let Some(allowed_audiences) = &options.allowed_audiences {
            match &self.audiences {
                Some(audiences) => {
                    if !audiences.contains(allowed_audiences) {
                        return Err(JWTError::InvalidAudience);
                    }
                },
                None => {
                    return Err(JWTError::InvalidAudience);
                },
            }
        }
        if let Some(required_nonce) = &options.required_nonce {
            match &self.nonce {
                Some(nonce) => {
                    if !(*nonce == *required_nonce) {
                        return Err(JWTError::NonceMismatch);
                    }
                },
                None => {
                    return Err(JWTError::NonceMismatch);
                },
            }
        }
        Ok(())
    }
}

/// A nonce that differs from the required one is reported as such when every other
/// constraint is met.
pub proof fn lemma_nonce_mismatch<C>(c: JWTClaims<C>, o: VerificationOptions, now: nat)
    requires
        time_error(c, o, now) is None,
        issuer_ok(c, o),
        audience_ok(c, o),
        c.nonce is Some,
        o.required_nonce is Some,
        c.nonce->0@ != o.required_nonce->0@,
    ensures
        claims_error(c, o, now) == Some(JWTError::NonceMismatch),
{
}

/// An explicitly empty audience set never meets a constraint on audiences, while a set that
/// names an allowed audience always does.
pub proof fn lemma_audience_semantics<C>(c: JWTClaims<C>, o: VerificationOptions)
    requires
        o.allowed_audiences is Some,
    ensures
        c.audiences matches Some(a) && a.values().len() == 0 ==> !audience_ok(c, o),
        c.audiences matches Some(a) && (exists|i: int|
            0 <= i < a.values().len() && o.allowed_audiences->0.deep_view().contains(
                #[trigger] a.values()[i],
            )) ==> audience_ok(c, o),
{
}

} // verus!
