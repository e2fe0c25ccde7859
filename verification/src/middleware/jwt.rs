//! Token authentication: claim assembly, token generation and verification,
//! and extraction of a bearer token from an authorization header.

use vstd::prelude::*;

use crate::config::JwtConfig;
use crate::error::{Error, MiddlewareError};
use crate::ext::str_eq;

verus! {

/// The claims carried by a token.
#[derive(Debug, Clone)]
pub struct Claims {
    /// Subject: the user the token was issued for.
    pub sub: String,
    /// Expiration time, in seconds since the epoch.
    pub exp: u64,
    /// Issue time, in seconds since the epoch.
    pub iat: u64,
    /// Audience.
    pub aud: String,
    /// Issuer.
    pub iss: String,
}

/// Token-authentication state: the shared secret and the token lifetime.
#[derive(Debug, Clone)]
pub struct JwtAuth {
    pub secret: String,
    pub expires_in: u64,
}

/// What `jsonwebtoken::encode` returns for these claims under this secret;
/// the token is a pure function of them.
pub uninterp spec fn token_of(
    sub: Seq<char>,
    exp: nat,
    iat: nat,
    aud: Seq<char>,
    iss: Seq<char>,
    secret: Seq<char>,
) -> Seq<char>;

/// Relies on chrono::Utc::now().timestamp(): seconds since the epoch. The
/// answer depends on the wall clock, so nothing is promised of it.
#[verifier::external_body]
fn now_timestamp() -> i64 {
    chrono::Utc::now().timestamp()
}

/// Relies on jsonwebtoken::encode under the default HS256 header: the token
/// is a pure function of the claims and the secret.
#[verifier::external_body]
fn encode_claims(sub: &str, exp: u64, iat: u64, aud: &str, iss: &str, secret: &str) -> (r: Result<
    String,
    String,
>)
    ensures
        r matches Ok(t) ==> t@ == token_of(sub@, exp as nat, iat as nat, aud@, iss@, secret@),
{
    let mut m = serde_json::Map::new();
    m.insert("sub".to_owned(), serde_json::Value::String(sub.to_owned()));
    m.insert("exp".to_owned(), serde_json::Value::from(exp));
    m.insert("iat".to_owned(), serde_json::Value::from(iat));
    m.insert("aud".to_owned(), serde_json::Value::String(aud.to_owned()));
    m.insert("iss".to_owned(), serde_json::Value::String(iss.to_owned()));
    jsonwebtoken::encode(
        &jsonwebtoken::Header::default(),
        &serde_json::Value::Object(m),
        &jsonwebtoken::EncodingKey::from_secret(secret.as_bytes()),
    ).map_err(|e| e.to_string())
}

/// The claim fields of a token that the outside check accepts: whether the
/// check accepts depends on the clock, but given acceptance the payload
/// depends on the token alone.
pub uninterp spec fn decoded_claims_of(token: Seq<char>) -> (
    Option<Seq<char>>,
    Option<u64>,
    Option<u64>,
    Option<Seq<char>>,
    Option<Seq<char>>,
);

/// Whether an optional string carries exactly this optional text.
pub open spec fn opt_str_matches(a: Option<String>, b: Option<Seq<char>>) -> bool {
    match (a, b) {
        (Some(s), Some(v)) => s@ == v,
        (None, None) => true,
        _ => false,
    }
}

/// The decoded payload carries every claim this library issues, with its own
/// audience and issuer.
pub open spec fn claims_well_formed(
    d: (Option<Seq<char>>, Option<u64>, Option<u64>, Option<Seq<char>>, Option<Seq<char>>),
) -> bool {
    &&& d.0 is Some
    &&& d.1 is Some
    &&& d.2 is Some
    &&& d.3 matches Some(a) && a == "hwhkit"@
    &&& d.4 matches Some(i) && i == "hwhkit"@
}

/// Relies on jsonwebtoken::decode with default validation narrowed to the
/// given audience and issuer, and on serde_json's field accessors to hand the
/// claims out as plain values (subject, expiry, issue time, audience,
/// issuer). Whether validation accepts consults the clock, so nothing is
/// promised of that; the payload of an accepted token is its own.
#[verifier::external_body]
fn decode_claims(token: &str, aud: &str, iss: &str, secret: &str) -> (r: Result<
    (Option<String>, Option<u64>, Option<u64>, Option<String>, Option<String>),
    String,
>)
    ensures
        r matches Ok(f) ==> opt_str_matches(f.0, decoded_claims_of(token@).0) && f.1
            == decoded_claims_of(token@).1 && f.2 == decoded_claims_of(token@).2
            && opt_str_matches(f.3, decoded_claims_of(token@).3) && opt_str_matches(
            f.4,
            decoded_claims_of(token@).4,
        ),
{
    let mut val = jsonwebtoken::Validation::default();
    val.set_audience(&[aud]);
    val.set_issuer(&[iss]);
    let key = jsonwebtoken::DecodingKey::from_secret(secret.as_bytes());
    let v = jsonwebtoken::decode::<serde_json::Value>(token, &key, &val)
        .map_err(|e| e.to_string())?.claims;
    let s = |k: &str| v.get(k).and_then(|x| x.as_str()).map(|x| x.to_owned());
    let n = |k: &str| v.get(k).and_then(|x| x.as_u64());
    Ok((s("sub"), n("exp"), n("iat"), s("aud"), s("iss")))
}

/// Whether the sequence starts with the bearer marker `"Bearer "`.
pub open spec fn starts_with_bearer(s: Seq<char>) -> bool {
    s.len() >= 7 && s.subrange(0, 7) == "Bearer "@
}

/// The header value with every leading `"Bearer "` marker removed, as
/// `str::trim_start_matches` leaves it.
pub open spec fn strip_bearer(s: Seq<char>) -> Seq<char>
    decreases s.len(),
{
    if starts_with_bearer(s) {
        strip_bearer(s.skip(7))
    } else {
        s
    }
}

/// Decides the issue and expiry times from the clock's answer: a clock
/// before the epoch and an expiry beyond the integer range are the only
/// failures, both internal errors; otherwise the issue time is the clock
/// value and the expiry is the issue time plus the lifetime.
pub fn claim_times(now: i64, expires_in: u64) -> (r: Result<(u64, u64), Error>)
    ensures
        match r {
            Ok(p) => now >= 0 && p.0 == now as u64 && now + expires_in <= u64::MAX && p.1 == p.0
                + expires_in,
            Err(e) => e is Internal && (now < 0 || now + expires_in > u64::MAX),
        },
{
    if now < 0 {
        return Err(Error::Internal(String::from_str("system clock is before the epoch")));
    }
    let iat = now as u64;
    match iat.checked_add(expires_in) {
        Some(exp) => Ok((iat, exp)),
        None => Err(Error::Internal(String::from_str("token expiry overflows"))),
    }
}

impl JwtAuth {
    /// Authentication state taken from the configuration section.
    pub fn new(config: &JwtConfig) -> (r: Self)
        ensures
            r.secret == config.secret,
            r.expires_in == config.expires_in,
    {
        JwtAuth { secret: config.secret.clone(), expires_in: config.expires_in }
    }

    /// Issues a token for a user: the claims carry the subject, the library's
    /// audience and issuer, the current time and the configured lifetime.
    pub fn generate_token(&self, user_id: &str) -> (r: Result<String, Error>)
        ensures
            r matches Ok(t) ==> exists|iat: nat, exp: nat|
                exp == iat + self.expires_in && t@ == #[trigger] token_of(
                    user_id@,
                    exp,
                    iat,
                    "hwhkit"@,
                    "hwhkit"@,
                    self.secret@,
                ),
            r is Err ==> (r->Err_0 is Jwt || r->Err_0 is Internal),
    {
        let now = now_timestamp();
        let (iat, exp) = match claim_times(now, self.expires_in) {
            Ok(p) => p,
            Err(e) => {
                return Err(e);
            },
        };
        match encode_claims(user_id, exp, iat, "hwhkit", "hwhkit", self.secret.as_str()) {
            Ok(t) => {
                proof {
                    assert(t@ == token_of(
                        user_id@,
                        ((iat as nat) + self.expires_in) as nat,
                        iat as nat,
                        "hwhkit"@,
                        "hwhkit"@,
                        self.secret@,
                    ));
                }
                Ok(t)
            },
            Err(m) => Err(Error::Jwt(m)),
        }
    }

    /// Verifies a token and returns its claims. Whether the outside check
    /// accepts the token depends on the clock; the claims of an accepted
    /// token are its own payload, re-checked here, so a successful result
    /// carries exactly that payload under this library's audience and issuer,
    /// and an internal error means the payload is not one this library
    /// issues.
    pub fn verify_token(&self, token: &str) -> (r: Result<Claims, Error>)
        ensures
            r matches Ok(c) ==> c.aud@ == "hwhkit"@ && c.iss@ == "hwhkit"@,
            r is Err ==> (r->Err_0 is Jwt || r->Err_0 is Internal),
            match r {
                Ok(c) => claims_well_formed(decoded_claims_of(token@)) && decoded_claims_of(
                    token@,
                ).0 == Some(c.sub@) && decoded_claims_of(token@).1 == Some(c.exp)
                    && decoded_claims_of(token@).2 == Some(c.iat),
                Err(Error::Internal(_)) => !claims_well_formed(decoded_claims_of(token@)),
                _ => true,
            },
    {
        let fields = match decode_claims(token, "hwhkit", "hwhkit", self.secret.as_str()) {
            Ok(f) => f,
            Err(m) => {
                return Err(Error::Jwt(m));
            },
        };
        let (sub_o, exp_o, iat_o, aud_o, iss_o) = fields;
        let sub = match sub_o {
            Some(s) => s,
            None => {
                return Err(Error::Internal(String::from_str("token claims lack a subject")));
            },
        };
        let exp = match exp_o {
            Some(e) => e,
            None => {
                return Err(Error::Internal(String::from_str("token claims lack an expiry")));
            },
        };
        let iat = match iat_o {
            Some(e) => e,
            None => {
                return Err(Error::Internal(String::from_str("token claims lack an issue time")));
            },
        };
        let aud = match aud_o {
            Some(s) => s,
            None => {
                return Err(Error::Internal(String::from_str("token claims lack an audience")));
            },
        };
        let iss = match iss_o {
            Some(s) => s,
            None => {
                return Err(Error::Internal(String::from_str("token claims lack an issuer")));
            },
        };
        if !str_eq(aud.as_str(), "hwhkit") || !str_eq(iss.as_str(), "hwhkit") {
            return Err(Error::Internal(String::from_str("token claims name a foreign audience")));
        }
        Ok(Claims { sub, exp, iat, aud, iss })
    }

    /// Picks the bearer token out of an authorization header value, if one
    /// was given and is in bearer form.
    pub fn extract_token_from_header(&self, auth_header: Option<&str>) -> (r: Result<String, Error>)
        ensures
            match auth_header {
                Option::None => r == Result::<String, Error>::Err(
                    Error::Middleware(MiddlewareError::MissingAuthorization),
                ),
                Option::Some(h) => if starts_with_bearer(h@) {
                    r matches Ok(t) && t@ == strip_bearer(h@)
                } else {
                    r == Result::<String, Error>::Err(
                        Error::Middleware(MiddlewareError::InvalidAuthorizationFormat),
                    )
                },
            },
    {
        let h = match auth_header {
            Some(h) => h,
            None => {
                return Err(Error::Middleware(MiddlewareError::MissingAuthorization));
            },
        };
        let n = h.unicode_len();
        if n < 7 || !str_eq(h.substring_char(0, 7), "Bearer ") {
            return Err(Error::Middleware(MiddlewareError::InvalidAuthorizationFormat));
        }
        let mut i: usize = 0;
        proof {
            assert(h@.skip(0) =~= h@);
        }
        while n - i >= 7 && str_eq(h.substring_char(i, i + 7), "Bearer ")
            invariant
                i <= n,
                n == h@.len(),
                strip_bearer(h@) == strip_bearer(h@.skip(i as int)),
            decreases n - i,
        {
            proof {
                let s = h@.skip(i as int);
                assert(s.subrange(0, 7) =~= h@.subrange(i as int, i as int + 7));
                assert(starts_with_bearer(s));
                assert(s.skip(7) =~= h@.skip(i as int + 7));
            }
            i += 7;
        }
        proof {
            let s = h@.skip(i as int);
            if s.len() >= 7 {
                assert(s.subrange(0, 7) =~= h@.subrange(i as int, i as int + 7));
            }
            assert(!starts_with_bearer(s));
        }
        let rest = h.substring_char(i, n);
        proof {
            assert(rest@ =~= h@.skip(i as int));
        }
        Ok(String::from_str(rest))
    }
}

} // verus!
