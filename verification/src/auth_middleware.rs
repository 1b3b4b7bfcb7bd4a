//! The auth gate: extracts the bearer credential from the authorization
//! header, validates the signed token, and hands the verified identity
//! claims back to the caller. Validity is signature plus expiry alone; the
//! validation time is passed in explicitly.

use vstd::prelude::*;
use crate::errors::ServiceError;

verus! {

/// The verified identity payload derived from a validated token.
#[derive(Debug, Clone)]
pub struct Claims {
    pub user_id: String,
    pub username: String,
    pub exp: u64,
    pub iat: u64,
}

/// Why a token was refused: its signature or shape did not check out, or its
/// expiry lay at or before the validation time.
#[derive(Clone, Copy, Debug, PartialEq, Eq, Structural)]
pub enum InvalidTokenError {
    NotVerified,
    Expired,
}

// Names the claims that jsonwebtoken::decode recovers from `token` under
// `secret` — user id, username, expiry, issued-at — and None where the
// signature, the token's shape, or the claim types do not check out. The
// outcome depends on the token and the secret alone.
pub uninterp spec fn decoded_claims(token: Seq<char>, secret: Seq<char>) -> Option<
    (Seq<char>, Seq<char>, u64, u64),
>;

/// Relies on jsonwebtoken::decode (HS256): verifies the token's signature
/// under `secret` and recovers the claims it carries; checking expiry is
/// left to the caller.
#[verifier::external_body]
fn decode_token(token: &str, secret: &str) -> (r: Option<Claims>)
    ensures
        r matches Some(c) ==> decoded_claims(token@, secret@) == Some(
            (c.user_id@, c.username@, c.exp, c.iat),
        ),
        r is None ==> decoded_claims(token@, secret@) is None,
{
    let mut validation = jsonwebtoken::Validation::new(jsonwebtoken::Algorithm::HS256);
    validation.validate_exp = false;
    let key = jsonwebtoken::DecodingKey::from_secret(secret.as_bytes());
    let c = jsonwebtoken::decode::<serde_json::Value>(token, &key, &validation).ok()?.claims;
    Some(Claims {
        user_id: c.get("user_id")?.as_str()?.to_string(),
        username: c.get("username")?.as_str()?.to_string(),
        exp: c.get("exp")?.as_u64()?,
        iat: c.get("iat")?.as_u64()?,
    })
}

/// A token is valid at time `now` when its claims decode under `secret` and
/// its expiry lies strictly after `now`.
pub open spec fn token_valid_at(token: Seq<char>, secret: Seq<char>, now: u64) -> bool {
    decoded_claims(token, secret) matches Some(c) && now < c.2
}

/// A token carries the given claims under a secret: decoding recovers
/// exactly them.
pub open spec fn token_carries(
    token: Seq<char>,
    secret: Seq<char>,
    user_id: Seq<char>,
    username: Seq<char>,
    iat: u64,
    exp: u64,
) -> bool {
    decoded_claims(token, secret) == Some((user_id, username, exp, iat))
}

/// Validates a signed token at time `now`: the claims it carries, or why it
/// was refused. No revocation; validity is purely signature plus expiry.
pub fn validate_token(token: &str, now: u64, secret: &str) -> (r: Result<
    Claims,
    InvalidTokenError,
>)
    ensures
        r is Ok <==> token_valid_at(token@, secret@, now),
        r matches Ok(c) ==> decoded_claims(token@, secret@) == Some(
            (c.user_id@, c.username@, c.exp, c.iat),
        ) && now < c.exp,
        r matches Err(e) ==> (match decoded_claims(token@, secret@) {
            Option::Some(c) => e == InvalidTokenError::Expired && now >= c.2,
            Option::None => e == InvalidTokenError::NotVerified,
        }),
{
    match decode_token(token, secret) {
        Option::None => Err(InvalidTokenError::NotVerified),
        Option::Some(c) => {
            if now < c.exp {
                Ok(c)
            } else {
                Err(InvalidTokenError::Expired)
            }
        },
    }
}

/// `s` begins with the bearer scheme.
pub open spec fn has_bearer_prefix(s: Seq<char>) -> bool {
    s.len() >= 7 && s.subrange(0, 7) == "Bearer "@
}

/// The credential that follows the bearer scheme.
pub open spec fn bearer_token_of(s: Seq<char>) -> Seq<char> {
    s.subrange(7, s.len() as int)
}

fn strip_bearer<'a>(header: &'a str) -> (r: Option<&'a str>)
    ensures
        r is Some <==> has_bearer_prefix(header@),
        r matches Some(t) ==> t@ == bearer_token_of(header@),
{
    proof {
        reveal_strlit("Bearer ");
    }
    let len = header.unicode_len();
    if len < 7 {
        return None;
    }
    let pat = "Bearer ";
    let mut i: usize = 0;
    while i < 7
        invariant
            i <= 7,
            len == header@.len(),
            len >= 7,
            pat@ == "Bearer "@,
            pat@.len() == 7,
            forall|j: int| 0 <= j < i ==> header@[j] == "Bearer "@[j],
        decreases 7 - i,
    {
        if header.get_char(i) != pat.get_char(i) {
            proof {
                assert(header@.subrange(0, 7)[i as int] != "Bearer "@[i as int]);
            }
            return None;
        }
        i = i + 1;
    }
    proof {
        assert(header@.subrange(0, 7) =~= "Bearer "@);
    }
    let rest = header.substring_char(7, len);
    Some(rest)
}

/// The auth gate for a protected route: `auth_header` is the request's
/// authorization header, if any. Absent header, a header without the bearer
/// scheme, and a token that does not validate at `now` are each refused;
/// otherwise the verified claims come back for the caller to pass on.
pub fn auth_middleware(auth_header: Option<&str>, now: u64, secret: &str) -> (r: Result<
    Claims,
    ServiceError,
>)
    ensures
        match auth_header {
            Option::None => r == Err::<Claims, ServiceError>(ServiceError::MissingAuthHeader),
            Option::Some(h) => if !has_bearer_prefix(h@) {
                r == Err::<Claims, ServiceError>(ServiceError::MalformedAuthHeader)
            } else {
                &&& (r is Ok <==> token_valid_at(bearer_token_of(h@), secret@, now))
                &&& (r matches Ok(c) ==> decoded_claims(bearer_token_of(h@), secret@) == Some(
                    (c.user_id@, c.username@, c.exp, c.iat),
                ))
                &&& (r is Err ==> r == Err::<Claims, ServiceError>(ServiceError::InvalidToken))
            },
        },
{
    match auth_header {
        Option::None => Err(ServiceError::MissingAuthHeader),
        Option::Some(h) => {
            match strip_bearer(h) {
                Option::None => Err(ServiceError::MalformedAuthHeader),
                Option::Some(token) => {
                    match validate_token(token, now, secret) {
                        Ok(c) => Ok(c),
                        Err(_) => Err(ServiceError::InvalidToken),
                    }
                },
            }
        },
    }
}

/// Law: a token that carries given claims validates at any time strictly
/// before its expiry, and validation hands back exactly the claims carried
/// (see `validate_token`'s contract).
pub proof fn lemma_token_validates_before_expiry(
    token: Seq<char>,
    secret: Seq<char>,
    user_id: Seq<char>,
    username: Seq<char>,
    iat: u64,
    exp: u64,
    now: u64,
)
    requires
        token_carries(token, secret, user_id, username, iat, exp),
        now < exp,
    ensures
        token_valid_at(token, secret, now),
{
}

/// Law: a token issued at `iat` with the fixed 24-hour validity window is
/// refused at every validation time more than 24 hours after issuance.
pub proof fn lemma_token_expired_after_window(
    token: Seq<char>,
    secret: Seq<char>,
    user_id: Seq<char>,
    username: Seq<char>,
    iat: u64,
    now: u64,
)
    requires
        iat + 86400 <= u64::MAX,
        token_carries(token, secret, user_id, username, iat, (iat + 86400) as u64),
        now > iat + 86400,
    ensures
        !token_valid_at(token, secret, now),
{
}

} // verus!
