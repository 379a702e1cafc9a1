use vstd::prelude::*;
use crate::clock::{now_timestamp, MAX_TIMESTAMP};
use crate::errors::{HttpError, STATUS_FORBIDDEN};
use crate::permissions::{has_permission, spec_has_permission};
use crate::user::User;

verus! {

/// The longest time-to-live a token may be issued for, in minutes: the
/// largest value whose expiry timestamp still fits in `u64` beside a
/// clamped issue time, `(u64::MAX - MAX_TIMESTAMP) / 60`.
pub const MAX_TTL_MINUTES: i64 = 307445734020097860;

/// The signed payload of an identity token: the subject, when it was
/// issued and when it expires (unix timestamps in seconds). Validity is
/// purely a function of the signature and the expiry at verification
/// time; there is no revocation, so a stolen unexpired token stays valid
/// for its full lifetime.
#[derive(Debug)]
pub struct Claims {
    pub user_id: String,
    pub exp: u64,
    pub iat: u64,
}

/// The serialized identity token that signing `(user_id, iat, exp)` with
/// `secret` produces: a function of the secret and the claims alone.
pub uninterp spec fn jwt_token(secret: Seq<u8>, user_id: Seq<char>, iat: u64, exp: u64) -> Seq<
    char,
>;

/// The claims a signature check of `token` under `secret` yields: `None`
/// when the token is not correctly signed for the secret or its payload
/// does not have the expected shape. A function of the two arguments
/// alone.
pub uninterp spec fn jwt_payload(secret: Seq<u8>, token: Seq<char>) -> Option<
    (Seq<char>, u64, u64),
>;

/// Relies on jsonwebtoken::encode with HS256: the token it returns is a
/// deterministic function of the secret and the claims, and decoding it
/// again with the same secret (jsonwebtoken::decode) yields the claims
/// that were encoded. Signing itself cannot fail: HMAC-SHA256 accepts
/// any key and message, and serializing the payload map cannot error,
/// so encode always returns a token.
#[verifier::external_body]
fn encode_jwt(secret: &[u8], user_id: &String, iat: u64, exp: u64) -> (r: Option<String>)
    ensures
        r is Some,
        r matches Some(t) ==> t@ == jwt_token(secret@, user_id@, iat, exp) && t@.len() > 0
            && jwt_payload(secret@, t@) == Some((user_id@, iat, exp)),
{
    let mut payload = serde_json::Map::new();
    payload.insert("user_id".to_string(), serde_json::Value::from(user_id.clone()));
    payload.insert("iat".to_string(), serde_json::Value::from(iat));
    payload.insert("exp".to_string(), serde_json::Value::from(exp));
    let header = jsonwebtoken::Header::new(jsonwebtoken::Algorithm::HS256);
    let key = jsonwebtoken::EncodingKey::from_secret(secret);
    jsonwebtoken::encode(&header, &serde_json::Value::Object(payload), &key).ok()
}

/// Relies on jsonwebtoken::decode with HS256 and expiry validation
/// turned off: the signature check is a deterministic function of token
/// and secret. Expiry is checked by the verified caller, so that a
/// forged token and an expired one can be told apart internally while
/// callers surface one uniform message.
#[verifier::external_body]
fn decode_jwt_signed(token: &str, secret: &[u8]) -> (r: Option<Claims>)
    ensures
        r matches Some(c) ==> jwt_payload(secret@, token@) == Some((c.user_id@, c.iat, c.exp)),
        r is None ==> jwt_payload(secret@, token@) is None,
{
    let key = jsonwebtoken::DecodingKey::from_secret(secret);
    let mut validation = jsonwebtoken::Validation::new(jsonwebtoken::Algorithm::HS256);
    validation.validate_exp = false;
    validation.required_spec_claims = std::collections::HashSet::new();
    let data = jsonwebtoken::decode::<serde_json::Value>(token, &key, &validation).ok()?;
    let user_id = data.claims.get("user_id").and_then(|v| v.as_str())?.to_owned();
    let iat = data.claims.get("iat").and_then(|v| v.as_u64())?;
    let exp = data.claims.get("exp").and_then(|v| v.as_u64())?;
    Some(Claims { user_id, exp, iat })
}

/// Why verifying a token failed. Callers collapse both variants into one
/// uniform unauthorized message, so the distinction never leaks.
#[derive(Debug)]
pub enum TokenError {
    Invalid,
    Expired,
}

/// What verifying `token` under `secret` at clock value `now` must
/// yield: the signed claims while `exp > now`, `Expired` once the expiry
/// has passed, and `Invalid` for anything that is not correctly signed.
pub open spec fn spec_token_outcome(secret: Seq<u8>, token: Seq<char>, now: u64) -> Result<
    (Seq<char>, u64, u64),
    TokenError,
> {
    match jwt_payload(secret, token) {
        Option::None => Err(TokenError::Invalid),
        Option::Some(p) => if p.2 > now {
            Ok(p)
        } else {
            Err(TokenError::Expired)
        },
    }
}

impl Claims {
    /// Builds the claims for a fresh token: issued at the current clock
    /// reading, expiring `expiration_minutes` later.
    pub fn new(user_id: String, expiration_minutes: i64) -> (r: Claims)
        requires
            0 < expiration_minutes <= MAX_TTL_MINUTES,
        ensures
            r.user_id == user_id,
            r.iat <= MAX_TIMESTAMP,
            r.exp == r.iat + 60 * expiration_minutes,
            r.exp > r.iat,
    {
        let iat = now_timestamp();
        let exp = iat + 60 * (expiration_minutes as u64);
        Claims { user_id, exp, iat }
    }
}

/// Signs `claims` with `secret`, producing the serialized token.
/// Signing never fails, so the token is always owed.
pub fn generate_jwt(claims: &Claims, secret: &[u8]) -> (r: Result<String, HttpError>)
    ensures
        r is Ok,
        r matches Ok(t) ==> t@ == jwt_token(secret@, claims.user_id@, claims.iat, claims.exp)
            && t@.len() > 0 && jwt_payload(secret@, t@) == Some(
            (claims.user_id@, claims.iat, claims.exp),
        ),
{
    match encode_jwt(secret, &claims.user_id, claims.iat, claims.exp) {
        Some(t) => Ok(t),
        None => Err(HttpError::internal_server_error()),
    }
}

/// Verifies a token: signature integrity first, then expiry against
/// `now`. The result is exactly `spec_token_outcome`.
pub fn decode_jwt(token: &str, secret: &[u8], now: u64) -> (r: Result<Claims, TokenError>)
    ensures
        r matches Ok(c) ==> spec_token_outcome(secret@, token@, now) == Ok::<_, TokenError>(
            (c.user_id@, c.iat, c.exp),
        ),
        r matches Err(e) ==> spec_token_outcome(secret@, token@, now) == Err::<
            (Seq<char>, u64, u64),
            TokenError,
        >(e),
{
    let claims = match decode_jwt_signed(token, secret) {
        Some(c) => c,
        None => {
            return Err(TokenError::Invalid);
        },
    };
    if claims.exp > now {
        Ok(claims)
    } else {
        Err(TokenError::Expired)
    }
}

/// Freshness law of the token codec: a signed token whose claims carry
/// expiry `exp` verifies under its secret exactly while `now < exp`, and
/// is rejected as expired from `exp` on.
pub proof fn lemma_issue_then_verify(
    secret: Seq<u8>,
    token: Seq<char>,
    user_id: Seq<char>,
    iat: u64,
    exp: u64,
    now: u64,
)
    requires
        jwt_payload(secret, token) == Some((user_id, iat, exp)),
    ensures
        now < exp ==> spec_token_outcome(secret, token, now) == Ok::<_, TokenError>(
            (user_id, iat, exp),
        ),
        now >= exp ==> spec_token_outcome(secret, token, now) == Err::<
            (Seq<char>, u64, u64),
            TokenError,
        >(TokenError::Expired),
{
}

/// A request-scoped identity: verified claims together with the loaded,
/// status-checked user record they resolve to. Produced only by the
/// identity resolver; never cached across requests.
#[derive(Debug)]
pub struct Identity {
    pub claims: Claims,
    pub user: User,
}

impl Identity {
    pub fn new(claims: Claims, user: User) -> (r: Identity)
        ensures
            r.claims == claims,
            r.user == user,
    {
        Identity { claims, user }
    }

    pub fn get_user(&self) -> (r: &User)
        ensures
            r == self.user,
    {
        &self.user
    }

    /// The single permission gate: grants access iff the resolved user's
    /// bits contain every required bit or the admin bit. The failure
    /// reveals nothing beyond "insufficient permissions".
    pub fn require_permission(&self, perm: i64) -> (r: Result<bool, HttpError>)
        ensures
            r matches Ok(b) ==> b && spec_has_permission(self.user.permissions, perm),
            r matches Err(e) ==> !spec_has_permission(self.user.permissions, perm) && e.is(
                STATUS_FORBIDDEN,
                "client"@,
                "Permisos de usuario insuficientes"@,
            ),
            r is Ok <==> spec_has_permission(self.user.permissions, perm),
    {
        let has_perms = has_permission(self.user.permissions, perm);
        if !has_perms {
            return Err(HttpError::forbbiden("Permisos de usuario insuficientes"));
        }
        Ok(has_perms)
    }
}

} // verus!
