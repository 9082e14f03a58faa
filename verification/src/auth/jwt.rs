//! Session tokens: signed claims that name an account and the moment the
//! token stops being valid.

use crate::auth::models::UserId;
use crate::clock::{is_clock_reading, unix_now, CLOCK_BOUND};
use crate::error::Error;
use jsonwebtoken::errors::Error as TokenError;
use jsonwebtoken::{decode, encode, Algorithm, DecodingKey, EncodingKey, Header, Validation};
use vstd::prelude::*;

verus! {

/// The lifetime of a token, in seconds: one hour.
pub const EXPIRATION: i64 = 3600;

/// What a token states.
#[derive(Debug, Clone, Copy, PartialEq, Eq, Structural)]
pub struct Claims {
    /// The account the token was issued to.
    pub uuid: UserId,
    /// Unix time, in seconds, of the last moment at which the token is valid.
    pub exp: u64,
}

/// The secret with which tokens are signed and checked.
pub struct SigningKey {
    secret: Vec<u8>,
}

impl View for SigningKey {
    type V = Seq<u8>;

    closed spec fn view(&self) -> Seq<u8> {
        self.secret@
    }
}

/// `jsonwebtoken::errors::Error`, the reason a token could not be made.
#[verifier::external_type_specification]
#[verifier::external_body]
pub struct ExTokenError(TokenError);

/// What `jsonwebtoken::decode` reads from a token under an HMAC secret, with
/// HS512 as the only accepted algorithm and the expiry left unchecked: the
/// account and the expiry that the claims hold, or `None` when the token is
/// malformed, is signed otherwise, or lacks one of the two claims.
pub uninterp spec fn jwt_decoded(token: Seq<char>, secret: Seq<u8>) -> Option<(u128, u64)>;

/// The characters a token is made of: those of URL-safe base64, and the dot
/// between its parts.
pub open spec fn is_token_char(c: char) -> bool {
    ||| 'a' <= c && c <= 'z'
    ||| 'A' <= c && c <= 'Z'
    ||| '0' <= c && c <= '9'
    ||| c == '-'
    ||| c == '_'
    ||| c == '.'
}

/// Whether `token` has the look of a token: not empty, and made of token
/// characters only.
pub open spec fn is_token_text(token: Seq<char>) -> bool {
    token.len() > 0 && forall|i: int| 0 <= i < token.len() ==> is_token_char(#[trigger] token[i])
}

/// `jsonwebtoken::encode` with an HS512 header, the claims `uuid` (in
/// hyphenated form) and `exp`, and `secret` as the HMAC key. With an HMAC key
/// and an HMAC algorithm no step of `encode` can fail. The token is three
/// parts in unpadded URL-safe base64, joined by dots. A token made this way
/// is one that `jsonwebtoken::decode` reads back under the same secret: the
/// check of an HMAC signature signs the message again and compares.
#[verifier::external_body]
fn encode_claims(subject: u128, exp: u64, secret: &[u8]) -> (encoded: Result<String, TokenError>)
    ensures
        encoded is Ok,
        encoded matches Ok(token) ==> is_token_text(token@),
        encoded matches Ok(token) ==> jwt_decoded(token@, secret@) == Some((subject, exp)),
{
    let mut claims = serde_json::Map::new();
    let id = uuid::Uuid::from_u128(subject).to_string();
    claims.insert("uuid".to_owned(), serde_json::Value::from(id));
    claims.insert("exp".to_owned(), serde_json::Value::from(exp));
    encode(&Header::new(Algorithm::HS512), &claims, &EncodingKey::from_secret(secret))
}

/// `jsonwebtoken::decode` under `secret`, accepting HS512 only and leaving the
/// expiry unchecked; the claims `uuid` and `exp` are handed out as numbers.
#[verifier::external_body]
fn decode_claims(token: &str, secret: &[u8]) -> (decoded: Option<(u128, u64)>)
    ensures
        decoded == jwt_decoded(token@, secret@),
{
    let mut validation = Validation::new(Algorithm::HS512);
    validation.validate_exp = false;
    let key = DecodingKey::from_secret(secret);
    let data = decode::<serde_json::Map<String, serde_json::Value>>(token, &key, &validation).ok()?;
    let subject = uuid::Uuid::parse_str(data.claims.get("uuid")?.as_str()?).ok()?;
    Some((subject.as_u128(), data.claims.get("exp")?.as_u64()?))
}

/// The claims that a decoded token holds.
pub open spec fn claims_of(decoded: Option<(u128, u64)>) -> Option<Claims> {
    match decoded {
        Some((subject, exp)) => Some(Claims { uuid: UserId { value: subject }, exp }),
        None => None,
    }
}

/// The account that `claims` vouch for at `now`: none once the expiry has passed.
pub open spec fn subject_at(claims: Option<Claims>, now: i64) -> Option<UserId> {
    match claims {
        Some(c) => if now > c.exp {
            None
        } else {
            Some(c.uuid)
        },
        None => None,
    }
}

/// The claims of a token issued to `uuid` at `now`, if the expiry can be
/// written down: it must not lie before the epoch.
pub open spec fn issued_claims(uuid: UserId, now: i64) -> Option<Claims> {
    if now + EXPIRATION >= 0 {
        Some(Claims { uuid, exp: (now + EXPIRATION) as u64 })
    } else {
        None
    }
}

impl SigningKey {
    /// The key made of the bytes of `secret`.
    pub fn from_secret(secret: &[u8]) -> (key: SigningKey)
        ensures
            key@ == secret@,
    {
        SigningKey { secret: vstd::slice::slice_to_vec(secret) }
    }
}

impl Claims {
    /// Whether the token is still valid at `now`.
    pub open spec fn valid_at(&self, now: i64) -> bool {
        now <= self.exp
    }

    /// The claims of a token issued to `uuid` at `now`.
    pub fn issued_at(uuid: UserId, now: i64) -> (claims: Option<Claims>)
        ensures
            claims == issued_claims(uuid, now),
    {
        if now >= 0 {
            Some(Claims { uuid, exp: now as u64 + EXPIRATION as u64 })
        } else if now + EXPIRATION >= 0 {
            Some(Claims { uuid, exp: (now + EXPIRATION) as u64 })
        } else {
            None
        }
    }

    /// Whether the token is still valid at `now`.
    pub fn is_valid_at(&self, now: i64) -> (valid: bool)
        ensures
            valid == self.valid_at(now),
    {
        now < 0 || now as u64 <= self.exp
    }
}

/// Issues a token to `uuid` at the moment `now`. The token is valid for one
/// hour; read back under the same key it names `uuid` until then. A token is
/// issued whenever its expiry can be written down.
pub fn create_jwt_at(uuid: UserId, key: &SigningKey, now: i64) -> (issued: Result<String, Error>)
    ensures
        match issued_claims(uuid, now) {
            Some(claims) => {
                &&& issued matches Ok(token)
                &&& is_token_text(token@)
                &&& claims_of(jwt_decoded(token@, key@)) == Some(claims)
            },
            None => issued == Err::<String, Error>(Error::JWTTokenCreation),
        },
{
    match Claims::issued_at(uuid, now) {
        None => Err(Error::JWTTokenCreation),
        Some(claims) => match encode_claims(claims.uuid.value, claims.exp, key.secret.as_slice()) {
            Ok(token) => Ok(token),
            Err(_) => Err(Error::JWTTokenCreation),
        },
    }
}

/// Whether `token` reads back, under `key`, as the claims issued to `uuid`
/// at some reading of the clock.
pub open spec fn freshly_issued(token: Seq<char>, key: Seq<u8>, uuid: UserId) -> bool {
    exists|now: i64|
        is_clock_reading(now) && issued_claims(uuid, now) is Some && claims_of(
            jwt_decoded(token, key),
        ) == #[trigger] issued_claims(uuid, now)
}

/// Issues a token to `uuid` by the clock's present reading. The clock never
/// reads before the epoch, so a token is always issued.
pub fn create_jwt(uuid: UserId, key: &SigningKey) -> (issued: Result<String, Error>)
    ensures
        issued matches Ok(token) && is_token_text(token@) && freshly_issued(token@, key@, uuid),
{
    create_jwt_at(uuid, key, unix_now())
}

/// Reads the claims of a token signed with `key`, whatever its expiry.
pub fn decode_jwt(token: &str, key: &SigningKey) -> (claims: Option<Claims>)
    ensures
        claims == claims_of(jwt_decoded(token@, key@)),
{
    match decode_claims(token, key.secret.as_slice()) {
        Some((subject, exp)) => Some(Claims { uuid: UserId { value: subject }, exp }),
        None => None,
    }
}

/// The account that `claims` vouch for at `now`.
pub fn authorized_subject(claims: Option<Claims>, now: i64) -> (subject: Option<UserId>)
    ensures
        subject == subject_at(claims, now),
{
    match claims {
        Some(c) => if c.is_valid_at(now) {
            Some(c.uuid)
        } else {
            None
        },
        None => None,
    }
}

/// The account that `token` vouches for at `now`: none when the token is
/// malformed, signed with another key, or expired.
pub fn verify_jwt_at(token: &str, key: &SigningKey, now: i64) -> (subject: Option<UserId>)
    ensures
        subject == subject_at(claims_of(jwt_decoded(token@, key@)), now),
{
    authorized_subject(decode_jwt(token, key), now)
}

/// The account that `token` vouches for by the clock's present reading.
pub fn verify_jwt(token: &str, key: &SigningKey) -> (subject: Option<UserId>)
    ensures
        vouched_by_clock(claims_of(jwt_decoded(token@, key@)), subject),
        match claims_of(jwt_decoded(token@, key@)) {
            Some(claims) => {
                &&& subject is Some ==> subject == Some(claims.uuid)
                &&& claims.exp >= CLOCK_BOUND ==> subject == Some(claims.uuid)
            },
            None => subject is None,
        },
{
    verify_jwt_at(token, key, unix_now())
}

/// Whether `subject` is the account that `claims` vouch for at some reading
/// of the clock. Claims that are missing vouch for nobody; claims that outlast
/// every reading vouch for their account.
pub open spec fn vouched_by_clock(claims: Option<Claims>, subject: Option<UserId>) -> bool {
    exists|now: i64| is_clock_reading(now) && subject == #[trigger] subject_at(claims, now)
}

/// A token issued to an account reads back, under the key that signed it,
/// as that account's until one hour after the moment of issue, and as
/// nobody's from then on.
pub proof fn law_token_lifetime(
    token: Seq<char>,
    key: Seq<u8>,
    uuid: UserId,
    issued: i64,
    now: i64,
)
    requires
        issued_claims(uuid, issued) is Some,
        claims_of(jwt_decoded(token, key)) == issued_claims(uuid, issued),
    ensures
        now <= issued + EXPIRATION ==> subject_at(claims_of(jwt_decoded(token, key)), now) == Some(
            uuid,
        ),
        now > issued + EXPIRATION ==> subject_at(claims_of(jwt_decoded(token, key)), now) is None,
{
}

} // verus!
