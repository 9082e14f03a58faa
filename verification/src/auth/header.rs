//! The `Authorization` header: taking the bearer token out of it, and asking
//! the token which account it vouches for.

use crate::auth::jwt::{
    claims_of, is_token_char, is_token_text, issued_claims, jwt_decoded, subject_at, verify_jwt,
    verify_jwt_at, SigningKey, EXPIRATION,
};
use crate::auth::models::UserId;
use crate::error::Error;
use crate::text::{chars_of, has_prefix, has_prefix_at, string_of_range, without_leading};
use vstd::prelude::*;
use vstd::string::StringSliceAdditionalSpecFns;
use vstd::utf8::{
    decode_utf8, encode_utf8, encode_utf8_decode_utf8, encode_utf8_valid_utf8, valid_utf8,
};

verus! {

/// What precedes the token in the header's value.
pub const BEARER: &'static str = "Bearer ";

/// `std::str::from_utf8`: the bytes read as a string, when they are valid
/// UTF-8, and nothing otherwise.
#[verifier::external_body]
fn utf8_text(bytes: &[u8]) -> (text: Option<&str>)
    ensures
        text is Some <==> valid_utf8(bytes@),
        text matches Some(s) ==> s.spec_bytes() == bytes@,
{
    std::str::from_utf8(bytes).ok()
}

/// The token that a header value carries. A missing or unreadable value is no
/// header at all; a value that does not announce a bearer token is invalid.
/// Every leading repetition of the announcement is dropped.
pub open spec fn bearer_token(header: Option<Seq<u8>>) -> Result<Seq<char>, Error> {
    match header {
        None => Err(Error::NoAuthHeader),
        Some(bytes) => if !valid_utf8(bytes) {
            Err(Error::NoAuthHeader)
        } else if !has_prefix(decode_utf8(bytes), BEARER@) {
            Err(Error::InvalidAuthHeader)
        } else {
            Ok(without_leading(decode_utf8(bytes), BEARER@))
        },
    }
}

/// The bytes of an optional header value.
pub open spec fn bytes_of(header: Option<&[u8]>) -> Option<Seq<u8>> {
    match header {
        Some(bytes) => Some(bytes@),
        None => None,
    }
}

/// The account that a header vouches for at `now` under `key`: none unless it
/// carries a bearer token that is well signed and not expired.
pub open spec fn authorized(header: Option<Seq<u8>>, key: Seq<u8>, now: i64) -> Option<UserId> {
    match bearer_token(header) {
        Ok(token) => subject_at(claims_of(jwt_decoded(token, key)), now),
        Err(_) => None,
    }
}

/// Takes the bearer token out of the value of the `Authorization` header.
pub fn jwt_from_header(header: Option<&[u8]>) -> (token: Result<String, Error>)
    ensures
        match bearer_token(bytes_of(header)) {
            Ok(expected) => token matches Ok(t) && t@ == expected,
            Err(error) => token == Err::<String, Error>(error),
        },
{
    let bytes = match header {
        Some(bytes) => bytes,
        None => return Err(Error::NoAuthHeader),
    };
    let auth_header = match utf8_text(bytes) {
        Some(text) => text,
        None => return Err(Error::NoAuthHeader),
    };
    proof {
        encode_utf8_decode_utf8(auth_header@);
        reveal_strlit("Bearer ");
    }
    let chars = chars_of(auth_header);
    let bearer = chars_of(BEARER);
    if !has_prefix_at(&chars, 0, &bearer) {
        assert(chars@.skip(0) == chars@);
        return Err(Error::InvalidAuthHeader);
    }
    let mut at: usize = 0;
    assert(chars@.skip(0) == chars@);
    while has_prefix_at(&chars, at, &bearer)
        invariant
            at <= chars.len(),
            bearer@ == BEARER@,
            bearer@.len() == 7,
            without_leading(chars@, BEARER@) == without_leading(chars@.skip(at as int), BEARER@),
        decreases chars.len() - at,
    {
        assert(chars@.skip(at as int).skip(7) == chars@.skip(at as int + 7));
        at += bearer.len();
    }
    Ok(string_of_range(&chars, at, chars.len()))
}

/// The account that the header vouches for at `now`.
pub fn authorize_at(header: Option<&[u8]>, key: &SigningKey, now: i64) -> (subject: Option<UserId>)
    ensures
        subject == authorized(bytes_of(header), key@, now),
{
    match jwt_from_header(header) {
        Ok(jwt) => verify_jwt_at(jwt.as_str(), key, now),
        Err(_) => None,
    }
}

/// The account that the header vouches for by the clock's present reading.
/// Whatever the clock says, a header without a well-signed bearer token
/// vouches for nobody, and an account is only ever the one its token names.
pub fn authorize(header: Option<&[u8]>, key: &SigningKey) -> (subject: Option<UserId>)
    ensures
        authorized_by_clock(bytes_of(header), key@, subject),
        match bearer_token(bytes_of(header)) {
            Ok(token) => match claims_of(jwt_decoded(token, key@)) {
                Some(claims) => {
                    &&& subject is Some ==> subject == Some(claims.uuid)
                    &&& claims.exp >= crate::clock::CLOCK_BOUND ==> subject == Some(claims.uuid)
                },
                None => subject is None,
            },
            Err(_) => subject is None,
        },
{
    match jwt_from_header(header) {
        Ok(jwt) => {
            let subject = verify_jwt(jwt.as_str(), key);
            proof {
                let claims = claims_of(jwt_decoded(jwt@, key@));
                let now = choose|now: i64|
                    crate::clock::is_clock_reading(now) && subject == subject_at(claims, now);
                assert(authorized(bytes_of(header), key@, now) == subject);
            }
            subject
        },
        Err(_) => {
            assert(authorized(bytes_of(header), key@, 0) is None);
            None
        },
    }
}

/// Whether `subject` is the account that a header vouches for under `key` at
/// some reading of the clock.
pub open spec fn authorized_by_clock(
    header: Option<Seq<u8>>,
    key: Seq<u8>,
    subject: Option<UserId>,
) -> bool {
    exists|now: i64|
        crate::clock::is_clock_reading(now) && subject == #[trigger] authorized(header, key, now)
}

/// The bytes of the header value that announces `token`.
pub open spec fn bearer_header(token: Seq<char>) -> Seq<u8> {
    encode_utf8(BEARER@ + token)
}

/// The header that announces an issued token carries that token, and vouches
/// for the token's account under the key that signed it until one hour after
/// the moment of issue, and for nobody from then on.
pub proof fn law_issued_token_authorizes(
    token: Seq<char>,
    key: Seq<u8>,
    uuid: UserId,
    issued: i64,
    now: i64,
)
    requires
        is_token_text(token),
        issued_claims(uuid, issued) is Some,
        claims_of(jwt_decoded(token, key)) == issued_claims(uuid, issued),
    ensures
        bearer_token(Some(bearer_header(token))) == Ok::<Seq<char>, Error>(token),
        now <= issued + EXPIRATION ==> authorized(Some(bearer_header(token)), key, now) == Some(
            uuid,
        ),
        now > issued + EXPIRATION ==> authorized(Some(bearer_header(token)), key, now) is None,
{
    reveal_strlit("Bearer ");
    let text = BEARER@ + token;
    encode_utf8_valid_utf8(text);
    encode_utf8_decode_utf8(text);
    assert(text.take(7) == BEARER@);
    assert(text.skip(7) == token);
    assert(!has_prefix(token, BEARER@)) by {
        if has_prefix(token, BEARER@) {
            assert(token.take(7)[6] == ' ');
            assert(is_token_char(token[6]));
        }
    }
    assert(without_leading(token, BEARER@) == token);
    assert(without_leading(text, BEARER@) == token);
}

} // verus!
