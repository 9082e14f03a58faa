use codefest_auth::auth::header::{authorize, authorize_at, jwt_from_header, BEARER};
use codefest_auth::auth::jwt::{create_jwt, create_jwt_at, SigningKey};
use codefest_auth::auth::models::UserId;
use codefest_auth::error::Error;

const SUBJECT: UserId = UserId { value: 42 };

fn key() -> SigningKey {
    SigningKey::from_secret(b"a secret of the server")
}

#[test]
fn missing_header_is_no_header() {
    assert_eq!(jwt_from_header(None), Err(Error::NoAuthHeader));
}

#[test]
fn unreadable_header_is_no_header() {
    assert_eq!(jwt_from_header(Some(&[0xff, 0xfe])), Err(Error::NoAuthHeader));
    assert_eq!(jwt_from_header(Some(b"Bearer \xc3")), Err(Error::NoAuthHeader));
}

#[test]
fn header_without_the_announcement_is_invalid() {
    assert_eq!(BEARER, "Bearer ");
    assert_eq!(jwt_from_header(Some(b"")), Err(Error::InvalidAuthHeader));
    assert_eq!(jwt_from_header(Some(b"Basic abc")), Err(Error::InvalidAuthHeader));
    assert_eq!(jwt_from_header(Some(b"bearer abc")), Err(Error::InvalidAuthHeader));
    assert_eq!(jwt_from_header(Some(b"Bearer")), Err(Error::InvalidAuthHeader));
    assert_eq!(jwt_from_header(Some(b" Bearer abc")), Err(Error::InvalidAuthHeader));
}

#[test]
fn token_is_what_follows_the_announcement() {
    assert_eq!(jwt_from_header(Some(b"Bearer abc.def.ghi")), Ok("abc.def.ghi".to_string()));
    assert_eq!(jwt_from_header(Some(b"Bearer ")), Ok(String::new()));
    assert_eq!(jwt_from_header(Some(b"Bearer  abc")), Ok(" abc".to_string()));
    assert_eq!(jwt_from_header(Some("Bearer zażółć".as_bytes())), Ok("zażółć".to_string()));
}

#[test]
fn repeated_announcements_are_all_dropped() {
    assert_eq!(jwt_from_header(Some(b"Bearer Bearer abc")), Ok("abc".to_string()));
    assert_eq!(jwt_from_header(Some(b"Bearer Bearer Bearer ")), Ok(String::new()));
    assert_eq!(jwt_from_header(Some(b"Bearer Bearerabc")), Ok("Bearerabc".to_string()));
}

#[test]
fn header_with_a_valid_token_vouches_for_its_subject() {
    let token = create_jwt_at(SUBJECT, &key(), 1_700_000_000).unwrap();
    let header = format!("Bearer {token}");
    assert_eq!(authorize_at(Some(header.as_bytes()), &key(), 1_700_000_100), Some(SUBJECT));
    assert_eq!(authorize_at(Some(header.as_bytes()), &key(), 1_700_003_601), None);
    assert_eq!(authorize_at(Some(token.as_bytes()), &key(), 1_700_000_100), None);
    assert_eq!(authorize_at(None, &key(), 1_700_000_100), None);
    let other = SigningKey::from_secret(b"another secret");
    assert_eq!(authorize_at(Some(header.as_bytes()), &other, 1_700_000_100), None);
}

#[test]
fn header_is_judged_by_the_clock() {
    let token = create_jwt(SUBJECT, &key()).unwrap();
    let header = format!("Bearer {token}");
    assert_eq!(authorize(Some(header.as_bytes()), &key()), Some(SUBJECT));
    assert_eq!(authorize(Some(b"Bearer garbage"), &key()), None);
    assert_eq!(authorize(Some(b"garbage"), &key()), None);
    assert_eq!(authorize(None, &key()), None);
}

#[test]
fn announced_token_is_carried_whole() {
    let token = create_jwt_at(SUBJECT, &key(), 1_700_000_000).unwrap();
    let header = format!("Bearer {token}");
    assert_eq!(jwt_from_header(Some(header.as_bytes())), Ok(token));
}
