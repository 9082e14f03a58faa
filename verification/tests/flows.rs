use codefest_auth::auth::api::{
    auth_otp_handler, check_otp, info, login_credentials, login_query, prelogin, prelogin_query,
    register, register_collision_checked, register_persisted, AbortKind, Login, NewAccount,
    OtpCheck, OtpDelivery, Registration, StoreFailure, StoredCredentials, UserQuery, CAN_LOGIN,
    CANNOT_LOGIN, OTP_ABSENT, OTP_EXPIRED, OTP_MISMATCH, OTP_SENT, PERSIST_FAILED, REGISTERED,
    SERVER_PROBLEM, SESSION_FAILED, USER_EXISTS,
};
use codefest_auth::auth::jwt::{decode_jwt, verify_jwt, SigningKey};
use codefest_auth::auth::models::{AuthUser, User, UserId};
use codefest_auth::auth::otp::{Otp, OtpStore};
use codefest_auth::auth::password::password_verify;
use codefest_auth::auth::req::{
    InfoResponse, LoginCredentialsBody, LoginResponse, OTPRequest, OTPResponse, PreLoginBody,
    PreLoginResponse, RegisterRequest, RegisterResponse,
};
use codefest_auth::error::Error;
use codefest_auth::utils::{MailPolicy, MAIL_FOREIGN_DOMAIN, NAME_TOO_SHORT, PASSWORD_TOO_SHORT};

const FAR_FUTURE: i64 = 4_000_000_000;

fn school() -> MailPolicy {
    MailPolicy::of_domain("school.edu".to_string())
}

fn key() -> SigningKey {
    SigningKey::from_secret(b"a secret of the server")
}

fn request(name: &str, email: &str, password: &str, otp: &str) -> RegisterRequest {
    RegisterRequest {
        email: email.to_string(),
        otp: otp.to_string(),
        name: name.to_string(),
        password: password.to_string(),
    }
}

fn store_with(mail: &str, code: &str, expires_on: i64) -> OtpStore {
    let mut store = OtpStore::new();
    store.put(mail.to_string(), Otp { code: code.to_string(), expires_on });
    store
}

fn aborted(kind: AbortKind, message: &str) -> Registration {
    Registration::Aborted { kind, message: message.to_string() }
}

fn failure(message: &str) -> RegisterResponse {
    RegisterResponse { success: false, message: message.to_string(), name: None, token: None }
}

fn no_token() -> LoginResponse {
    LoginResponse { token: None, name: None, uuid: None }
}

fn check_collision() -> Registration {
    Registration::CheckCollision {
        name: "bob".to_string(),
        mail: "bob@school.edu".to_string(),
        password: "Passw0rd".to_string(),
    }
}

/// The accounts a test has written, standing in for the database.
fn find<'a>(accounts: &'a [NewAccount], login: &str) -> Option<StoredCredentials> {
    accounts
        .iter()
        .find(|a| a.user.name == login || a.auth_user.mail == login)
        .map(|a| StoredCredentials {
            password: a.auth_user.password.clone(),
            id: a.auth_user.id,
            name: a.user.name.clone(),
        })
}

#[test]
fn otp_request_stores_one_record_that_expires_in_eight_minutes() {
    let mut store = OtpStore::new();
    let before = chrono::Utc::now().timestamp();
    let (reply, delivery) = auth_otp_handler(
        OTPRequest { email: " A@School.edu ".to_string() },
        &mut store,
        &school(),
    );
    let after = chrono::Utc::now().timestamp();
    assert_eq!(reply, OTPResponse { message: OTP_SENT.to_string(), success: true });
    let delivery = delivery.unwrap();
    assert_eq!(delivery.mail, "a@school.edu");
    assert_eq!(delivery.code.len(), 6);
    assert!(delivery.code.chars().all(|c| c.is_ascii_digit()));
    assert_eq!(store.len(), 1);
    let record = store.get("a@school.edu").unwrap();
    assert_eq!(record.code, delivery.code);
    assert!(before + 480 <= record.expires_on && record.expires_on <= after + 480);
}

#[test]
fn second_otp_request_replaces_the_first() {
    let mut store = store_with("a@school.edu", "old000x", FAR_FUTURE);
    let (_, delivery) = auth_otp_handler(
        OTPRequest { email: "a@school.edu".to_string() },
        &mut store,
        &school(),
    );
    let delivery = delivery.unwrap();
    assert_eq!(store.len(), 1);
    assert_eq!(store.get("a@school.edu").unwrap().code, delivery.code);
    assert_ne!(delivery.code, "old000x");
    let (state, removal) = register(
        request("ann", "a@school.edu", "Passw0rd", "old000x"),
        &store,
        &school(),
    );
    assert_eq!(state, aborted(AbortKind::Rejected, OTP_MISMATCH));
    assert_eq!(removal, None);
    let (state, _) = register(
        request("ann", "a@school.edu", "Passw0rd", &delivery.code),
        &store,
        &school(),
    );
    assert!(matches!(state, Registration::CheckCollision { .. }));
}

#[test]
fn otp_request_for_a_foreign_address_leaves_the_store_alone() {
    let mut store = store_with("a@school.edu", "123456", FAR_FUTURE);
    let (reply, delivery) = auth_otp_handler(
        OTPRequest { email: "a@elsewhere.org".to_string() },
        &mut store,
        &school(),
    );
    assert_eq!(reply, OTPResponse { message: MAIL_FOREIGN_DOMAIN.to_string(), success: false });
    assert_eq!(delivery, None);
    assert_eq!(store.len(), 1);
    assert_eq!(store.get("a@elsewhere.org"), None);
}

#[test]
fn registration_then_login_yield_tokens_for_the_same_account() {
    let mut store = OtpStore::new();
    let mut accounts: Vec<NewAccount> = Vec::new();
    let (_, delivery) = auth_otp_handler(
        OTPRequest { email: "bob@school.edu".to_string() },
        &mut store,
        &school(),
    );
    let OtpDelivery { code, .. } = delivery.unwrap();

    let (state, removal) =
        register(request("bob", "bob@school.edu", "Passw0rd", &code), &store, &school());
    assert_eq!(state, check_collision());
    assert_eq!(removal, Some("bob@school.edu".to_string()));
    store.remove(&removal.unwrap());
    assert_eq!(store.len(), 0);

    let taken = find(&accounts, "bob").is_some() || find(&accounts, "bob@school.edu").is_some();
    let (state, account) = register_collision_checked(state, Ok(taken));
    let account = account.unwrap();
    let id = account.auth_user.id;
    assert_eq!(state, Registration::Persist { name: "bob".to_string(), id });
    assert_eq!(account.auth_user.mail, "bob@school.edu");
    assert_ne!(account.auth_user.password, "Passw0rd");
    assert_eq!(password_verify(&"Passw0rd".to_string(), &account.auth_user.password), Ok(true));
    assert_eq!(account.user.name, "bob");
    assert_eq!(account.user.display_name, "bob");
    assert_eq!(account.user.id, id);
    assert_eq!(account.user.bio, None);
    assert_eq!(account.user.flags, 0);
    assert_eq!(account.user.created_at, account.user.updated_at);
    accounts.push(account);

    let reply = register_persisted(state, Ok(()), &key()).response().unwrap().unwrap();
    assert!(reply.success);
    assert_eq!(reply.message, REGISTERED);
    assert_eq!(reply.name, Some("bob".to_string()));
    let token = reply.token.unwrap();
    assert!(!token.is_empty());
    assert_eq!(verify_jwt(&token, &key()), Some(id));

    let body = LoginCredentialsBody { login: " bob ".to_string(), password: "Passw0rd".to_string() };
    let login = login_query(&body);
    assert_eq!(login, "bob");
    let reply = login_credentials(body, Ok(find(&accounts, &login)), &key()).unwrap();
    assert_eq!(reply.name, Some("bob".to_string()));
    assert_eq!(reply.uuid, Some(id.to_text()));
    assert_eq!(verify_jwt(&reply.token.unwrap(), &key()), Some(id));
}

#[test]
fn registration_with_a_bad_password_touches_nothing() {
    let store = store_with("bob@school.edu", "123456", FAR_FUTURE);
    let (state, removal) =
        register(request("bob", "bob@school.edu", "short", "123456"), &store, &school());
    assert_eq!(state, aborted(AbortKind::Rejected, PASSWORD_TOO_SHORT));
    assert_eq!(removal, None);
    assert_eq!(store.len(), 1);
    assert_eq!(
        store.get("bob@school.edu"),
        Some(Otp { code: "123456".to_string(), expires_on: FAR_FUTURE })
    );
    let (after, account) = register_collision_checked(state.clone(), Ok(false));
    assert_eq!(after, state);
    assert_eq!(account, None);
    assert_eq!(register_persisted(state.clone(), Ok(()), &key()), state);
    assert_eq!(state.response(), Some(Ok(failure(PASSWORD_TOO_SHORT))));
}

#[test]
fn registration_reports_the_first_broken_rule() {
    let store = OtpStore::new();
    let (state, _) = register(request("b", "bob@elsewhere.org", "short", ""), &store, &school());
    assert_eq!(state, aborted(AbortKind::Rejected, NAME_TOO_SHORT));
    let (state, _) = register(request("bob", "bob@elsewhere.org", "short", ""), &store, &school());
    assert_eq!(state, aborted(AbortKind::Rejected, MAIL_FOREIGN_DOMAIN));
}

#[test]
fn registration_without_a_code_on_record_is_rejected() {
    let store = store_with("ann@school.edu", "123456", FAR_FUTURE);
    let (state, removal) =
        register(request("bob", "bob@school.edu", "Passw0rd", "123456"), &store, &school());
    assert_eq!(state, aborted(AbortKind::Rejected, OTP_ABSENT));
    assert_eq!(removal, None);
}

#[test]
fn registration_with_an_expired_code_is_rejected_and_asks_for_removal() {
    let store = store_with("bob@school.edu", "123456", 1000);
    let (state, removal) =
        register(request("bob", "bob@school.edu", "Passw0rd", "123456"), &store, &school());
    assert_eq!(state, aborted(AbortKind::Rejected, OTP_EXPIRED));
    assert_eq!(removal, Some("bob@school.edu".to_string()));
    assert_eq!(store.len(), 1);
}

#[test]
fn registration_with_a_wrong_code_leaves_the_code_for_a_retry() {
    let store = store_with("bob@school.edu", "123456", FAR_FUTURE);
    let (state, removal) =
        register(request("bob", "bob@school.edu", "Passw0rd", "654321"), &store, &school());
    assert_eq!(state, aborted(AbortKind::Rejected, OTP_MISMATCH));
    assert_eq!(removal, None);
    let (state, removal) =
        register(request("bob", "bob@school.edu", "Passw0rd", " 123456\n"), &store, &school());
    assert_eq!(state, check_collision());
    assert_eq!(removal, Some("bob@school.edu".to_string()));
}

#[test]
fn registration_looks_the_code_up_under_the_canonical_mail() {
    let store = store_with("bob@school.edu", "123456", FAR_FUTURE);
    let (state, _) =
        register(request(" BOB ", " Bob@School.EDU ", "Passw0rd", "123456"), &store, &school());
    assert_eq!(state, check_collision());
}

#[test]
fn submitted_code_is_judged_by_record_and_moment() {
    let on_record = Some(Otp { code: "123456".to_string(), expires_on: 1000 });
    assert_eq!(check_otp(&None, "123456", 0), OtpCheck::Absent);
    assert_eq!(check_otp(&on_record, "123456", 1000), OtpCheck::Accepted);
    assert_eq!(check_otp(&on_record, "  123456  ", 1000), OtpCheck::Accepted);
    assert_eq!(check_otp(&on_record, "123456", 1001), OtpCheck::Expired);
    assert_eq!(check_otp(&on_record, "000000", 1001), OtpCheck::Expired);
    assert_eq!(check_otp(&on_record, "000000", 1000), OtpCheck::Mismatch);
    assert_eq!(check_otp(&on_record, "", 1000), OtpCheck::Mismatch);
    assert_eq!(check_otp(&on_record, "12 3456", 1000), OtpCheck::Mismatch);
}

#[test]
fn taken_name_or_mail_is_a_conflict() {
    let (state, account) = register_collision_checked(check_collision(), Ok(true));
    assert_eq!(state, aborted(AbortKind::Conflict, USER_EXISTS));
    assert_eq!(account, None);
    assert_eq!(state.response(), Some(Ok(failure(USER_EXISTS))));
}

#[test]
fn failed_collision_query_is_a_server_problem() {
    let (state, account) = register_collision_checked(check_collision(), Err(StoreFailure));
    assert_eq!(state, aborted(AbortKind::ServerProblem, SERVER_PROBLEM));
    assert_eq!(account, None);
    assert_eq!(state.response(), Some(Err(Error::ServerProblem)));
}

#[test]
fn failed_write_is_a_server_problem() {
    let state = Registration::Persist { name: "bob".to_string(), id: UserId { value: 7 } };
    let state = register_persisted(state, Err(StoreFailure), &key());
    assert_eq!(state, aborted(AbortKind::ServerProblem, PERSIST_FAILED));
    assert_eq!(state.response(), Some(Err(Error::ServerProblem)));
}

#[test]
fn registration_steps_follow_one_another() {
    let id = UserId { value: 7 };
    let state = Registration::begin(request("Bob", "bob@school.edu", "Passw0rd", "123456"));
    let state = state.validate(&school());
    assert_eq!(
        state,
        Registration::CheckOtp {
            name: "bob".to_string(),
            mail: "bob@school.edu".to_string(),
            password: "Passw0rd".to_string(),
            otp: "123456".to_string(),
        }
    );
    let record = Some(Otp { code: "123456".to_string(), expires_on: 1000 });
    let (state, removal) = state.otp_checked(&record, 1000);
    assert_eq!(state, check_collision());
    assert_eq!(removal, Some("bob@school.edu".to_string()));
    let state = state.collision_checked(Ok(false));
    assert!(matches!(state, Registration::HashPassword { .. }));
    let (state, account) = state.password_hashed(Ok("the hash".to_string()), id, 1234);
    assert_eq!(state, Registration::Persist { name: "bob".to_string(), id });
    assert_eq!(
        account,
        Some(NewAccount {
            auth_user: AuthUser {
                id,
                mail: "bob@school.edu".to_string(),
                password: "the hash".to_string(),
            },
            user: User {
                name: "bob".to_string(),
                display_name: "bob".to_string(),
                id,
                bio: None,
                created_at: 1234,
                updated_at: 1234,
                flags: 0,
            },
        })
    );
    let state = state.persisted(Ok(()));
    assert_eq!(state, Registration::IssueToken { name: "bob".to_string(), id });
    assert_eq!(state.clone().response(), None);
    let state = state.token_issued(Ok("the token".to_string()));
    assert_eq!(
        state,
        Registration::Done { name: "bob".to_string(), token: "the token".to_string() }
    );
    assert_eq!(
        state.response(),
        Some(Ok(RegisterResponse {
            success: true,
            message: REGISTERED.to_string(),
            name: Some("bob".to_string()),
            token: Some("the token".to_string()),
        }))
    );
}

#[test]
fn registration_steps_abort_on_failures() {
    let id = UserId { value: 7 };
    let hashing = Registration::HashPassword {
        name: "bob".to_string(),
        mail: "bob@school.edu".to_string(),
        password: "Passw0rd".to_string(),
    };
    let (state, account) = hashing.password_hashed(Err(Error::ServerProblem), id, 0);
    assert_eq!(state, aborted(AbortKind::ServerProblem, SERVER_PROBLEM));
    assert_eq!(account, None);
    let issuing = Registration::IssueToken { name: "bob".to_string(), id };
    let state = issuing.token_issued(Err(Error::JWTTokenCreation));
    assert_eq!(state, aborted(AbortKind::ServerProblem, SESSION_FAILED));
    assert_eq!(state.response(), Some(Err(Error::ServerProblem)));
}

#[test]
fn registration_steps_ignore_events_out_of_turn() {
    let id = UserId { value: 7 };
    let state = check_collision();
    assert_eq!(state.clone().validate(&school()), state);
    assert_eq!(state.clone().otp_checked(&None, 0), (state.clone(), None));
    assert_eq!(state.clone().password_hashed(Ok("h".to_string()), id, 0), (state.clone(), None));
    assert_eq!(state.clone().persisted(Ok(())), state);
    assert_eq!(state.clone().token_issued(Ok("t".to_string())), state);
    assert_eq!(state.clone().response(), None);
    let done = Registration::Done { name: "bob".to_string(), token: "t".to_string() };
    assert_eq!(done.clone().collision_checked(Ok(true)), done);
    assert_eq!(register_persisted(state.clone(), Ok(()), &key()), state);
}

#[test]
fn unknown_login_and_wrong_password_get_the_same_reply() {
    let hash = codefest_auth::auth::password::password_hash(&"Passw0rd".to_string()).unwrap();
    let credentials =
        StoredCredentials { password: hash, id: UserId { value: 7 }, name: "bob".to_string() };
    let unknown = login_credentials(
        LoginCredentialsBody { login: "nobody".to_string(), password: "Passw0rd".to_string() },
        Ok(None),
        &key(),
    );
    let wrong = login_credentials(
        LoginCredentialsBody { login: "bob".to_string(), password: "passw0rd".to_string() },
        Ok(Some(credentials)),
        &key(),
    );
    assert_eq!(unknown, Ok(no_token()));
    assert_eq!(wrong, Ok(no_token()));
    assert_eq!(unknown, wrong);
}

#[test]
fn login_fails_when_the_server_cannot_decide() {
    let body = LoginCredentialsBody { login: "bob".to_string(), password: "Passw0rd".to_string() };
    assert_eq!(
        login_credentials(body.clone(), Err(StoreFailure), &key()),
        Err(Error::ServerProblem)
    );
    let broken = StoredCredentials {
        password: "not a hash".to_string(),
        id: UserId { value: 7 },
        name: "bob".to_string(),
    };
    assert_eq!(login_credentials(body, Ok(Some(broken)), &key()), Err(Error::ServerProblem));
}

#[test]
fn login_steps_follow_one_another() {
    let id = UserId { value: 0x67e55044_10b1_426f_9247_bb680e5fe0c8 };
    let credentials =
        StoredCredentials { password: "the hash".to_string(), id, name: "bob".to_string() };
    let body = LoginCredentialsBody { login: "\tBob ".to_string(), password: "pw".to_string() };
    let (state, login) = Login::begin(body);
    assert_eq!(login, "Bob");
    assert_eq!(state, Login::FetchCredentials { password: "pw".to_string() });
    assert_eq!(state.clone().response(), None);
    assert_eq!(state.clone().credentials_found(Ok(None)), Login::Refused);
    assert_eq!(state.clone().credentials_found(Err(StoreFailure)), Login::Failed);
    assert_eq!(state.clone().password_checked(Ok(true)), state);
    let state = state.credentials_found(Ok(Some(credentials.clone())));
    assert_eq!(
        state,
        Login::VerifyPassword { credentials: credentials.clone(), password: "pw".to_string() }
    );
    assert_eq!(state.clone().password_checked(Ok(false)), Login::Refused);
    assert_eq!(state.clone().password_checked(Err(Error::ServerProblem)), Login::Failed);
    let state = state.password_checked(Ok(true));
    assert_eq!(state, Login::IssueToken { credentials });
    assert_eq!(state.clone().token_issued(Err(Error::JWTTokenCreation)), Login::Failed);
    let state = state.token_issued(Ok("the token".to_string()));
    let granted = LoginResponse {
        token: Some("the token".to_string()),
        name: Some("bob".to_string()),
        uuid: Some("67e55044-10b1-426f-9247-bb680e5fe0c8".to_string()),
    };
    assert_eq!(state, Login::Granted { reply: granted.clone() });
    assert_eq!(state.response(), Some(Ok(granted)));
    assert_eq!(Login::Refused.response(), Some(Ok(no_token())));
    assert_eq!(Login::Failed.response(), Some(Err(Error::ServerProblem)));
    assert_eq!(LoginResponse::refusal(), no_token());
}

#[test]
fn login_token_names_the_account_and_lasts_an_hour() {
    let hash = "$2b$04$EGdrhbKUv8Oc9vGiXX0HQOxSg445d458Muh7DAHskb6QbtCvdxcie".to_string();
    let id = UserId { value: 99 };
    let credentials = StoredCredentials { password: hash, id, name: "bob".to_string() };
    let body = LoginCredentialsBody {
        login: "bob".to_string(),
        password: "correctbatteryhorsestapler".to_string(),
    };
    let before = chrono::Utc::now().timestamp();
    let reply = login_credentials(body, Ok(Some(credentials)), &key()).unwrap();
    let after = chrono::Utc::now().timestamp();
    let claims = decode_jwt(&reply.token.unwrap(), &key()).unwrap();
    assert_eq!(claims.uuid, id);
    assert!((before + 3600) as u64 <= claims.exp && claims.exp <= (after + 3600) as u64);
}

#[test]
fn prelogin_asks_for_name_or_mail_and_tells_only_whether_a_password_works() {
    let query = prelogin_query(&PreLoginBody { login: "  bob@school.edu ".to_string() });
    assert_eq!(
        query,
        UserQuery { name: "bob@school.edu".to_string(), mail: "bob@school.edu".to_string() }
    );
    assert_eq!(
        prelogin(Ok(true)),
        Ok(PreLoginResponse {
            can_login: true,
            message: CAN_LOGIN.to_string(),
            status: "200".to_string(),
        })
    );
    assert_eq!(
        prelogin(Ok(false)),
        Ok(PreLoginResponse {
            can_login: false,
            message: CANNOT_LOGIN.to_string(),
            status: "404".to_string(),
        })
    );
    assert_eq!(prelogin(Err(StoreFailure)), Err(Error::ServerProblem));
}

#[test]
fn info_tells_who_is_authorized() {
    let id = Some(UserId { value: 7 });
    assert_eq!(info(None, None), Ok(InfoResponse { authorized: false, name: None }));
    assert_eq!(
        info(None, Some(Ok("bob".to_string()))),
        Ok(InfoResponse { authorized: false, name: None })
    );
    assert_eq!(
        info(id, Some(Ok("bob".to_string()))),
        Ok(InfoResponse { authorized: true, name: Some("bob".to_string()) })
    );
    assert_eq!(info(id, Some(Err(StoreFailure))), Err(Error::ServerProblem));
    assert_eq!(info(id, None), Err(Error::ServerProblem));
}
