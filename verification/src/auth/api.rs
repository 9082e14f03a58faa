//! The flows of the authentication routes: asking for a passcode, registering
//! an account, logging in with a password, and the two small questions "can
//! this login use a password" and "who am I".
//!
//! A flow never talks to the database or the mail server itself. Where it
//! needs one of them it stops and says what it needs; the caller does the work
//! and hands the outcome to the next function of the flow.

use crate::auth::jwt::{create_jwt, freshly_issued, is_token_text, SigningKey};
use crate::auth::models::{hyphenated, is_version_4, AuthUser, User, UserId};
use crate::auth::otp::{is_code, lookup, Otp, OtpStore};
use crate::auth::password::{password_hash, password_verify, satisfies, verification};
use crate::auth::req::{
    InfoResponse, LoginCredentialsBody, LoginResponse, OTPRequest, OTPResponse, PreLoginBody,
    PreLoginResponse, RegisterRequest, RegisterResponse,
};
use crate::clock::{is_clock_reading, unix_now, CLOCK_BOUND};
use crate::error::Error;
use crate::text::{trim, trimmed};
use crate::utils::{
    canonical_mail, canonical_name, name_verdict, password_verdict, validate_mail, validate_name,
    validate_password, MailPolicy,
};
use vstd::prelude::*;

verus! {

/// The number of digits of a passcode.
pub const OTP_LENGTH: usize = 6;

/// The lifetime of a passcode, in seconds: eight minutes.
pub const OTP_TTL_SECONDS: u32 = 480;

pub const OTP_SENT: &'static str = "Pomyślnie wysłano kod jednorazowej autoryzacji";

pub const OTP_ABSENT: &'static str = "Nieprawidłowy kod OTP.";

pub const OTP_EXPIRED: &'static str = "Nieprawidłowy kod. Kod wygasł.";

pub const OTP_MISMATCH: &'static str = "Nieprawidłowy kod.";

pub const USER_EXISTS: &'static str = "Użytkownik już istnieje.";

pub const SERVER_PROBLEM: &'static str = "Wystąpił problem serwera.";

pub const PERSIST_FAILED: &'static str = "Nie udało się zarejestrować. Wystąpił problem serwera.";

pub const SESSION_FAILED: &'static str = "Serwer nie mógł stworzyć sesji.";

pub const REGISTERED: &'static str =
    "Pomyślnie zarejestrowano nowe konto i utworzono sesje autoryzacji.";

pub const CAN_LOGIN: &'static str = "Użytkownik może się zalogować za pomocą hasła.";

pub const CANNOT_LOGIN: &'static str = "Użytkownik jest niezarejestrowany.";

pub const STATUS_OK: &'static str = "200";

pub const STATUS_NOT_FOUND: &'static str = "404";

/// The database could not answer.
#[derive(Debug, Clone, Copy, PartialEq, Eq, Structural)]
pub struct StoreFailure;

/// The question whether an account exists under a name or a mail address.
#[derive(Debug, Clone, PartialEq, Eq)]
pub struct UserQuery {
    pub name: String,
    pub mail: String,
}

/// What the database holds for a login: the password hash, the account and its name.
#[derive(Debug, Clone, PartialEq, Eq)]
pub struct StoredCredentials {
    pub password: String,
    pub id: UserId,
    pub name: String,
}

/// A passcode to be sent to a mail address.
#[derive(Debug, Clone, PartialEq, Eq)]
pub struct OtpDelivery {
    pub mail: String,
    pub code: String,
}

/// The two records of a new account; they are to be written together or not at all.
#[derive(Debug, Clone, PartialEq, Eq)]
pub struct NewAccount {
    pub auth_user: AuthUser,
    pub user: User,
}

/// What became of a submitted passcode.
#[derive(Debug, Clone, Copy, PartialEq, Eq, Structural)]
pub enum OtpCheck {
    /// No code is on record for the address.
    Absent,
    /// The code on record is no longer valid.
    Expired,
    /// The code on record is another one.
    Mismatch,
    /// The code on record is valid and is the one submitted.
    Accepted,
}

/// Why a registration ended without an account.
#[derive(Debug, Clone, Copy, PartialEq, Eq, Structural)]
pub enum AbortKind {
    /// The member can correct the input and try again.
    Rejected,
    /// The name or the mail address is taken.
    Conflict,
    /// The server failed; the same request may succeed later.
    ServerProblem,
}

/// Where a registration stands.
#[derive(Debug, Clone, PartialEq, Eq)]
pub enum Registration {
    /// The request has arrived and nothing has been looked at yet.
    ValidateInput { request: RegisterRequest },
    /// The fields are in canonical form; the passcode is to be compared with the one on record.
    CheckOtp { name: String, mail: String, password: String, otp: String },
    /// The passcode was right; the database is to say whether name or mail are taken.
    CheckCollision { name: String, mail: String, password: String },
    /// Name and mail are free; the password is to be hashed.
    HashPassword { name: String, mail: String, password: String },
    /// The records of the account are with the database.
    Persist { name: String, id: UserId },
    /// The account exists; its first session token is to be issued.
    IssueToken { name: String, id: UserId },
    /// The account exists and has a session.
    Done { name: String, token: String },
    /// The registration ended without an account.
    Aborted { kind: AbortKind, message: String },
}

/// The fields of a request in canonical form, or the message of the first rule broken.
pub open spec fn validated(request: RegisterRequest, policy: MailPolicy) -> Result<
    (Seq<char>, Seq<char>, Seq<char>),
    Seq<char>,
> {
    match name_verdict(canonical_name(request.name@)) {
        Err(message) => Err(message),
        Ok(name) => match policy.verdict(canonical_mail(request.email@)) {
            Err(message) => Err(message),
            Ok(mail) => match password_verdict(request.password@) {
                Err(message) => Err(message),
                Ok(password) => Ok((name, mail, password)),
            },
        },
    }
}

/// What becomes of the passcode `submitted` when `record` is on record at `now`.
/// Surrounding whitespace in the submitted code does not count.
pub open spec fn otp_check(record: Option<Otp>, submitted: Seq<char>, now: i64) -> OtpCheck {
    match record {
        None => OtpCheck::Absent,
        Some(otp) => if otp.expired_at(now) {
            OtpCheck::Expired
        } else if !otp.matches(trimmed(submitted)) {
            OtpCheck::Mismatch
        } else {
            OtpCheck::Accepted
        },
    }
}

/// Decides what becomes of a submitted passcode.
pub fn check_otp(record: &Option<Otp>, submitted: &str, now: i64) -> (check: OtpCheck)
    ensures
        check == otp_check(*record, submitted@, now),
{
    match record {
        None => OtpCheck::Absent,
        Some(otp) => {
            if otp.is_expired_at(now) {
                OtpCheck::Expired
            } else if !otp.check(&trim(submitted)) {
                OtpCheck::Mismatch
            } else {
                OtpCheck::Accepted
            }
        },
    }
}

impl OtpCheck {
    /// Whether the code on record is to be removed: once used, or once found
    /// expired. A wrong guess leaves it in place for a correct retry.
    pub open spec fn removes(self) -> bool {
        self == OtpCheck::Expired || self == OtpCheck::Accepted
    }
}

impl Registration {
    /// Whether the registration was aborted for `kind` with `message`.
    pub open spec fn is_aborted(self, kind: AbortKind, message: Seq<char>) -> bool {
        self matches Registration::Aborted { kind: k, message: m } && k == kind && m@ == message
    }

    /// Whether the registration has ended, one way or the other.
    pub open spec fn is_final(self) -> bool {
        self is Done || self is Aborted
    }

    /// A registration that starts with `request`.
    pub fn begin(request: RegisterRequest) -> (state: Registration)
        ensures
            state == (Registration::ValidateInput { request }),
    {
        Registration::ValidateInput { request }
    }

    fn abort(kind: AbortKind, message: &str) -> (state: Registration)
        ensures
            state.is_aborted(kind, message@),
    {
        Registration::Aborted { kind, message: message.to_owned() }
    }

    /// Brings name, mail and password into canonical form and applies the
    /// rules to them, in this order; the first rule broken ends the
    /// registration with its message.
    pub fn validate(self, policy: &MailPolicy) -> (next: Registration)
        ensures
            match self {
                Registration::ValidateInput { request } => match validated(request, *policy) {
                    Ok((name, mail, password)) => next matches Registration::CheckOtp {
                        name: n,
                        mail: m,
                        password: p,
                        otp: o,
                    } && n@ == name && m@ == mail && p == request.password && o == request.otp,
                    Err(message) => next.is_aborted(AbortKind::Rejected, message),
                },
                _ => next == self,
            },
    {
        match self {
            Registration::ValidateInput { request } => {
                let RegisterRequest { email, otp, name, password } = request;
                let name = match validate_name(name) {
                    Ok(name) => name,
                    Err(message) => return Registration::Aborted {
                        kind: AbortKind::Rejected,
                        message,
                    },
                };
                let mail = match validate_mail(email, policy) {
                    Ok(mail) => mail,
                    Err(message) => return Registration::Aborted {
                        kind: AbortKind::Rejected,
                        message,
                    },
                };
                let password = match validate_password(password) {
                    Ok(password) => password,
                    Err(message) => return Registration::Aborted {
                        kind: AbortKind::Rejected,
                        message,
                    },
                };
                Registration::CheckOtp { name, mail, password, otp }
            },
            other => other,
        }
    }

    /// Compares the submitted passcode with `record`, the code on record for
    /// the mail address at the moment `now`. Beside the next state stands the
    /// address whose record is to be removed, if any.
    pub fn otp_checked(self, record: &Option<Otp>, now: i64) -> (result: (
        Registration,
        Option<String>,
    ))
        ensures
            match self {
                Registration::CheckOtp { name, mail, password, otp } => {
                    let check = otp_check(*record, otp@, now);
                    &&& (check.removes() ==> result.1 == Some(mail))
                    &&& (!check.removes() ==> result.1 is None)
                    &&& match check {
                        OtpCheck::Absent => result.0.is_aborted(AbortKind::Rejected, OTP_ABSENT@),
                        OtpCheck::Expired => result.0.is_aborted(
                            AbortKind::Rejected,
                            OTP_EXPIRED@,
                        ),
                        OtpCheck::Mismatch => result.0.is_aborted(
                            AbortKind::Rejected,
                            OTP_MISMATCH@,
                        ),
                        OtpCheck::Accepted => result.0 == (Registration::CheckCollision {
                            name,
                            mail,
                            password,
                        }),
                    }
                },
                _ => result.0 == self && result.1 is None,
            },
    {
        match self {
            Registration::CheckOtp { name, mail, password, otp } => {
                match check_otp(record, otp.as_str(), now) {
                    OtpCheck::Absent => (
                        Registration::abort(AbortKind::Rejected, OTP_ABSENT),
                        None,
                    ),
                    OtpCheck::Expired => (
                        Registration::abort(AbortKind::Rejected, OTP_EXPIRED),
                        Some(mail),
                    ),
                    OtpCheck::Mismatch => (
                        Registration::abort(AbortKind::Rejected, OTP_MISMATCH),
                        None,
                    ),
                    OtpCheck::Accepted => {
                        let to_remove = mail.clone();
                        (Registration::CheckCollision { name, mail, password }, Some(to_remove))
                    },
                }
            },
            other => (other, None),
        }
    }

    /// Takes the database's answer to "is the name or the mail address taken".
    pub fn collision_checked(self, registered: Result<bool, StoreFailure>) -> (next: Registration)
        ensures
            match self {
                Registration::CheckCollision { name, mail, password } => match registered {
                    Ok(false) => next == (Registration::HashPassword { name, mail, password }),
                    Ok(true) => next.is_aborted(AbortKind::Conflict, USER_EXISTS@),
                    Err(_) => next.is_aborted(AbortKind::ServerProblem, SERVER_PROBLEM@),
                },
                _ => next == self,
            },
    {
        match self {
            Registration::CheckCollision { name, mail, password } => match registered {
                Ok(false) => Registration::HashPassword { name, mail, password },
                Ok(true) => Registration::abort(AbortKind::Conflict, USER_EXISTS),
                Err(_) => Registration::abort(AbortKind::ServerProblem, SERVER_PROBLEM),
            },
            other => other,
        }
    }

    /// Takes the hash of the password, a fresh identifier and the present
    /// moment, and makes the two records of the account from them. The
    /// display name of a new account is its name; it has no biography and no
    /// permissions.
    pub fn password_hashed(self, hashed: Result<String, Error>, id: UserId, now: i64) -> (result: (
        Registration,
        Option<NewAccount>,
    ))
        ensures
            match self {
                Registration::HashPassword { name, mail, password } => match hashed {
                    Ok(hash) => result.0 == (Registration::Persist { name, id }) && result.1
                        == Some(
                        NewAccount {
                            auth_user: AuthUser { id, mail, password: hash },
                            user: User {
                                name,
                                display_name: name,
                                id,
                                bio: None,
                                created_at: now,
                                updated_at: now,
                                flags: 0,
                            },
                        },
                    ),
                    Err(_) => result.0.is_aborted(AbortKind::ServerProblem, SERVER_PROBLEM@)
                        && result.1 is None,
                },
                _ => result.0 == self && result.1 is None,
            },
    {
        match self {
            Registration::HashPassword { name, mail, password } => match hashed {
                Ok(hash) => {
                    let user = User {
                        name: name.clone(),
                        display_name: name.clone(),
                        id,
                        bio: None,
                        created_at: now,
                        updated_at: now,
                        flags: 0,
                    };
                    let auth_user = AuthUser { id, mail, password: hash };
                    (Registration::Persist { name, id }, Some(NewAccount { auth_user, user }))
                },
                Err(_) => (Registration::abort(AbortKind::ServerProblem, SERVER_PROBLEM), None),
            },
            other => (other, None),
        }
    }

    /// Takes the database's word on whether both records were written.
    pub fn persisted(self, outcome: Result<(), StoreFailure>) -> (next: Registration)
        ensures
            match self {
                Registration::Persist { name, id } => match outcome {
                    Ok(_) => next == (Registration::IssueToken { name, id }),
                    Err(_) => next.is_aborted(AbortKind::ServerProblem, PERSIST_FAILED@),
                },
                _ => next == self,
            },
    {
        match self {
            Registration::Persist { name, id } => match outcome {
                Ok(_) => Registration::IssueToken { name, id },
                Err(_) => Registration::abort(AbortKind::ServerProblem, PERSIST_FAILED),
            },
            other => other,
        }
    }

    /// Takes the session token issued to the new account.
    pub fn token_issued(self, issued: Result<String, Error>) -> (next: Registration)
        ensures
            match self {
                Registration::IssueToken { name, id } => match issued {
                    Ok(token) => next == (Registration::Done { name, token }),
                    Err(_) => next.is_aborted(AbortKind::ServerProblem, SESSION_FAILED@),
                },
                _ => next == self,
            },
    {
        match self {
            Registration::IssueToken { name, id } => match issued {
                Ok(token) => Registration::Done { name, token },
                Err(_) => Registration::abort(AbortKind::ServerProblem, SESSION_FAILED),
            },
            other => other,
        }
    }

    /// The reply to the member once the registration has ended: success with
    /// name and token; a failure with its message when the member can act on
    /// it; a server problem otherwise. There is no reply before the end.
    pub fn response(self) -> (reply: Option<Result<RegisterResponse, Error>>)
        ensures
            match self {
                Registration::Done { name, token } => reply matches Some(Ok(r)) && r.success
                    && r.message@ == REGISTERED@ && r.name == Some(name) && r.token == Some(token),
                Registration::Aborted { kind: AbortKind::ServerProblem, message } => reply == Some(
                    Err::<RegisterResponse, Error>(Error::ServerProblem),
                ),
                Registration::Aborted { kind, message } => reply matches Some(Ok(r))
                    && r.is_failure(message@),
                _ => reply is None,
            },
    {
        match self {
            Registration::Done { name, token } => Some(
                Ok(
                    RegisterResponse {
                        success: true,
                        message: REGISTERED.to_owned(),
                        name: Some(name),
                        token: Some(token),
                    },
                ),
            ),
            Registration::Aborted { kind: AbortKind::ServerProblem, message } => Some(
                Err(Error::ServerProblem),
            ),
            Registration::Aborted { kind, message } => Some(Ok(RegisterResponse::failure(message))),
            _ => None,
        }
    }
}

/// Whether `account` is a new account for `name` and `mail` whose stored
/// password is a hash that `password` satisfies, identified by `id`.
pub open spec fn is_new_account(
    account: NewAccount,
    id: UserId,
    name: String,
    mail: String,
    password: Seq<char>,
) -> bool {
    &&& account.auth_user.id == id
    &&& account.auth_user.mail == mail
    &&& satisfies(password, account.auth_user.password@)
    &&& account.user.id == id
    &&& account.user.name == name
    &&& account.user.display_name == name
    &&& account.user.bio is None
    &&& account.user.flags == 0
    &&& account.user.created_at == account.user.updated_at
    &&& is_clock_reading(account.user.created_at)
}

/// Starts a registration: validates the fields and compares the passcode
/// with the one on record. The store is only read; beside the state stands
/// the address whose record the caller is to remove, in its own time.
///
/// A request that breaks a rule is rejected before the store is looked at,
/// and asks for no removal.
pub fn register(
    body: RegisterRequest,
    otp_codes: &OtpStore,
    policy: &MailPolicy,
) -> (result: (Registration, Option<String>))
    ensures
        match validated(body, *policy) {
            Err(message) => result.0.is_aborted(AbortKind::Rejected, message) && result.1 is None,
            Ok((name, mail, password)) => exists|now: i64|
                {
                    let check = #[trigger] otp_check(lookup(otp_codes@, mail), body.otp@, now);
                    &&& is_clock_reading(now)
                    &&& (check.removes() ==> (result.1 matches Some(m) && m@ == mail))
                    &&& (!check.removes() ==> result.1 is None)
                    &&& match check {
                        OtpCheck::Absent => result.0.is_aborted(AbortKind::Rejected, OTP_ABSENT@),
                        OtpCheck::Expired => result.0.is_aborted(
                            AbortKind::Rejected,
                            OTP_EXPIRED@,
                        ),
                        OtpCheck::Mismatch => result.0.is_aborted(
                            AbortKind::Rejected,
                            OTP_MISMATCH@,
                        ),
                        OtpCheck::Accepted => result.0 matches Registration::CheckCollision {
                            name: n,
                            mail: m,
                            password: p,
                        } && n@ == name && m@ == mail && p == body.password,
                    }
                },
        },
{
    match Registration::begin(body).validate(policy) {
        Registration::CheckOtp { name, mail, password, otp } => {
            let record = otp_codes.get(mail.as_str());
            let now = unix_now();
            let state = Registration::CheckOtp { name, mail, password, otp };
            let result = state.otp_checked(&record, now);
            result
        },
        other => (other, None),
    }
}

/// Continues a registration with the database's answer to "is the name or the
/// mail address taken". When both are free the password is hashed and the
/// records of the account are made, under a fresh identifier; they stand
/// beside the state, for the caller to write both or neither.
pub fn register_collision_checked(
    state: Registration,
    registered: Result<bool, StoreFailure>,
) -> (result: (Registration, Option<NewAccount>))
    ensures
        match state {
            Registration::CheckCollision { name, mail, password } => match registered {
                Ok(false) => (result.0.is_aborted(AbortKind::ServerProblem, SERVER_PROBLEM@)
                    && result.1 is None) || ({
                    &&& result.0 matches Registration::Persist { name: n, id }
                    &&& n == name
                    &&& is_version_4(id.value)
                    &&& result.1 matches Some(account)
                    &&& is_new_account(account, id, name, mail, password@)
                }),
                Ok(true) => result.0.is_aborted(AbortKind::Conflict, USER_EXISTS@)
                    && result.1 is None,
                Err(_) => result.0.is_aborted(AbortKind::ServerProblem, SERVER_PROBLEM@)
                    && result.1 is None,
            },
            _ => result.0 == state && result.1 is None,
        },
{
    if !matches!(state, Registration::CheckCollision { .. }) {
        return (state, None);
    }
    match state.collision_checked(registered) {
        Registration::HashPassword { name, mail, password } => {
            let hashed = password_hash(&password);
            let id = UserId::generate();
            let now = unix_now();
            Registration::HashPassword { name, mail, password }.password_hashed(hashed, id, now)
        },
        other => (other, None),
    }
}

/// Finishes a registration with the database's word on whether the account
/// was written. An account that exists gets its first session token.
pub fn register_persisted(
    state: Registration,
    outcome: Result<(), StoreFailure>,
    key: &SigningKey,
) -> (next: Registration)
    ensures
        match state {
            Registration::Persist { name, id } => match outcome {
                Ok(_) => {
                    &&& next matches Registration::Done { name: n, token }
                    &&& n == name
                    &&& is_token_text(token@)
                    &&& freshly_issued(token@, key@, id)
                },
                Err(_) => next.is_aborted(AbortKind::ServerProblem, PERSIST_FAILED@),
            },
            _ => next == state,
        },
{
    if !matches!(state, Registration::Persist { .. }) {
        return state;
    }
    match state.persisted(outcome) {
        Registration::IssueToken { name, id } => {
            let issued = create_jwt(id, key);
            Registration::IssueToken { name, id }.token_issued(issued)
        },
        other => other,
    }
}

/// Answers a request for a passcode. For an acceptable address a fresh code
/// of six digits, valid for eight minutes, takes the place of whatever was on
/// record for it, and the reply reports success whether or not the code will
/// reach the member; beside the reply stands the code to send. For any other
/// address the store is left alone and the reply carries the refusal.
pub fn auth_otp_handler(
    body: OTPRequest,
    otp_codes: &mut OtpStore,
    policy: &MailPolicy,
) -> (result: (OTPResponse, Option<OtpDelivery>))
    ensures
        match policy.verdict(canonical_mail(body.email@)) {
            Err(message) => {
                &&& final(otp_codes)@ == old(otp_codes)@
                &&& !result.0.success
                &&& result.0.message@ == message
                &&& result.1 is None
            },
            Ok(mail) => {
                &&& result.0.success
                &&& result.0.message@ == OTP_SENT@
                &&& result.1 matches Some(delivery)
                &&& delivery.mail@ == mail
                &&& lookup(final(otp_codes)@, mail) matches Some(record)
                &&& final(otp_codes)@ == old(otp_codes)@.insert(mail, record)
                &&& record.code == delivery.code
                &&& is_code(record.code@, OTP_LENGTH as nat)
                &&& 0 <= record.expires_on - OTP_TTL_SECONDS < CLOCK_BOUND
            },
        },
{
    let mail = match validate_mail(body.email, policy) {
        Ok(mail) => mail,
        Err(message) => return (OTPResponse { success: false, message }, None),
    };
    let otp = Otp::new_expirable_code(OTP_LENGTH, OTP_TTL_SECONDS);
    let delivery = OtpDelivery { mail: mail.clone(), code: otp.code.clone() };
    otp_codes.put(mail, otp);
    (OTPResponse { success: true, message: OTP_SENT.to_owned() }, Some(delivery))
}

/// The question to put to the database for a prelogin: is there an account
/// whose name or whose mail address is the login.
pub fn prelogin_query(body: &PreLoginBody) -> (query: UserQuery)
    ensures
        query.name@ == trimmed(body.login@),
        query.mail@ == trimmed(body.login@),
{
    let login = trim(body.login.as_str());
    UserQuery { name: login.clone(), mail: login }
}

/// Answers a prelogin from the database's answer. The reply says whether the
/// login can be used with a password, and not whether it matched a name or a
/// mail address.
pub fn prelogin(registered: Result<bool, StoreFailure>) -> (reply: Result<PreLoginResponse, Error>)
    ensures
        match registered {
            Ok(true) => reply matches Ok(r) && r.can_login && r.message@ == CAN_LOGIN@ && r.status@
                == STATUS_OK@,
            Ok(false) => reply matches Ok(r) && !r.can_login && r.message@ == CANNOT_LOGIN@
                && r.status@ == STATUS_NOT_FOUND@,
            Err(_) => reply == Err::<PreLoginResponse, Error>(Error::ServerProblem),
        },
{
    match registered {
        Ok(true) => Ok(
            PreLoginResponse {
                can_login: true,
                message: CAN_LOGIN.to_owned(),
                status: STATUS_OK.to_owned(),
            },
        ),
        Ok(false) => Ok(
            PreLoginResponse {
                can_login: false,
                message: CANNOT_LOGIN.to_owned(),
                status: STATUS_NOT_FOUND.to_owned(),
            },
        ),
        Err(_) => Err(Error::ServerProblem),
    }
}

/// The login to look up for a login with a password: a name or a mail address.
pub fn login_query(body: &LoginCredentialsBody) -> (login: String)
    ensures
        login@ == trimmed(body.login@),
{
    trim(body.login.as_str())
}

/// Where a login with a password stands.
#[derive(Debug, Clone, PartialEq, Eq)]
pub enum Login {
    /// The database is to say what it holds for the login.
    FetchCredentials { password: String },
    /// The password is to be checked against the stored hash.
    VerifyPassword { credentials: StoredCredentials, password: String },
    /// The password was right; a session token is to be issued.
    IssueToken { credentials: StoredCredentials },
    /// The member is logged in.
    Granted { reply: LoginResponse },
    /// No such login, or a wrong password: the reply does not say which.
    Refused,
    /// The server could not decide.
    Failed,
}

impl Login {
    /// Starts a login. Beside the state stands the login to look up, which
    /// may be a name or a mail address.
    pub fn begin(body: LoginCredentialsBody) -> (result: (Login, String))
        ensures
            result.0 == (Login::FetchCredentials { password: body.password }),
            result.1@ == trimmed(body.login@),
    {
        let login = trim(body.login.as_str());
        (Login::FetchCredentials { password: body.password }, login)
    }

    /// Takes what the database holds for the login.
    pub fn credentials_found(self, found: Result<Option<StoredCredentials>, StoreFailure>) -> (next:
        Login)
        ensures
            match self {
                Login::FetchCredentials { password } => match found {
                    Ok(Some(credentials)) => next == (Login::VerifyPassword {
                        credentials,
                        password,
                    }),
                    Ok(None) => next == Login::Refused,
                    Err(_) => next == Login::Failed,
                },
                _ => next == self,
            },
    {
        match self {
            Login::FetchCredentials { password } => match found {
                Ok(Some(credentials)) => Login::VerifyPassword { credentials, password },
                Ok(None) => Login::Refused,
                Err(_) => Login::Failed,
            },
            other => other,
        }
    }

    /// Takes the outcome of checking the password against the stored hash.
    pub fn password_checked(self, checked: Result<bool, Error>) -> (next: Login)
        ensures
            match self {
                Login::VerifyPassword { credentials, password } => match checked {
                    Ok(true) => next == (Login::IssueToken { credentials }),
                    Ok(false) => next == Login::Refused,
                    Err(_) => next == Login::Failed,
                },
                _ => next == self,
            },
    {
        match self {
            Login::VerifyPassword { credentials, password } => match checked {
                Ok(true) => Login::IssueToken { credentials },
                Ok(false) => Login::Refused,
                Err(_) => Login::Failed,
            },
            other => other,
        }
    }

    /// Takes the session token issued to the account.
    pub fn token_issued(self, issued: Result<String, Error>) -> (next: Login)
        ensures
            match self {
                Login::IssueToken { credentials } => match issued {
                    Ok(token) => {
                        &&& next matches Login::Granted { reply }
                        &&& reply.token == Some(token)
                        &&& reply.name == Some(credentials.name)
                        &&& reply.uuid matches Some(text)
                        &&& text@ == hyphenated(credentials.id.value)
                    },
                    Err(_) => next == Login::Failed,
                },
                _ => next == self,
            },
    {
        match self {
            Login::IssueToken { credentials } => match issued {
                Ok(token) => Login::Granted {
                    reply: LoginResponse {
                        token: Some(token),
                        uuid: Some(credentials.id.to_text()),
                        name: Some(credentials.name),
                    },
                },
                Err(_) => Login::Failed,
            },
            other => other,
        }
    }

    /// The reply to the member once the login has ended; there is none before.
    pub fn response(self) -> (reply: Option<Result<LoginResponse, Error>>)
        ensures
            match self {
                Login::Granted { reply: granted } => reply == Some(
                    Ok::<LoginResponse, Error>(granted),
                ),
                Login::Refused => reply matches Some(Ok(r)) && r.is_refusal(),
                Login::Failed => reply == Some(Err::<LoginResponse, Error>(Error::ServerProblem)),
                _ => reply is None,
            },
    {
        match self {
            Login::Granted { reply } => Some(Ok(reply)),
            Login::Refused => Some(Ok(LoginResponse::refusal())),
            Login::Failed => Some(Err(Error::ServerProblem)),
            _ => None,
        }
    }
}

/// What a login with a password comes to, before any token is issued.
#[derive(Debug, Clone, Copy, PartialEq, Eq, Structural)]
pub enum LoginDecision {
    /// The server could not decide.
    Failed,
    /// No such login, or a wrong password.
    Refused,
    /// The password is the right one.
    Granted,
}

/// Whether a member who gives `password` may log in, given what the database
/// holds for the login.
pub open spec fn login_decision(
    found: Result<Option<StoredCredentials>, StoreFailure>,
    password: Seq<char>,
) -> LoginDecision {
    match found {
        Err(_) => LoginDecision::Failed,
        Ok(None) => LoginDecision::Refused,
        Ok(Some(credentials)) => match verification(password, credentials.password@) {
            Err(_) => LoginDecision::Failed,
            Ok(false) => LoginDecision::Refused,
            Ok(true) => LoginDecision::Granted,
        },
    }
}

/// Answers a login with a password from what the database holds for the
/// login. An unknown login and a wrong password get the same reply, which
/// grants nothing and tells nothing. A right password gets a session token
/// for the account, its name and its identifier.
pub fn login_credentials(
    body: LoginCredentialsBody,
    found: Result<Option<StoredCredentials>, StoreFailure>,
    key: &SigningKey,
) -> (reply: Result<LoginResponse, Error>)
    ensures
        match login_decision(found, body.password@) {
            LoginDecision::Failed => reply == Err::<LoginResponse, Error>(Error::ServerProblem),
            LoginDecision::Refused => reply matches Ok(r) && r.is_refusal(),
            LoginDecision::Granted => {
                &&& reply matches Ok(r)
                &&& found matches Ok(Some(credentials))
                &&& r.name == Some(credentials.name)
                &&& r.uuid matches Some(text)
                &&& text@ == hyphenated(credentials.id.value)
                &&& r.token matches Some(token)
                &&& is_token_text(token@)
                &&& freshly_issued(token@, key@, credentials.id)
            },
        },
{
    let state = Login::begin(body).0.credentials_found(found);
    let state = match state {
        Login::VerifyPassword { credentials, password } => {
            let checked = password_verify(&password, credentials.password.as_str());
            Login::VerifyPassword { credentials, password }.password_checked(checked)
        },
        other => other,
    };
    let state = match state {
        Login::IssueToken { credentials } => {
            let issued = create_jwt(credentials.id, key);
            Login::IssueToken { credentials }.token_issued(issued)
        },
        other => other,
    };
    match state.response() {
        Some(reply) => reply,
        None => Err(Error::ServerProblem),
    }
}

/// What the database holds for the login of an account once both of its
/// records are written.
pub open spec fn stored(account: NewAccount) -> StoredCredentials {
    StoredCredentials {
        password: account.auth_user.password,
        id: account.auth_user.id,
        name: account.user.name,
    }
}

/// An account that a registration has made can log in: with the password it
/// was registered with, and what the database then holds for it, the login is
/// granted, and it is granted to the identifier the registration gave out.
pub proof fn law_registered_account_logs_in(
    account: NewAccount,
    id: UserId,
    name: String,
    mail: String,
    password: Seq<char>,
)
    requires
        is_new_account(account, id, name, mail, password),
    ensures
        login_decision(Ok(Some(stored(account))), password) == LoginDecision::Granted,
        stored(account).id == id,
        stored(account).name == name,
{
}

/// Answers "who am I". Without an authorized account the reply says so and
/// `fetched` is not looked at; with one, `fetched` is the name the database
/// holds for it.
pub fn info(
    user_uid: Option<UserId>,
    fetched: Option<Result<String, StoreFailure>>,
) -> (reply: Result<InfoResponse, Error>)
    ensures
        match user_uid {
            None => reply matches Ok(r) && !r.authorized && r.name is None,
            Some(_) => match fetched {
                Some(Ok(name)) => reply matches Ok(r) && r.authorized && r.name == Some(name),
                _ => reply == Err::<InfoResponse, Error>(Error::ServerProblem),
            },
        },
{
    if user_uid.is_none() {
        return Ok(InfoResponse { authorized: false, name: None });
    }
    match fetched {
        Some(Ok(name)) => Ok(InfoResponse { authorized: true, name: Some(name) }),
        _ => Err(Error::ServerProblem),
    }
}

} // verus!
