//! The bodies of the requests to the authentication routes, and of the replies.

use vstd::prelude::*;

verus! {

#[derive(Debug, Clone, PartialEq, Eq)]
pub struct ExistsBody {
    pub login: String,
}

#[derive(Debug, Clone, PartialEq, Eq)]
pub struct PreLoginBody {
    pub login: String,
}

#[derive(Debug, Clone, PartialEq, Eq)]
pub struct LoginCredentialsBody {
    pub login: String,
    pub password: String,
}

#[derive(Debug, Clone, PartialEq, Eq)]
pub struct RequestOtpBody {
    pub mail: String,
}

#[derive(Debug, Clone, PartialEq, Eq)]
pub struct LoginOtpBody {
    pub mail: String,
    pub otp: String,
}

#[derive(Debug, Clone, PartialEq, Eq)]
pub struct LoginRequest {
    pub email: String,
    pub otp: String,
}

#[derive(Debug, Clone, PartialEq, Eq)]
pub struct RegisterBody {
    pub email: String,
    pub otp: String,
    pub name: String,
    pub password: String,
}

/// Whether a login can be used with a password.
#[derive(Debug, Clone, PartialEq, Eq)]
pub struct PreLoginResponse {
    pub can_login: bool,
    pub message: String,
    pub status: String,
}

/// The reply to a login with a password; every field is empty when the login is refused.
#[derive(Debug, Clone, PartialEq, Eq)]
pub struct LoginResponse {
    pub token: Option<String>,
    pub name: Option<String>,
    pub uuid: Option<String>,
}

#[derive(Debug, Clone, PartialEq, Eq)]
pub struct InfoResponse {
    pub authorized: bool,
    pub name: Option<String>,
}

#[derive(Debug, Clone, PartialEq, Eq)]
pub struct RegisterRequest {
    pub email: String,
    pub otp: String,
    pub name: String,
    pub password: String,
}

#[derive(Debug, Clone, PartialEq, Eq)]
pub struct RegisterResponse {
    pub success: bool,
    pub message: String,
    pub name: Option<String>,
    pub token: Option<String>,
}

#[derive(Debug, Clone, PartialEq, Eq)]
pub struct OTPRequest {
    pub email: String,
}

#[derive(Debug, Clone, PartialEq, Eq)]
pub struct OTPResponse {
    pub message: String,
    pub success: bool,
}

impl LoginResponse {
    /// Whether the reply grants nothing and tells nothing.
    pub open spec fn is_refusal(&self) -> bool {
        self.token is None && self.name is None && self.uuid is None
    }

    /// The reply to a login that is refused, whatever the reason.
    pub fn refusal() -> (reply: LoginResponse)
        ensures
            reply.is_refusal(),
    {
        LoginResponse { token: None, name: None, uuid: None }
    }
}

impl RegisterResponse {
    /// Whether the reply reports a failure with `message` and grants nothing.
    pub open spec fn is_failure(&self, message: Seq<char>) -> bool {
        !self.success && self.message@ == message && self.name is None && self.token is None
    }

    /// The reply to a registration that did not go through.
    pub fn failure(message: String) -> (reply: RegisterResponse)
        ensures
            reply.is_failure(message@),
            reply.message == message,
    {
        RegisterResponse { success: false, message, name: None, token: None }
    }
}

/// Two refusals cannot be told apart.
pub proof fn law_refusals_are_alike(first: LoginResponse, second: LoginResponse)
    requires
        first.is_refusal(),
        second.is_refusal(),
    ensures
        first == second,
{
}

} // verus!
