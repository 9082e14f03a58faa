//! The failures a request can end in, and how each is reported to the client.

use vstd::prelude::*;

verus! {

/// A failure that ends a request.
#[derive(Debug, Clone, Copy, PartialEq, Eq, Structural)]
pub enum Error {
    UnallowedMail,
    WrongCredentials,
    JWTToken,
    JWTTokenCreation,
    NoAuthHeader,
    InvalidAuthHeader,
    NoPermission,
    CannotFindFile,
    NotFound,
    UserNotFound,
    ProjectNotFound,
    ServerProblem,
    ParameterProblem,
    UserExists,
    Unauthorized,
}

pub const BAD_REQUEST: u16 = 400;

pub const UNAUTHORIZED: u16 = 401;

pub const FORBIDDEN: u16 = 403;

pub const NOT_FOUND: u16 = 404;

pub const METHOD_NOT_ALLOWED: u16 = 405;

pub const INTERNAL_SERVER_ERROR: u16 = 500;

pub const INTERNAL_MESSAGE: &'static str = "Internal Server Error";

pub const NOT_FOUND_MESSAGE: &'static str = "Not Found";

pub const METHOD_NOT_ALLOWED_MESSAGE: &'static str = "Method Not Allowed";

pub const INVALID_QUERY_MESSAGE: &'static str = "Invalid Query";

/// Why a request was turned away before or inside a handler.
#[derive(Debug, Clone, Copy, PartialEq, Eq, Structural)]
pub enum RejectionCause {
    /// No route matched.
    NotFound,
    /// A handler failed with this error.
    Known(Error),
    /// The route exists, but not for this method.
    MethodNotAllowed,
    /// The query string could not be read.
    InvalidQuery,
    /// Anything else.
    Unhandled,
}

/// What the client is told about a rejected request.
#[derive(Debug, Clone, PartialEq, Eq)]
pub struct ErrorResponse {
    pub success: bool,
    pub message: String,
    /// The HTTP status code of the reply.
    pub status: u16,
}

impl Error {
    /// The text that describes this error.
    pub open spec fn message_text(self) -> Seq<char> {
        match self {
            Error::UnallowedMail => "Ten adres nie ma przydzielonego dostępu."@,
            Error::WrongCredentials => "wrong credentials"@,
            Error::JWTToken => "jwt token not valid"@,
            Error::JWTTokenCreation => "jwt token creation error"@,
            Error::NoAuthHeader => "no auth header"@,
            Error::InvalidAuthHeader => "invalid auth header"@,
            Error::NoPermission => "no permission"@,
            Error::CannotFindFile => "Cannot find file"@,
            Error::NotFound => "Not Found"@,
            Error::UserNotFound => "User Not Found"@,
            Error::ProjectNotFound => "Project Not Found"@,
            Error::ServerProblem => "Server Problem"@,
            Error::ParameterProblem => "Parameter Problem"@,
            Error::UserExists => "User Exists"@,
            Error::Unauthorized => "Unauthorized"@,
        }
    }

    /// The HTTP status code under which this error is reported.
    pub open spec fn status(self) -> u16 {
        match self {
            Error::WrongCredentials => FORBIDDEN,
            Error::NoPermission | Error::JWTToken | Error::Unauthorized => UNAUTHORIZED,
            Error::JWTTokenCreation | Error::ServerProblem => INTERNAL_SERVER_ERROR,
            _ => BAD_REQUEST,
        }
    }

    /// Whether the client may be told what went wrong; server-side failures are not disclosed.
    pub open spec fn is_disclosed(self) -> bool {
        self.status() != INTERNAL_SERVER_ERROR
    }

    /// The text that describes this error.
    pub fn message(&self) -> (text: String)
        ensures
            text@ == self.message_text(),
    {
        match self {
            Error::UnallowedMail => "Ten adres nie ma przydzielonego dostępu.".to_owned(),
            Error::WrongCredentials => "wrong credentials".to_owned(),
            Error::JWTToken => "jwt token not valid".to_owned(),
            Error::JWTTokenCreation => "jwt token creation error".to_owned(),
            Error::NoAuthHeader => "no auth header".to_owned(),
            Error::InvalidAuthHeader => "invalid auth header".to_owned(),
            Error::NoPermission => "no permission".to_owned(),
            Error::CannotFindFile => "Cannot find file".to_owned(),
            Error::NotFound => "Not Found".to_owned(),
            Error::UserNotFound => "User Not Found".to_owned(),
            Error::ProjectNotFound => "Project Not Found".to_owned(),
            Error::ServerProblem => "Server Problem".to_owned(),
            Error::ParameterProblem => "Parameter Problem".to_owned(),
            Error::UserExists => "User Exists".to_owned(),
            Error::Unauthorized => "Unauthorized".to_owned(),
        }
    }

    /// The HTTP status code under which this error is reported.
    pub fn status_code(&self) -> (code: u16)
        ensures
            code == self.status(),
    {
        match self {
            Error::WrongCredentials => FORBIDDEN,
            Error::NoPermission | Error::JWTToken | Error::Unauthorized => UNAUTHORIZED,
            Error::JWTTokenCreation | Error::ServerProblem => INTERNAL_SERVER_ERROR,
            _ => BAD_REQUEST,
        }
    }
}

/// The status code with which a rejection is answered.
pub open spec fn rejection_status(cause: RejectionCause) -> u16 {
    match cause {
        RejectionCause::NotFound => NOT_FOUND,
        RejectionCause::Known(error) => error.status(),
        RejectionCause::MethodNotAllowed => METHOD_NOT_ALLOWED,
        RejectionCause::InvalidQuery => BAD_REQUEST,
        RejectionCause::Unhandled => INTERNAL_SERVER_ERROR,
    }
}

/// The message with which a rejection is answered.
pub open spec fn rejection_message(cause: RejectionCause) -> Seq<char> {
    match cause {
        RejectionCause::NotFound => NOT_FOUND_MESSAGE@,
        RejectionCause::Known(error) => if error.is_disclosed() {
            error.message_text()
        } else {
            INTERNAL_MESSAGE@
        },
        RejectionCause::MethodNotAllowed => METHOD_NOT_ALLOWED_MESSAGE@,
        RejectionCause::InvalidQuery => INVALID_QUERY_MESSAGE@,
        RejectionCause::Unhandled => INTERNAL_MESSAGE@,
    }
}

/// Turns a rejection into the reply sent to the client: never a success, the
/// status of the cause, and a message that hides server-side failures.
pub fn handle_rejection(cause: RejectionCause) -> (reply: ErrorResponse)
    ensures
        !reply.success,
        reply.status == rejection_status(cause),
        reply.message@ == rejection_message(cause),
{
    let (status, message) = match cause {
        RejectionCause::NotFound => (NOT_FOUND, NOT_FOUND_MESSAGE.to_owned()),
        RejectionCause::Known(error) => {
            let code = error.status_code();
            if code == INTERNAL_SERVER_ERROR {
                (code, INTERNAL_MESSAGE.to_owned())
            } else {
                (code, error.message())
            }
        },
        RejectionCause::MethodNotAllowed => (
            METHOD_NOT_ALLOWED,
            METHOD_NOT_ALLOWED_MESSAGE.to_owned(),
        ),
        RejectionCause::InvalidQuery => (BAD_REQUEST, INVALID_QUERY_MESSAGE.to_owned()),
        RejectionCause::Unhandled => (INTERNAL_SERVER_ERROR, INTERNAL_MESSAGE.to_owned()),
    };
    ErrorResponse { success: false, message, status }
}

} // verus!
