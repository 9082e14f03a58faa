use codefest_auth::error::{handle_rejection, Error, ErrorResponse, RejectionCause};

const ALL: [Error; 15] = [
    Error::UnallowedMail,
    Error::WrongCredentials,
    Error::JWTToken,
    Error::JWTTokenCreation,
    Error::NoAuthHeader,
    Error::InvalidAuthHeader,
    Error::NoPermission,
    Error::CannotFindFile,
    Error::NotFound,
    Error::UserNotFound,
    Error::ProjectNotFound,
    Error::ServerProblem,
    Error::ParameterProblem,
    Error::UserExists,
    Error::Unauthorized,
];

fn reply(status: u16, message: &str) -> ErrorResponse {
    ErrorResponse { success: false, message: message.to_string(), status }
}

#[test]
fn every_error_has_its_message() {
    let messages = [
        "Ten adres nie ma przydzielonego dostępu.",
        "wrong credentials",
        "jwt token not valid",
        "jwt token creation error",
        "no auth header",
        "invalid auth header",
        "no permission",
        "Cannot find file",
        "Not Found",
        "User Not Found",
        "Project Not Found",
        "Server Problem",
        "Parameter Problem",
        "User Exists",
        "Unauthorized",
    ];
    for (error, message) in ALL.iter().zip(messages) {
        assert_eq!(error.message(), message);
    }
}

#[test]
fn every_error_has_its_status() {
    let codes = [400u16, 403, 401, 500, 400, 400, 401, 400, 400, 400, 400, 500, 400, 400, 401];
    for (error, code) in ALL.iter().zip(codes) {
        assert_eq!(error.status_code(), code);
    }
}

#[test]
fn known_errors_are_reported_with_their_message() {
    assert_eq!(
        handle_rejection(RejectionCause::Known(Error::WrongCredentials)),
        reply(403, "wrong credentials")
    );
    assert_eq!(
        handle_rejection(RejectionCause::Known(Error::NoPermission)),
        reply(401, "no permission")
    );
    assert_eq!(
        handle_rejection(RejectionCause::Known(Error::JWTToken)),
        reply(401, "jwt token not valid")
    );
    assert_eq!(
        handle_rejection(RejectionCause::Known(Error::Unauthorized)),
        reply(401, "Unauthorized")
    );
    assert_eq!(
        handle_rejection(RejectionCause::Known(Error::UserExists)),
        reply(400, "User Exists")
    );
    assert_eq!(
        handle_rejection(RejectionCause::Known(Error::NoAuthHeader)),
        reply(400, "no auth header")
    );
}

#[test]
fn server_side_failures_are_not_disclosed() {
    assert_eq!(
        handle_rejection(RejectionCause::Known(Error::ServerProblem)),
        reply(500, "Internal Server Error")
    );
    assert_eq!(
        handle_rejection(RejectionCause::Known(Error::JWTTokenCreation)),
        reply(500, "Internal Server Error")
    );
    assert_eq!(handle_rejection(RejectionCause::Unhandled), reply(500, "Internal Server Error"));
}

#[test]
fn routing_failures_have_their_own_replies() {
    assert_eq!(handle_rejection(RejectionCause::NotFound), reply(404, "Not Found"));
    assert_eq!(
        handle_rejection(RejectionCause::MethodNotAllowed),
        reply(405, "Method Not Allowed")
    );
    assert_eq!(handle_rejection(RejectionCause::InvalidQuery), reply(400, "Invalid Query"));
}

#[test]
fn no_rejection_is_a_success() {
    for error in ALL {
        assert!(!handle_rejection(RejectionCause::Known(error)).success);
    }
}
