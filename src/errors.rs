use crate::validation::{Field, Reason, ValidationFailure};
use vstd::prelude::*;
use vstd::string::StringExecFns;

verus! {

/// The errors of the service as a whole.
#[derive(Debug)]
pub enum AppError {
    ValidationError(ValidationFailure),
    DbError(String),
    Unexpected(String),
    EstablishServer(String),
    ConfigError(String),
    EnvError(String),
    SendingRequest(String),
    UserNotFound(String),
}

/// The JSON body of an error answer.
#[derive(Debug)]
pub struct ApiError {
    pub code: u16,
    pub message: String,
}

pub open spec fn field_text(f: Field) -> Seq<char> {
    match f {
        Field::Email => "email"@,
        Field::Username => "username"@,
    }
}

pub open spec fn reason_text(r: Reason) -> Seq<char> {
    match r {
        Reason::Empty => "is empty"@,
        Reason::MissingAt => "has no '@'"@,
        Reason::MissingDomainDot => "has no '.' in its domain"@,
        Reason::Whitespace => "holds whitespace"@,
        Reason::Malformed => "is not a valid mailbox address"@,
        Reason::NotAlphanumeric => "holds characters that are not alphanumeric"@,
    }
}

pub open spec fn failure_text(f: ValidationFailure) -> Seq<char> {
    field_text(f.field) + " "@ + reason_text(f.reason)
}

/// Says which field was rejected and why, e.g. `email has no '@'`.
pub fn describe_failure(f: &ValidationFailure) -> (r: String)
    ensures
        r@ == failure_text(*f),
{
    let mut s = match f.field {
        Field::Email => String::from_str("email"),
        Field::Username => String::from_str("username"),
    };
    s.append(" ");
    let reason = match f.reason {
        Reason::Empty => "is empty",
        Reason::MissingAt => "has no '@'",
        Reason::MissingDomainDot => "has no '.' in its domain",
        Reason::Whitespace => "holds whitespace",
        Reason::Malformed => "is not a valid mailbox address",
        Reason::NotAlphanumeric => "holds characters that are not alphanumeric",
    };
    s.append(reason);
    s
}

impl AppError {
    pub open spec fn message_spec(&self) -> Seq<char> {
        match self {
            AppError::ValidationError(f) => "invalid input from validator: "@ + failure_text(*f),
            AppError::DbError(s) => "DB error: "@ + s@,
            AppError::Unexpected(s) => s@,
            AppError::EstablishServer(s) => "error establishing server: "@ + s@,
            AppError::ConfigError(s) => "error initializing Config: "@ + s@,
            AppError::EnvError(s) => "error parsing env value: "@ + s@,
            AppError::SendingRequest(s) => "error sending request: "@ + s@,
            AppError::UserNotFound(s) => "error user not found: "@ + s@,
        }
    }

    /// The text of the error.
    pub fn message(&self) -> (r: String)
        ensures
            r@ == self.message_spec(),
    {
        let (prefix, detail) = match self {
            AppError::ValidationError(f) => ("invalid input from validator: ", describe_failure(f)),
            AppError::DbError(s) => ("DB error: ", s.clone()),
            AppError::Unexpected(s) => ("", s.clone()),
            AppError::EstablishServer(s) => ("error establishing server: ", s.clone()),
            AppError::ConfigError(s) => ("error initializing Config: ", s.clone()),
            AppError::EnvError(s) => ("error parsing env value: ", s.clone()),
            AppError::SendingRequest(s) => ("error sending request: ", s.clone()),
            AppError::UserNotFound(s) => ("error user not found: ", s.clone()),
        };
        proof {
            reveal_strlit("");
        }
        let mut r = String::from_str(prefix);
        r.append(detail.as_str());
        r
    }

    /// The HTTP status of the answer: 400 for what the client got wrong
    /// (invalid input, an unknown subscriber), 500 for every failure of the
    /// service itself (store, delivery, configuration, start-up).
    pub fn status_code(&self) -> (r: u16)
        ensures
            r == self.status_code_spec(),
    {
        match self {
            AppError::ValidationError(_) | AppError::UserNotFound(_) => 400,
            _ => 500,
        }
    }

    /// The text the client sees: the full message for a client error; for a
    /// failure of the service only its category, the cause being logged and
    /// not exposed.
    pub fn public_message(&self) -> (r: String)
        ensures
            r@ == self.public_message_spec(),
    {
        match self {
            AppError::ValidationError(_) | AppError::UserNotFound(_) => self.message(),
            _ => String::from_str("internal server error"),
        }
    }
}

impl ApiError {
    /// The JSON body that answers `e`: its status and the text the client sees.
    pub fn from_app_error(e: &AppError) -> (r: ApiError)
        ensures
            r.code == e.status_code_spec(),
            r.message@ == e.public_message_spec(),
    {
        ApiError { code: e.status_code(), message: e.public_message() }
    }
}

impl AppError {
    pub open spec fn is_client_error(&self) -> bool {
        self is ValidationError || self is UserNotFound
    }

    pub open spec fn status_code_spec(&self) -> u16 {
        if self.is_client_error() {
            400u16
        } else {
            500u16
        }
    }

    pub open spec fn public_message_spec(&self) -> Seq<char> {
        if self.is_client_error() {
            self.message_spec()
        } else {
            "internal server error"@
        }
    }
}

} // verus!
