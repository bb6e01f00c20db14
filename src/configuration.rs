use crate::errors::AppError;
use crate::validation::{email_fault, is_valid_email, Field, ValidatedEmail, ValidationFailure};
use vstd::prelude::*;
use vstd::string::StringExecFns;

verus! {

/// The whole configuration of the service.
#[derive(Debug)]
pub struct Settings {
    pub database: DatabaseSettings,
    pub application: ApplicationSettings,
    pub email_client: EmailClientSettings,
}

/// Where and how confirmation messages are sent.
#[derive(Debug)]
pub struct EmailClientSettings {
    pub email_server_url: String,
    pub sender_email: String,
    pub authorization_token: String,
    pub timeout_seconds: u64,
}

/// The span of `secs` whole seconds.
pub uninterp spec fn duration_of_secs(secs: u64) -> std::time::Duration;

/// Relies on `std::time::Duration::from_secs` to build the delivery timeout:
/// the span depends on the number of seconds alone.
#[verifier::external_body]
fn duration_from_secs(secs: u64) -> (r: std::time::Duration)
    ensures
        r == duration_of_secs(secs),
{
    std::time::Duration::from_secs(secs)
}

impl EmailClientSettings {
    /// The sender address, checked like any subscriber address.
    pub fn parse_email(&self) -> (r: Result<ValidatedEmail, AppError>)
        ensures
            r is Ok <==> is_valid_email(self.sender_email@),
            r matches Ok(e) ==> e.view() == self.sender_email@,
            r matches Err(e) ==> e == AppError::ValidationError(
                ValidationFailure { field: Field::Email, reason: email_fault(self.sender_email@)->0 },
            ),
    {
        match ValidatedEmail::parse(self.sender_email.as_str()) {
            Ok(e) => Ok(e),
            Err(f) => Err(AppError::ValidationError(f)),
        }
    }

    /// How long one delivery may take.
    pub fn timeout(&self) -> (r: std::time::Duration)
        ensures
            r == duration_of_secs(self.timeout_seconds),
    {
        duration_from_secs(self.timeout_seconds)
    }
}

/// How the database connection negotiates TLS.
#[derive(Clone, Copy, Debug, PartialEq, Eq, Structural)]
pub enum SslMode {
    Require,
    Prefer,
}

/// Where the database is and how to log in.
#[derive(Debug)]
pub struct DatabaseSettings {
    pub username: String,
    pub password: String,
    pub port: u16,
    pub host: String,
    pub require_ssl: bool,
    pub database_name: String,
}

impl DatabaseSettings {
    /// TLS is required where the settings ask for it, and preferred otherwise.
    pub fn ssl_mode(&self) -> (r: SslMode)
        ensures
            r == (if self.require_ssl {
                SslMode::Require
            } else {
                SslMode::Prefer
            }),
    {
        if self.require_ssl {
            SslMode::Require
        } else {
            SslMode::Prefer
        }
    }
}

/// Where the service listens.
#[derive(Debug)]
pub struct ApplicationSettings {
    pub port: u16,
    pub host: String,
}

/// The deployment environment, which picks the extra configuration file.
#[derive(Clone, Copy, Debug, PartialEq, Eq, Structural)]
pub enum Env {
    Local,
    Production,
}

/// The lowercase form of a text.
pub uninterp spec fn lower_of(s: Seq<char>) -> Seq<char>;

/// Relies on `str::to_lowercase` to read environment names in any case: the
/// result depends on the text alone.
#[verifier::external_body]
fn lowercase(s: &str) -> (r: String)
    ensures
        r@ == lower_of(s@),
{
    s.to_lowercase()
}

pub open spec fn env_named(s: Seq<char>) -> Option<Env> {
    if s == "local"@ {
        Some(Env::Local)
    } else if s == "production"@ {
        Some(Env::Production)
    } else {
        None
    }
}

impl Env {
    pub open spec fn name(&self) -> Seq<char> {
        match self {
            Env::Local => "local"@,
            Env::Production => "production"@,
        }
    }

    pub fn as_str(&self) -> (r: &str)
        ensures
            r@ == self.name(),
    {
        match self {
            Env::Local => "local",
            Env::Production => "production",
        }
    }

    /// The environment with exactly this (lowercase) name.
    pub fn from_lowercase(s: &str) -> (r: Option<Env>)
        ensures
            r == env_named(s@),
    {
        let owned = String::from_str(s);
        if owned == String::from_str("local") {
            Some(Env::Local)
        } else if owned == String::from_str("production") {
            Some(Env::Production)
        } else {
            None
        }
    }

    /// The environment named by `value`, in any case.
    pub fn from_name(value: String) -> (r: Result<Env, AppError>)
        ensures
            env_named(lower_of(value@)) matches Some(e) ==> r == Ok::<Env, AppError>(e),
            env_named(lower_of(value@)) is None ==> (r matches Err(AppError::EnvError(v)) && v@
                == value@),
    {
        let lower = lowercase(value.as_str());
        match Env::from_lowercase(lower.as_str()) {
            Some(e) => Ok(e),
            None => Err(AppError::EnvError(value)),
        }
    }
}

} // verus!
