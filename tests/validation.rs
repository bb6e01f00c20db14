use email_sender::configuration::{DatabaseSettings, EmailClientSettings, Env, SslMode};
use email_sender::email_client::{delivery_succeeded, EmailClient};
use email_sender::errors::{describe_failure, ApiError, AppError};
use email_sender::validation::{check_email, check_username, validate, Field, Reason, ValidatedEmail, ValidationFailure};

fn email_err(reason: Reason) -> Result<(), ValidationFailure> {
    Err(ValidationFailure { field: Field::Email, reason })
}

#[test]
fn email_validity_check() {
    let samples = [
        "kenneth@example.com",
        "amira.smith@example.org",
        "delia_rowe@example.net",
        "wyatt42@example.com",
        "o.hara@example.org",
        "lia+news@example.net",
        "x@example.com",
        "marvin.kub@example.org",
        "ezra-j@example.net",
        "t123@example.com",
    ];
    for email in samples {
        assert!(ValidatedEmail::parse(email).is_ok(), "tested: {email}");
    }
}

#[test]
fn email_rules_in_order() {
    assert_eq!(check_email(""), email_err(Reason::Empty));
    assert_eq!(check_email("not-an-email"), email_err(Reason::MissingAt));
    assert_eq!(check_email("a@localhost"), email_err(Reason::MissingDomainDot));
    assert_eq!(check_email("us er@example.com"), email_err(Reason::Whitespace));
    assert_eq!(check_email("\"test@test\"@example.com"), email_err(Reason::Malformed));
    assert_eq!(check_email("user@example.com"), Ok(()));
}

#[test]
fn username_rules() {
    let err = |reason| Err(ValidationFailure { field: Field::Username, reason });
    assert_eq!(check_username(""), err(Reason::Empty));
    assert_eq!(check_username("user__"), err(Reason::NotAlphanumeric));
    assert_eq!(check_username("   "), err(Reason::NotAlphanumeric));
    assert_eq!(check_username("username"), Ok(()));
    assert_eq!(check_username("user42"), Ok(()));
}

#[test]
fn email_is_checked_before_username() {
    assert_eq!(validate("hello", "user__"), email_err(Reason::MissingAt));
    assert_eq!(
        validate("a@b.com", "user__"),
        Err(ValidationFailure { field: Field::Username, reason: Reason::NotAlphanumeric })
    );
}

#[test]
fn validated_email_keeps_the_text() {
    let e = ValidatedEmail::parse("user@example.com").unwrap();
    assert_eq!(e.as_str(), "user@example.com");
}

#[test]
fn env_names() {
    assert_eq!(Env::Local.as_str(), "local");
    assert_eq!(Env::Production.as_str(), "production");
    assert_eq!(Env::from_name("LOCAL".to_string()).ok(), Some(Env::Local));
    assert_eq!(Env::from_name("Production".to_string()).ok(), Some(Env::Production));
    match Env::from_name("staging".to_string()) {
        Err(AppError::EnvError(v)) => assert_eq!(v, "staging"),
        other => panic!("unexpected {other:?}"),
    }
    assert_eq!(Env::from_lowercase("LOCAL"), None);
}

#[test]
fn sender_email_and_timeout() {
    let s = EmailClientSettings {
        email_server_url: "http://127.0.0.1".to_string(),
        sender_email: "me@example.com".to_string(),
        authorization_token: "SECRET-REDACTED".to_string(),
        timeout_seconds: 10,
    };
    assert_eq!(s.parse_email().unwrap().as_str(), "me@example.com");
    assert_eq!(s.timeout(), std::time::Duration::from_secs(10));
    let bad = EmailClientSettings { sender_email: "me".to_string(), ..s };
    assert!(matches!(
        bad.parse_email(),
        Err(AppError::ValidationError(ValidationFailure { field: Field::Email, reason: Reason::MissingAt }))
    ));
}

#[test]
fn ssl_mode_follows_settings() {
    let mut d = DatabaseSettings {
        username: "u".to_string(),
        password: "p".to_string(),
        port: 5432,
        host: "localhost".to_string(),
        require_ssl: true,
        database_name: "db".to_string(),
    };
    assert_eq!(d.ssl_mode(), SslMode::Require);
    d.require_ssl = false;
    assert_eq!(d.ssl_mode(), SslMode::Prefer);
}

#[test]
fn error_answers() {
    let v = AppError::ValidationError(ValidationFailure { field: Field::Email, reason: Reason::MissingAt });
    assert_eq!(v.status_code(), 400);
    assert_eq!(v.message(), "invalid input from validator: email has no '@'");
    let api = ApiError::from_app_error(&v);
    assert_eq!(api.code, 400);
    assert_eq!(api.message, "invalid input from validator: email has no '@'");
    let db = AppError::DbError("down".to_string());
    assert_eq!(db.status_code(), 500);
    assert_eq!(db.message(), "DB error: down");
    let api = ApiError::from_app_error(&db);
    assert_eq!(api.code, 500);
    assert_eq!(api.message, "internal server error");
    let missing = AppError::UserNotFound("x".to_string());
    assert_eq!(missing.status_code(), 400);
    assert_eq!(missing.message(), "error user not found: x");
    assert_eq!(ApiError::from_app_error(&missing).message, "error user not found: x");
    let sending = AppError::SendingRequest("timeout".to_string());
    assert_eq!(sending.status_code(), 500);
    assert_eq!(sending.message(), "error sending request: timeout");
    let unexpected = AppError::Unexpected("boom".to_string());
    assert_eq!(unexpected.status_code(), 500);
    assert_eq!(unexpected.message(), "boom");
    assert_eq!(AppError::ConfigError("c".to_string()).status_code(), 500);
    assert_eq!(AppError::EnvError("e".to_string()).status_code(), 500);
    assert_eq!(AppError::EstablishServer("s".to_string()).status_code(), 500);
    assert_eq!(
        describe_failure(&ValidationFailure { field: Field::Username, reason: Reason::Empty }),
        "username is empty"
    );
}

#[test]
fn delivery_outcomes() {
    assert!(delivery_succeeded(Some(200)));
    assert!(delivery_succeeded(Some(204)));
    assert!(!delivery_succeeded(Some(500)));
    assert!(!delivery_succeeded(Some(302)));
    assert!(!delivery_succeeded(None));
}

#[test]
fn email_client_requests() {
    let sender = ValidatedEmail::parse("me@example.com").unwrap();
    let ep = EmailClient::new("http://127.0.0.1:9000", sender, "tok");
    assert_eq!(ep.url(), "http://127.0.0.1:9000");
    assert_eq!(ep.email_url(), "http://127.0.0.1:9000/email");
    let r = ep.request("you@example.com", "Welcome!", "<p>hi</p>", "hi");
    assert_eq!(r.from, "me@example.com");
    assert_eq!(r.to, "you@example.com");
    assert_eq!(r.subject, "Welcome!");
    assert_eq!(r.html_body, "<p>hi</p>");
    assert_eq!(r.text_body, "hi");
    assert_eq!(ep.authorization_token, "tok");
}
