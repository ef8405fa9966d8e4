use std::time::Duration;
use zero2prod::config::{
    ApplicationSettings, DatabaseSettings, EmailClientSettings, Environment, Settings, SslMode,
    StatementLog,
};
use zero2prod::domain::ValidationError;
use zero2prod::secret::SecretText;

fn database(require_ssl: bool) -> DatabaseSettings {
    DatabaseSettings {
        username: "postgres".to_string(),
        password: SecretText::new("password".to_string()),
        port: 5432,
        host: "127.0.0.1".to_string(),
        database_name: "newsletter".to_string(),
        require_ssl,
    }
}

fn email_client(sender_email: &str) -> EmailClientSettings {
    EmailClientSettings {
        base_url: "https://api.postmarkapp.com".to_string(),
        sender_email: sender_email.to_string(),
        auth_token: SecretText::new("my-secret-token".to_string()),
        timeout_milliseconds: 10_000,
    }
}

#[test]
fn the_environment_is_named_in_any_case() {
    assert_eq!(Environment::try_from("local".to_string()), Ok(Environment::Local));
    assert_eq!(Environment::try_from("LOCAL".to_string()), Ok(Environment::Local));
    assert_eq!(Environment::try_from("Production".to_string()), Ok(Environment::Production));
    assert_eq!(Environment::try_from("PRODUCTION".to_string()), Ok(Environment::Production));
}

#[test]
fn an_unknown_environment_is_refused_with_its_name_in_lower_case() {
    assert_eq!(
        Environment::try_from("Staging".to_string()),
        Err("staging is not supported environment. Use either `local` or `production`."
            .to_string())
    );
    assert_eq!(
        Environment::try_from("".to_string()),
        Err(" is not supported environment. Use either `local` or `production`.".to_string())
    );
    assert!(Environment::try_from(" local".to_string()).is_err());
}

#[test]
fn a_name_in_lower_case_must_match_exactly() {
    assert_eq!(Environment::from_lowercase("local".to_string()), Ok(Environment::Local));
    assert_eq!(Environment::from_lowercase("production".to_string()), Ok(Environment::Production));
    assert_eq!(
        Environment::from_lowercase("Local".to_string()),
        Err("Local is not supported environment. Use either `local` or `production`.".to_string())
    );
}

#[test]
fn an_unset_variable_selects_the_local_environment() {
    assert_eq!(Environment::from_variable(None), Ok(Environment::Local));
    assert_eq!(
        Environment::from_variable(Some("production".to_string())),
        Ok(Environment::Production)
    );
    assert!(Environment::from_variable(Some("test".to_string())).is_err());
}

#[test]
fn an_environment_names_its_settings_file() {
    assert_eq!(Environment::Local.as_str(), "local");
    assert_eq!(Environment::Production.as_str(), "production");
    assert_eq!(Environment::Local.settings_file_name(), "local.toml");
    assert_eq!(Environment::Production.settings_file_name(), "production.toml");
}

#[test]
fn options_without_a_database_carry_the_server_and_the_credentials() {
    let options = database(false).without_db();
    assert_eq!(options.host, "127.0.0.1");
    assert_eq!(options.username, "postgres");
    assert_eq!(options.password.expose_secret(), "password");
    assert_eq!(options.port, 5432);
    assert_eq!(options.ssl_mode, SslMode::Prefer);
    assert_eq!(options.database, None);
    assert_eq!(options.statement_log, StatementLog::DriverDefault);
}

#[test]
fn encryption_is_demanded_only_where_the_settings_require_it() {
    assert_eq!(database(true).without_db().ssl_mode, SslMode::Require);
    assert_eq!(database(false).without_db().ssl_mode, SslMode::Prefer);
    assert_eq!(database(true).with_db().ssl_mode, SslMode::Require);
    assert_eq!(database(false).with_db().ssl_mode, SslMode::Prefer);
}

#[test]
fn options_with_a_database_name_it_and_trace_statements() {
    let options = database(true).with_db();
    assert_eq!(options.host, "127.0.0.1");
    assert_eq!(options.username, "postgres");
    assert_eq!(options.password.expose_secret(), "password");
    assert_eq!(options.port, 5432);
    assert_eq!(options.database, Some("newsletter".to_string()));
    assert_eq!(options.statement_log, StatementLog::Trace);
}

#[test]
fn the_sender_must_be_a_valid_address() {
    let sender = email_client("test@gmail.com").sender().unwrap();
    assert_eq!(sender.as_ref(), "test@gmail.com");
    assert_eq!(
        email_client("nobody").sender().unwrap_err(),
        ValidationError::InvalidEmail("nobody".to_string())
    );
}

#[test]
fn the_timeout_is_given_in_milliseconds() {
    assert_eq!(email_client("test@gmail.com").timeout(), Duration::from_millis(10_000));
    let mut settings = email_client("test@gmail.com");
    settings.timeout_milliseconds = 1;
    assert_eq!(settings.timeout(), Duration::from_millis(1));
    settings.timeout_milliseconds = u64::MAX;
    assert_eq!(settings.timeout().as_millis(), u64::MAX as u128);
}

#[test]
fn the_address_is_host_and_port() {
    let application = ApplicationSettings { port: 8000, host: "127.0.0.1".to_string() };
    assert_eq!(application.address(), "127.0.0.1:8000");
    let application = ApplicationSettings { port: 0, host: "0.0.0.0".to_string() };
    assert_eq!(application.address(), "0.0.0.0:0");
    let application = ApplicationSettings { port: 65535, host: "localhost".to_string() };
    assert_eq!(application.address(), "localhost:65535");
}

#[test]
fn settings_are_copied_field_by_field() {
    let settings = Settings {
        database: database(true),
        application: ApplicationSettings { port: 8000, host: "127.0.0.1".to_string() },
        email_client: email_client("test@gmail.com"),
    };
    let copy = settings.clone();
    assert_eq!(copy.database.username, "postgres");
    assert_eq!(copy.database.password.expose_secret(), "password");
    assert_eq!(copy.database.port, 5432);
    assert_eq!(copy.database.host, "127.0.0.1");
    assert_eq!(copy.database.database_name, "newsletter");
    assert!(copy.database.require_ssl);
    assert_eq!(copy.application.port, 8000);
    assert_eq!(copy.application.host, "127.0.0.1");
    assert_eq!(copy.email_client.base_url, "https://api.postmarkapp.com");
    assert_eq!(copy.email_client.sender_email, "test@gmail.com");
    assert_eq!(copy.email_client.auth_token.expose_secret(), "my-secret-token");
    assert_eq!(copy.email_client.timeout_milliseconds, 10_000);
}

#[test]
fn a_secret_guards_its_text_and_hides_it_from_debug_output() {
    let secret = SecretText::new("my-secret-token".to_string());
    assert_eq!(secret.expose_secret(), "my-secret-token");
    assert_eq!(secret.clone().expose_secret(), "my-secret-token");
    assert!(!format!("{:?}", secret).contains("my-secret-token"));
    assert!(!format!("{:?}", database(true)).contains("password\""));
}
