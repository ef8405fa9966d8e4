//! The service's settings: where it listens, which database it talks to, how
//! it reaches the email provider, and the environment that selects a
//! settings file.

use crate::domain::error::ValidationError;
use crate::domain::subscriber_email::{has_address_shape, is_valid_email, SubscriberEmail};
use crate::secret::SecretText;
use crate::text::{decimal, same_text, to_decimal};
use std::time::Duration;
use vstd::prelude::*;
use vstd::string::StringExecFns;

verus! {

/// All settings of the service.
#[derive(Debug)]
pub struct Settings {
    pub database: DatabaseSettings,
    pub application: ApplicationSettings,
    pub email_client: EmailClientSettings,
}

/// How to reach the database.
#[derive(Debug)]
pub struct DatabaseSettings {
    pub username: String,
    pub password: SecretText,
    pub port: u16,
    pub host: String,
    pub database_name: String,
    pub require_ssl: bool,
}

/// Where the service listens.
#[derive(Debug)]
pub struct ApplicationSettings {
    pub port: u16,
    pub host: String,
}

/// The environment the service runs in.
#[derive(Debug, Clone, Copy, PartialEq, Eq, Structural)]
pub enum Environment {
    Local,
    Production,
}

/// How to reach the email provider.
#[derive(Debug)]
pub struct EmailClientSettings {
    pub base_url: String,
    pub sender_email: String,
    pub auth_token: SecretText,
    pub timeout_milliseconds: u64,
}

/// Whether an encrypted connection to the database is demanded or only
/// preferred.
#[derive(Debug, Clone, Copy, PartialEq, Eq, Structural)]
pub enum SslMode {
    Prefer,
    Require,
}

/// At which level the statements sent to the database are logged.
#[derive(Debug, Clone, Copy, PartialEq, Eq, Structural)]
pub enum StatementLog {
    /// The level the database driver uses unless told otherwise.
    DriverDefault,
    Trace,
}

/// The options of one connection to a PostgreSQL server, as plain values.
#[derive(Debug)]
pub struct ConnectOptions {
    pub host: String,
    pub username: String,
    pub password: SecretText,
    pub port: u16,
    pub ssl_mode: SslMode,
    /// The database to connect to; `None` for the server's default.
    pub database: Option<String>,
    pub statement_log: StatementLog,
}

/// The length of `d` in whole milliseconds.
pub uninterp spec fn whole_milliseconds(d: Duration) -> nat;

/// Makes a duration with `Duration::from_millis`, which creates a duration
/// of the given number of milliseconds.
#[verifier::external_body]
fn duration_from_millis(milliseconds: u64) -> (d: Duration)
    ensures
        whole_milliseconds(d) == milliseconds,
{
    Duration::from_millis(milliseconds)
}

impl Clone for ApplicationSettings {
    fn clone(&self) -> (copy: ApplicationSettings)
        ensures
            copy == *self,
    {
        ApplicationSettings { port: self.port, host: self.host.clone() }
    }
}

impl DatabaseSettings {
    /// Whether `other` holds the same settings, the guarded password
    /// compared by its text.
    pub open spec fn same_as(self, other: DatabaseSettings) -> bool {
        &&& self.username == other.username
        &&& self.password@ == other.password@
        &&& self.port == other.port
        &&& self.host == other.host
        &&& self.database_name == other.database_name
        &&& self.require_ssl == other.require_ssl
    }
}

impl Clone for DatabaseSettings {
    fn clone(&self) -> (copy: DatabaseSettings)
        ensures
            copy.same_as(*self),
    {
        DatabaseSettings {
            username: self.username.clone(),
            password: self.password.clone(),
            port: self.port,
            host: self.host.clone(),
            database_name: self.database_name.clone(),
            require_ssl: self.require_ssl,
        }
    }
}

impl EmailClientSettings {
    /// Whether `other` holds the same settings, the guarded token compared
    /// by its text.
    pub open spec fn same_as(self, other: EmailClientSettings) -> bool {
        &&& self.base_url == other.base_url
        &&& self.sender_email == other.sender_email
        &&& self.auth_token@ == other.auth_token@
        &&& self.timeout_milliseconds == other.timeout_milliseconds
    }
}

impl Clone for EmailClientSettings {
    fn clone(&self) -> (copy: EmailClientSettings)
        ensures
            copy.same_as(*self),
    {
        EmailClientSettings {
            base_url: self.base_url.clone(),
            sender_email: self.sender_email.clone(),
            auth_token: self.auth_token.clone(),
            timeout_milliseconds: self.timeout_milliseconds,
        }
    }
}

impl Clone for Settings {
    fn clone(&self) -> (copy: Settings)
        ensures
            copy.database.same_as(self.database),
            copy.application == self.application,
            copy.email_client.same_as(self.email_client),
    {
        Settings {
            database: self.database.clone(),
            application: self.application.clone(),
            email_client: self.email_client.clone(),
        }
    }
}

impl EmailClientSettings {
    /// The sender's address, if the configured text is a valid email address.
    pub fn sender(&self) -> (res: Result<SubscriberEmail, ValidationError>)
        ensures
            res is Ok <==> is_valid_email(self.sender_email@),
            !has_address_shape(self.sender_email@) ==> res is Err,
            res matches Ok(email) ==> email@ == self.sender_email@,
            res matches Err(e) ==> e is InvalidEmail && e.input() == self.sender_email@,
    {
        SubscriberEmail::parse(self.sender_email.clone())
    }

    /// How long a request to the email provider may take.
    pub fn timeout(&self) -> (d: Duration)
        ensures
            whole_milliseconds(d) == self.timeout_milliseconds,
    {
        duration_from_millis(self.timeout_milliseconds)
    }
}

impl DatabaseSettings {
    /// The encryption the settings ask for: demanded if `require_ssl` is set,
    /// preferred otherwise.
    pub open spec fn ssl_mode(self) -> SslMode {
        if self.require_ssl {
            SslMode::Require
        } else {
            SslMode::Prefer
        }
    }

    /// Options for a connection to the server without naming a database.
    pub fn without_db(&self) -> (options: ConnectOptions)
        ensures
            options.host@ == self.host@,
            options.username@ == self.username@,
            options.password@ == self.password@,
            options.port == self.port,
            options.ssl_mode == self.ssl_mode(),
            options.database is None,
            options.statement_log == StatementLog::DriverDefault,
    {
        let ssl_mode = if self.require_ssl {
            SslMode::Require
        } else {
            SslMode::Prefer
        };
        ConnectOptions {
            host: self.host.clone(),
            username: self.username.clone(),
            password: self.password.clone(),
            port: self.port,
            ssl_mode,
            database: None,
            statement_log: StatementLog::DriverDefault,
        }
    }

    /// Options for a connection to the configured database, with statements
    /// logged at trace level.
    pub fn with_db(&self) -> (options: ConnectOptions)
        ensures
            options.host@ == self.host@,
            options.username@ == self.username@,
            options.password@ == self.password@,
            options.port == self.port,
            options.ssl_mode == self.ssl_mode(),
            options.database matches Some(name) && name@ == self.database_name@,
            options.statement_log == StatementLog::Trace,
    {
        let mut options = self.without_db();
        options.database = Some(self.database_name.clone());
        options.statement_log = StatementLog::Trace;
        options
    }
}

impl ApplicationSettings {
    /// The address to listen on: the host, a colon, the port in decimal.
    pub open spec fn address_text(self) -> Seq<char> {
        self.host@ + seq![':'] + decimal(self.port as nat)
    }

    /// The address to listen on.
    pub fn address(&self) -> (text: String)
        ensures
            text@ == self.address_text(),
    {
        proof {
            reveal_strlit(":");
        }
        let mut text = self.host.clone();
        text.append(":");
        let port = to_decimal(self.port as u64);
        text.append(port.as_str());
        assert(text@ =~= self.address_text());
        text
    }
}

/// `s` in lower case, as Unicode defines it.
pub uninterp spec fn lowercase_of(s: Seq<char>) -> Seq<char>;

/// Lowers the case of `s` with `str::to_lowercase`. The result is a function
/// of the text alone and goes by the name [`lowercase_of`].
#[verifier::external_body]
fn to_lowercase(s: &str) -> (lowered: String)
    ensures
        lowered@ == lowercase_of(s@),
{
    s.to_lowercase()
}

/// What follows the refused text in the error of
/// [`Environment::from_lowercase`].
pub open spec fn unsupported_environment() -> Seq<char> {
    " is not supported environment. Use either `local` or `production`."@
}

impl Environment {
    /// The environment's name.
    pub open spec fn name(self) -> Seq<char> {
        match self {
            Environment::Local => "local"@,
            Environment::Production => "production"@,
        }
    }

    /// The environment's name: `local` or `production`.
    pub fn as_str(&self) -> (text: &'static str)
        ensures
            text@ == self.name(),
    {
        match self {
            Environment::Local => "local",
            Environment::Production => "production",
        }
    }

    /// The settings file of the environment: its name followed by `.toml`.
    pub fn settings_file_name(&self) -> (file: String)
        ensures
            file@ == self.name() + ".toml"@,
    {
        self.as_str().to_owned().concat(".toml")
    }

    /// What [`Environment::from_lowercase`] returns for `lowered`.
    pub open spec fn named(lowered: Seq<char>) -> Option<Environment> {
        if lowered == "local"@ {
            Some(Environment::Local)
        } else if lowered == "production"@ {
            Some(Environment::Production)
        } else {
            None
        }
    }

    /// The environment that a text in lower case names. The text must be
    /// exactly `local` or `production`; any other is refused with a sentence
    /// that begins with it.
    pub fn from_lowercase(lowered: String) -> (res: Result<Environment, String>)
        ensures
            match Environment::named(lowered@) {
                Some(environment) => res == Ok::<Environment, String>(environment),
                None => res matches Err(message) && message@ == lowered@
                    + unsupported_environment(),
            },
    {
        if same_text(lowered.as_str(), "local") {
            Ok(Environment::Local)
        } else if same_text(lowered.as_str(), "production") {
            Ok(Environment::Production)
        } else {
            Err(lowered.concat(" is not supported environment. Use either `local` or `production`."))
        }
    }

    /// The environment that `value` names, whatever its case.
    pub fn try_from(value: String) -> (res: Result<Environment, String>)
        ensures
            match Environment::named(lowercase_of(value@)) {
                Some(environment) => res == Ok::<Environment, String>(environment),
                None => res matches Err(message) && message@ == lowercase_of(value@)
                    + unsupported_environment(),
            },
    {
        Environment::from_lowercase(to_lowercase(value.as_str()))
    }

    /// The environment that the value of the environment variable selects:
    /// the one it names, whatever its case, and `local` when the variable is
    /// not set.
    pub fn from_variable(value: Option<String>) -> (res: Result<Environment, String>)
        ensures
            value is None ==> res == Ok::<Environment, String>(Environment::Local),
            value matches Some(text) ==> match Environment::named(lowercase_of(text@)) {
                Some(environment) => res == Ok::<Environment, String>(environment),
                None => res matches Err(message) && message@ == lowercase_of(text@)
                    + unsupported_environment(),
            },
    {
        match value {
            None => Ok(Environment::Local),
            Some(text) => Environment::try_from(text),
        }
    }
}

} // verus!
