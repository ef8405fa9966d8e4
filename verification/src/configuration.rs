//! Settings in their flat form: one port for the service and the database
//! named by a connection string.

use crate::text::{decimal, to_decimal};
use vstd::prelude::*;
use vstd::string::StringExecFns;

verus! {

/// The settings of the service.
#[derive(Debug)]
pub struct Settings {
    pub database: DatabaseSettings,
    pub application_port: u16,
}

/// How to reach the database.
#[derive(Debug)]
pub struct DatabaseSettings {
    pub username: String,
    pub password: String,
    pub port: u16,
    pub host: String,
    pub database_name: String,
}

impl DatabaseSettings {
    /// The connection string of the database:
    /// `postgres://` user `:` password `@` host `:` port `/` database.
    pub open spec fn connection_text(self) -> Seq<char> {
        "postgres://"@ + self.username@ + seq![':'] + self.password@ + seq!['@'] + self.host@
            + seq![':'] + decimal(self.port as nat) + seq!['/'] + self.database_name@
    }

    /// The connection string of the database.
    pub fn connection_string(&self) -> (text: String)
        ensures
            text@ == self.connection_text(),
    {
        proof {
            reveal_strlit(":");
            reveal_strlit("@");
            reveal_strlit("/");
        }
        let mut text = "postgres://".to_owned();
        text.append(self.username.as_str());
        text.append(":");
        text.append(self.password.as_str());
        text.append("@");
        text.append(self.host.as_str());
        text.append(":");
        let port = to_decimal(self.port as u64);
        text.append(port.as_str());
        text.append("/");
        text.append(self.database_name.as_str());
        assert(text@ =~= self.connection_text());
        text
    }
}

} // verus!
