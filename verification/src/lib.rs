//! Newsletter subscription intake: validated subscriber data, the conversion of
//! raw form input into it, and the plain descriptions of the storage and
//! notification requests that follow an accepted subscription.

pub mod text;
pub mod domain;
pub mod secret;
pub mod config;
pub mod email_client;
pub mod routes;
pub mod configuration;
