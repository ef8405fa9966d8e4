//! The validated domain model: a subscriber's name and email address, the
//! aggregate of both, and the error that says which of them was refused.

pub mod error;
pub mod new_subscriber;
pub mod subscriber_email;
pub mod subscriber_name;

pub use error::ValidationError;
pub use new_subscriber::NewSubscriber;
pub use subscriber_email::SubscriberEmail;
pub use subscriber_name::SubscriberName;
