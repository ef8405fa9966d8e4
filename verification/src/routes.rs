//! What the service decides when a request arrives.

pub mod subscriptions;

pub use subscriptions::{
    insert_subscriber, subscribe, FormData, IntakeState, Rejection, StorageError,
    SubscriptionRecord, SubscriptionStatus, Timestamp,
};
