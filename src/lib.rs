//! Validated domain values for newsletter subscriptions.
//!
//! A subscriber name or email reaches the rest of the program only through a
//! parse step that checks it once; after that the value is immutable and its
//! invariant travels with its type.

pub mod error;
pub mod text;
pub mod subscriber_name;
pub mod subscriber_email;
pub mod new_subscriber;

pub use error::ValidationError;
pub use subscriber_name::{is_valid_name, SubscriberName};
pub use subscriber_email::SubscriberEmail;
pub use new_subscriber::{FormData, NewSubscriber};
