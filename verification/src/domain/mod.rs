//! Validated values that make up a new subscription.
pub mod subscriber_name;
pub mod subscriber_email;
pub mod new_subscriber;

pub use subscriber_name::SubscriberName;
pub use subscriber_email::Email;
pub use new_subscriber::NewSubscriber;
