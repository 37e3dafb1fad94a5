//! The decisions of the HTTP handlers; the handlers themselves live with the server.
pub mod status;
pub mod healthz;
pub mod subscriptions;

pub use status::ResponseStatus;
pub use healthz::healthz;
pub use subscriptions::{subscribe, subscription_stored, SubscribeForm, SubscribeStep};
