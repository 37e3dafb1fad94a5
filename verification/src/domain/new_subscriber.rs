//! A subscription request whose fields have both passed validation.
use vstd::prelude::*;
use crate::domain::{Email, SubscriberName};

verus! {

/// A new subscriber: a valid address and a valid name.
pub struct NewSubscriber {
    pub email: Email,
    pub name: SubscriberName,
}

} // verus!
