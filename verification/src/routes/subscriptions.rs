//! Subscribing to the newsletter.
use vstd::prelude::*;
use crate::domain::{Email, NewSubscriber, SubscriberName};
use crate::domain::subscriber_email::{email_error, is_valid_email};
use crate::domain::subscriber_name::{is_valid_name, name_error};
use crate::routes::status::ResponseStatus;
use vstd::std_specs::convert::TryFromSpecImpl;

verus! {

/// The form a visitor posts to subscribe.
pub struct SubscribeForm {
    pub name: String,
    pub email: String,
}

/// What a form turns into: the subscriber with the given address and name, or
/// the message of the first field refused (the address is checked first).
pub open spec fn new_subscriber_outcome(email: Seq<char>, name: Seq<char>) -> Result<(Seq<char>, Seq<char>), Seq<char>> {
    if !is_valid_email(email) {
        Err(email_error(email))
    } else if !is_valid_name(name) {
        Err(name_error(name))
    } else {
        Ok((email, name))
    }
}

/// A form is accepted exactly when its address and its name are each accepted on
/// their own (as `Email::parse` and `SubscriberName::parse` accept them), and then
/// both are kept unchanged; a refused address is reported first, else the name.
pub proof fn lemma_form_accepted_iff_fields_valid(email: Seq<char>, name: Seq<char>)
    ensures
        new_subscriber_outcome(email, name) is Ok <==> is_valid_email(email) && is_valid_name(name),
        is_valid_email(email) && is_valid_name(name) ==> new_subscriber_outcome(email, name)
            == Ok::<(Seq<char>, Seq<char>), Seq<char>>((email, name)),
        !is_valid_email(email) ==> new_subscriber_outcome(email, name) == Err::<
            (Seq<char>, Seq<char>),
            Seq<char>,
        >(email + " is not a valid subscriber email."@),
        is_valid_email(email) && !is_valid_name(name) ==> new_subscriber_outcome(email, name)
            == Err::<(Seq<char>, Seq<char>), Seq<char>>(name + " is not a valid subscriber name."@),
{
}

impl TryFrom<SubscribeForm> for NewSubscriber {
    type Error = String;

    /// Validates both fields of a form.
    fn try_from(value: SubscribeForm) -> (r: Result<NewSubscriber, String>)
        ensures
            match (r, new_subscriber_outcome(value.email@, value.name@)) {
                (Ok(s), Ok((e, n))) => s.email@ == e && s.name@ == n,
                (Err(m), Err(t)) => m@ == t,
                _ => false,
            },
    {
        let email = match Email::parse(value.email) {
            Ok(e) => e,
            Err(m) => return Err(m),
        };
        let name = match SubscriberName::parse(value.name) {
            Ok(n) => n,
            Err(m) => return Err(m),
        };
        Ok(NewSubscriber { email: email, name: name })
    }
}

/// The trait-level reading of a form. A `String` is known here only through its
/// view, so no claim is made at the level of the trait (`obeys_try_from_spec` is
/// `false`); the impl's own `ensures` above state the result.
impl TryFromSpecImpl<SubscribeForm> for NewSubscriber {
    open spec fn obeys_try_from_spec() -> bool {
        false
    }

    open spec fn try_from_spec(v: SubscribeForm) -> Result<NewSubscriber, String> {
        match new_subscriber_outcome(v.email@, v.name@) {
            Ok((e, n)) => Ok(choose|s: NewSubscriber| s.email@ == e && s.name@ == n),
            Err(msg) => Err(choose|m: String| m@ == msg),
        }
    }
}

/// The next step of a subscription request.
pub enum SubscribeStep {
    /// Store this subscriber, then answer as `subscription_stored` says.
    Store(NewSubscriber),
    /// Answer at once with this status.
    Respond(ResponseStatus),
}

/// The first decision on a posted form: a form that does not validate is answered
/// `400 Bad Request`; a valid one is to be stored.
pub fn subscribe(form: SubscribeForm) -> (r: SubscribeStep)
    ensures
        match (r, new_subscriber_outcome(form.email@, form.name@)) {
            (SubscribeStep::Store(s), Ok((e, n))) => s.email@ == e && s.name@ == n,
            (SubscribeStep::Respond(st), Err(_)) => st == ResponseStatus::BadRequest,
            _ => false,
        },
{
    match NewSubscriber::try_from(form) {
        Ok(s) => SubscribeStep::Store(s),
        Err(_) => SubscribeStep::Respond(ResponseStatus::BadRequest),
    }
}

/// The answer once storing was tried: `200 OK` when the subscriber was stored,
/// `500 Internal Server Error` when the database refused.
pub fn subscription_stored(stored: bool) -> (r: ResponseStatus)
    ensures
        stored ==> r == ResponseStatus::Success,
        !stored ==> r == ResponseStatus::InternalServerError,
{
    if stored {
        ResponseStatus::Success
    } else {
        ResponseStatus::InternalServerError
    }
}

/// The row that stores a subscriber.
pub struct SubscriptionRecord {
    pub subscription_id: u128,
    pub email: String,
    pub name: String,
}

/// An identifier laid out as a version-7 UUID with the RFC 4122 variant, read as a
/// big-endian 128-bit number: version nibble `7`, variant bits `10`.
pub open spec fn is_uuid_v7(id: u128) -> bool {
    &&& (id >> 76u128) & 0xfu128 == 7u128
    &&& (id >> 62u128) & 0x3u128 == 2u128
}

/// Issues the identifiers of stored subscriptions, each greater than the last one
/// it issued: an identifier that is not is held back, never handed out.
pub struct SubscriptionIds {
    last: u128,
}

impl SubscriptionIds {
    /// The last identifier issued, or 0 before the first one.
    pub closed spec fn last_issued(self) -> u128 {
        self.last
    }

    /// A source that has issued nothing yet.
    pub fn new() -> (r: SubscriptionIds)
        ensures
            r.last_issued() == 0,
    {
        SubscriptionIds { last: 0 }
    }

    /// Issues `id` when it is greater than the last identifier issued; holds it back
    /// otherwise.
    pub fn issue(&mut self, id: u128) -> (r: Option<u128>)
        ensures
            old(self).last_issued() < id ==> r == Some(id) && final(self).last_issued() == id,
            id <= old(self).last_issued() ==> r is None && final(self).last_issued()
                == old(self).last_issued(),
    {
        if self.last < id {
            self.last = id;
            Some(id)
        } else {
            None
        }
    }

    /// A fresh identifier with version-7 layout, greater than every identifier this
    /// source issued before; `None`, with nothing issued, when the clock-based
    /// identifier made now is not greater than the last one. A source that has
    /// issued nothing yet always issues.
    pub fn next_id(&mut self) -> (r: Option<u128>)
        ensures
            old(self).last_issued() <= final(self).last_issued(),
            old(self).last_issued() == 0 ==> r is Some,
            old(self).last_issued() < MIN_UUID_V7 ==> r is Some,
            r matches Some(id) ==> is_uuid_v7(id) && old(self).last_issued() < id
                && final(self).last_issued() == id,
            r is None ==> final(self).last_issued() == old(self).last_issued(),
    {
        let id = new_subscription_id();
        proof {
            lemma_uuid_v7_positive(id);
        }
        self.issue(id)
    }
}

/// The least number with version-7 layout: version nibble 7, variant bits `10`,
/// every other bit clear.
pub const MIN_UUID_V7: u128 = 0x0000_0000_0000_7000_8000_0000_0000_0000u128;

/// An identifier with version-7 layout is at least `MIN_UUID_V7`, so not 0.
pub proof fn lemma_uuid_v7_positive(id: u128)
    requires
        is_uuid_v7(id),
    ensures
        MIN_UUID_V7 <= id,
        0 < id,
{
    assert(((id >> 76u128) & 0xfu128 == 7u128 && (id >> 62u128) & 0x3u128 == 2u128) ==> 0x0000_0000_0000_7000_8000_0000_0000_0000u128 <= id) by (bit_vector);
}

/// Calls `uuid::Uuid::now_v7` and reads the result with `Uuid::as_u128`.
///
/// Trusted: the identifier depends on the clock and on random bytes, so only its
/// layout is stated: `encode_unix_timestamp_millis` in the uuid source sets the
/// version nibble to 7 and the variant bits to `10`, and `as_u128` reads the bytes
/// big-endian. Its order against earlier identifiers is not stated here; callers
/// check it.
#[verifier::external_body]
fn new_subscription_id() -> (id: u128)
    ensures
        is_uuid_v7(id),
{
    uuid::Uuid::now_v7().as_u128()
}

impl NewSubscriber {
    /// The row to insert for this subscriber, under a fresh identifier from `ids`,
    /// greater than every identifier `ids` issued before; `None` when `ids` holds
    /// the identifier back (see `SubscriptionIds::next_id`).
    pub fn record(&self, ids: &mut SubscriptionIds) -> (r: Option<SubscriptionRecord>)
        ensures
            old(ids).last_issued() <= final(ids).last_issued(),
            old(ids).last_issued() == 0 ==> r is Some,
            old(ids).last_issued() < MIN_UUID_V7 ==> r is Some,
            r matches Some(rec) ==> {
                &&& rec.email@ == self.email@
                &&& rec.name@ == self.name@
                &&& is_uuid_v7(rec.subscription_id)
                &&& old(ids).last_issued() < rec.subscription_id
                &&& final(ids).last_issued() == rec.subscription_id
            },
            r is None ==> final(ids).last_issued() == old(ids).last_issued(),
    {
        match ids.next_id() {
            Some(id) => Some(
                SubscriptionRecord {
                    subscription_id: id,
                    email: String::from_str(self.email.as_ref()),
                    name: String::from_str(self.name.as_ref()),
                },
            ),
            None => None,
        }
    }
}

} // verus!
