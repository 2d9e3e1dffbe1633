//! A subscription request whose fields have both been validated.
use vstd::prelude::*;
use crate::error::ValidationError;
use crate::subscriber_email::{email_is_valid, email_outcome, SubscriberEmail};
use crate::subscriber_name::{name_outcome, valid_name, SubscriberName};

verus! {

/// The raw fields of a subscription form.
pub struct FormData {
    pub email: String,
    pub name: String,
}

/// A subscriber made of a valid name and a valid email address.
#[derive(Debug)]
pub struct NewSubscriber {
    pub email: SubscriberEmail,
    pub name: SubscriberName,
}

/// The verdict on a form with these fields: the email is checked first, and
/// its error, if any, is the one reported; otherwise the name's verdict.
pub open spec fn subscriber_outcome(name: Seq<char>, email: Seq<char>) -> Result<
    (),
    ValidationError,
> {
    match email_outcome(email) {
        Err(e) => Err(e),
        Ok(()) => name_outcome(name),
    }
}

impl NewSubscriber {
    /// Validates both fields of `value`, email first; the first error found
    /// is returned as it is.
    pub fn try_from(value: FormData) -> (r: Result<NewSubscriber, ValidationError>)
        ensures
            r is Ok == (subscriber_outcome(value.name@, value.email@) is Ok),
            r matches Ok(s) ==> s.name@ == value.name@ && s.email@ == value.email@,
            r matches Err(e) ==> subscriber_outcome(value.name@, value.email@) == Err::<
                (),
                ValidationError,
            >(e),
    {
        let email = match SubscriberEmail::parse(value.email) {
            Ok(email) => email,
            Err(e) => return Err(e),
        };
        let name = match SubscriberName::parse(value.name) {
            Ok(name) => name,
            Err(e) => return Err(e),
        };
        Ok(NewSubscriber { email, name })
    }
}

/// A rejected email decides the outcome: with any name at all, a form whose
/// email is invalid is refused with `InvalidEmailFormat`, never with an
/// error about the name.
pub proof fn lemma_invalid_email_reported(name: Seq<char>, email: Seq<char>)
    requires
        !email_is_valid(email),
    ensures
        subscriber_outcome(name, email) == Err::<(), ValidationError>(
            ValidationError::InvalidEmailFormat,
        ),
{
}

/// A form with a valid name and a valid email is accepted.
pub proof fn lemma_valid_fields_accepted(name: Seq<char>, email: Seq<char>)
    requires
        valid_name(name),
        email_is_valid(email),
    ensures
        subscriber_outcome(name, email) is Ok,
{
}

} // verus!
