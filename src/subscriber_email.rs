//! A subscriber's email address, checked once at the boundary.
use vstd::prelude::*;
use crate::error::ValidationError;

verus! {

/// Whether `s` is a syntactically valid email address, by the grammar that
/// the `validator` crate implements.
pub uninterp spec fn email_is_valid(s: Seq<char>) -> bool;

/// Relies on validator::validate_email: a verdict that depends on the text
/// alone, and that refuses any text without an `@`.
#[verifier::external_body]
fn validate_email_syntax(s: &str) -> (r: bool)
    ensures
        r == email_is_valid(s@),
        r ==> s@.contains('@'),
{
    validator::validate_email(s)
}

/// The verdict on the email address `s`.
pub open spec fn email_outcome(s: Seq<char>) -> Result<(), ValidationError> {
    if email_is_valid(s) {
        Ok(())
    } else {
        Err(ValidationError::InvalidEmailFormat)
    }
}

/// A syntactically valid email address.
#[derive(Debug)]
pub struct SubscriberEmail(String);

impl View for SubscriberEmail {
    type V = Seq<char>;

    closed spec fn view(&self) -> Seq<char> {
        self.0@
    }
}

impl SubscriberEmail {
    #[verifier::type_invariant]
    spec fn inv(self) -> bool {
        email_is_valid(self.0@)
    }

    /// Checks `s` and, when it is a valid address, wraps it unchanged.
    pub fn parse(s: String) -> (r: Result<SubscriberEmail, ValidationError>)
        ensures
            r is Ok == email_is_valid(s@),
            r matches Ok(e) ==> e@ == s@,
            r matches Err(e) ==> e == ValidationError::InvalidEmailFormat,
    {
        if validate_email_syntax(s.as_str()) {
            Ok(SubscriberEmail(s))
        } else {
            Err(ValidationError::InvalidEmailFormat)
        }
    }

    /// The address as text.
    pub fn as_ref(&self) -> (r: &str)
        ensures
            r@ == self@,
            email_is_valid(r@),
    {
        proof {
            use_type_invariant(self);
        }
        self.0.as_str()
    }
}

} // verus!
