//! A subscriber's display name, checked once at the boundary.
use vstd::prelude::*;
use crate::error::ValidationError;
use crate::text::{
    count_graphemes, grapheme_count, has_forbidden, has_forbidden_str, is_blank, is_blank_str,
    is_forbidden,
};

verus! {

/// The most grapheme clusters a name may have.
pub const MAX_NAME_GRAPHEMES: usize = 256;

/// The verdict on a name `s` of `graphemes` grapheme clusters. Length is
/// checked first, then blankness, then forbidden characters; the first rule
/// broken is the one reported.
pub open spec fn name_verdict(s: Seq<char>, graphemes: nat) -> Result<(), ValidationError> {
    if graphemes > 256 {
        Err(ValidationError::TooLong)
    } else if is_blank(s) {
        Err(ValidationError::EmptyOrWhitespace)
    } else if has_forbidden(s) {
        Err(ValidationError::ForbiddenCharacter)
    } else {
        Ok(())
    }
}

/// The verdict on the name `s`.
pub open spec fn name_outcome(s: Seq<char>) -> Result<(), ValidationError> {
    name_verdict(s, grapheme_count(s))
}

/// `s` is an acceptable subscriber name.
pub open spec fn valid_name(s: Seq<char>) -> bool {
    name_outcome(s) is Ok
}

/// A name that is not blank, has at most 256 grapheme clusters, and holds
/// none of the forbidden characters.
#[derive(Debug)]
pub struct SubscriberName(String);

impl View for SubscriberName {
    type V = Seq<char>;

    closed spec fn view(&self) -> Seq<char> {
        self.0@
    }
}

impl SubscriberName {
    #[verifier::type_invariant]
    spec fn inv(self) -> bool {
        valid_name(self.0@)
    }

    /// Checks `s` and, when it is acceptable, wraps it unchanged (it is not
    /// trimmed); otherwise reports the first rule that it breaks.
    pub fn parse(s: String) -> (r: Result<SubscriberName, ValidationError>)
        ensures
            r is Ok == valid_name(s@),
            r matches Ok(n) ==> n@ == s@,
            r matches Err(e) ==> name_outcome(s@) == Err::<(), ValidationError>(e),
    {
        let graphemes = count_graphemes(s.as_str());
        match check_name(s.as_str(), graphemes) {
            Ok(()) => Ok(SubscriberName(s)),
            Err(e) => Err(e),
        }
    }

    /// The name as text.
    pub fn as_ref(&self) -> (r: &str)
        ensures
            r@ == self@,
            valid_name(r@),
    {
        proof {
            use_type_invariant(self);
        }
        self.0.as_str()
    }
}

/// The verdict on a name `s` whose grapheme cluster count is `graphemes`.
pub fn check_name(s: &str, graphemes: usize) -> (r: Result<(), ValidationError>)
    ensures
        r == name_verdict(s@, graphemes as nat),
{
    if graphemes > MAX_NAME_GRAPHEMES {
        Err(ValidationError::TooLong)
    } else if is_blank_str(s) {
        Err(ValidationError::EmptyOrWhitespace)
    } else if has_forbidden_str(s) {
        Err(ValidationError::ForbiddenCharacter)
    } else {
        Ok(())
    }
}

/// Whether `s` would be accepted as a subscriber name.
pub fn is_valid_name(s: &str) -> (r: bool)
    ensures
        r == valid_name(s@),
{
    let graphemes = count_graphemes(s);
    check_name(s, graphemes).is_ok()
}

/// Any name of at most 256 grapheme clusters (exactly 256 included) that is
/// not blank and holds no forbidden character is accepted: the length limit
/// counts grapheme clusters, whatever their size in bytes or characters.
pub proof fn lemma_name_within_limit_accepted(s: Seq<char>)
    requires
        grapheme_count(s) <= 256,
        !is_blank(s),
        forall|i: int| 0 <= i < s.len() ==> !is_forbidden(#[trigger] s[i]),
    ensures
        name_outcome(s) is Ok,
        valid_name(s),
{
}

/// Any name of 257 or more grapheme clusters is refused as `TooLong`,
/// whatever else it holds.
pub proof fn lemma_name_over_limit_rejected(s: Seq<char>)
    requires
        grapheme_count(s) >= 257,
    ensures
        name_outcome(s) == Err::<(), ValidationError>(ValidationError::TooLong),
{
}

/// The verdict on a name depends on its text alone: two parses of equal
/// texts accept both or refuse both, with the same error.
pub proof fn lemma_name_outcome_deterministic(s1: Seq<char>, s2: Seq<char>)
    requires
        s1 == s2,
    ensures
        name_outcome(s1) == name_outcome(s2),
        valid_name(s1) == valid_name(s2),
{
}

} // verus!
