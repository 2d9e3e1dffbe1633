use vstd::prelude::*;

verus! {

/// Why a raw form field was refused.
#[derive(Debug, Clone, Copy, PartialEq, Eq, Structural)]
pub enum ValidationError {
    /// The name is empty or made of whitespace only.
    EmptyOrWhitespace,
    /// The name has more than 256 grapheme clusters.
    TooLong,
    /// The name holds one of the forbidden characters.
    ForbiddenCharacter,
    /// The email address is not syntactically valid.
    InvalidEmailFormat,
}

} // verus!
