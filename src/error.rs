use vstd::prelude::*;

verus! {

/// Classified, recoverable failure reasons.
///
/// Each variant has a stable numeric discriminant, given by [`Error::code`]:
/// `InvalidInput` is 1, `Unauthorized` is 2 and `Overflow` is 3. Callers that
/// receive an error may decode it by that number with [`Error::from_code`].
#[derive(Clone, Copy, Debug, PartialEq, Eq, Structural)]
pub enum Error {
    InvalidInput,
    Unauthorized,
    Overflow,
}

impl Error {
    /// The discriminant of the variant.
    pub open spec fn spec_code(self) -> u32 {
        match self {
            Error::InvalidInput => 1,
            Error::Unauthorized => 2,
            Error::Overflow => 3,
        }
    }

    /// The variant whose discriminant is `code`, if there is one.
    pub open spec fn spec_from_code(code: u32) -> Option<Error> {
        if code == 1 {
            Some(Error::InvalidInput)
        } else if code == 2 {
            Some(Error::Unauthorized)
        } else if code == 3 {
            Some(Error::Overflow)
        } else {
            None
        }
    }

    /// Returns the stable discriminant of this error.
    pub fn code(&self) -> (r: u32)
        ensures
            r == self.spec_code(),
    {
        match self {
            Error::InvalidInput => 1,
            Error::Unauthorized => 2,
            Error::Overflow => 3,
        }
    }

    /// Decodes a discriminant; `None` for any number that no variant carries.
    pub fn from_code(code: u32) -> (r: Option<Error>)
        ensures
            r == Self::spec_from_code(code),
            r is None <==> !(1 <= code <= 3),
    {
        match code {
            1 => Some(Error::InvalidInput),
            2 => Some(Error::Unauthorized),
            3 => Some(Error::Overflow),
            _ => None,
        }
    }
}

/// Every error decodes back from its own discriminant, and the discriminants
/// are distinct and non-zero.
pub proof fn lemma_code_round_trip(e: Error)
    ensures
        Error::spec_from_code(e.spec_code()) == Some(e),
        e.spec_code() != 0,
{
}

/// A number decodes to an error exactly when it is that error's discriminant.
pub proof fn lemma_decode_inverts_code(code: u32, e: Error)
    ensures
        Error::spec_from_code(code) == Some(e) <==> e.spec_code() == code,
{
}

} // verus!
