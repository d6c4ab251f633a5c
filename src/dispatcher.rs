use vstd::prelude::*;

use crate::abort::Abort;
use crate::error::Error;

verus! {

/// The outcome of [`ErrorTriggerContract::trigger_panic`]: always the
/// unconditional abort.
pub open spec fn panic_outcome() -> Abort {
    Abort::Panic
}

/// The outcome of [`ErrorTriggerContract::trigger_assert`]: normal completion
/// for zero, the failed-condition abort for every other value.
pub open spec fn assert_outcome(value: u32) -> Result<(), Abort> {
    if value == 0 {
        Ok(())
    } else {
        Err(Abort::AssertionFailed)
    }
}

/// The outcome of [`ErrorTriggerContract::trigger_custom_error`]: codes 1, 2
/// and 3 fail with `InvalidInput`, `Unauthorized` and `Overflow`; every other
/// code is returned unchanged.
pub open spec fn classified_outcome(code: u32) -> Result<u32, Error> {
    if code == 1 {
        Err(Error::InvalidInput)
    } else if code == 2 {
        Err(Error::Unauthorized)
    } else if code == 3 {
        Err(Error::Overflow)
    } else {
        Ok(code)
    }
}

/// The diagnostic dispatcher. It holds no state: each operation is a function
/// of its argument alone.
#[derive(Clone, Copy, Debug, PartialEq, Eq, Structural)]
pub struct ErrorTriggerContract;

impl ErrorTriggerContract {
    /// Always ends the invocation with the unconditional abort, whose message
    /// is "intentional panic for diagnostic testing". There is no normal
    /// result: the only value handed back is the abort itself.
    pub fn trigger_panic() -> (r: Abort)
        ensures
            r == panic_outcome(),
            r.spec_message() == "intentional panic for diagnostic testing"@,
    {
        Abort::Panic
    }

    /// Completes normally when `value` is zero; otherwise ends the invocation
    /// with the failed-condition abort, whose message is
    /// "assertion failed: value must be zero".
    pub fn trigger_assert(value: u32) -> (r: Result<(), Abort>)
        ensures
            r == assert_outcome(value),
            r is Ok <==> value == 0,
            r matches Err(a) ==> a.spec_message() == "assertion failed: value must be zero"@,
    {
        if value == 0 {
            Ok(())
        } else {
            Err(Abort::AssertionFailed)
        }
    }

    /// Fails with a classified error for codes 1, 2 and 3, and returns every
    /// other code unchanged.
    pub fn trigger_custom_error(code: u32) -> (r: Result<u32, Error>)
        ensures
            r == classified_outcome(code),
            code == 1 ==> r == Err::<u32, Error>(Error::InvalidInput),
            code == 2 ==> r == Err::<u32, Error>(Error::Unauthorized),
            code == 3 ==> r == Err::<u32, Error>(Error::Overflow),
            !(1 <= code <= 3) ==> r == Ok::<u32, Error>(code),
    {
        match code {
            1 => Err(Error::InvalidInput),
            2 => Err(Error::Unauthorized),
            3 => Err(Error::Overflow),
            _ => Ok(code),
        }
    }
}

/// A classified failure is an ordinary, decodable value: for each code that
/// fails, the error returned carries that code as its discriminant and decodes
/// back from it. No code in that range leads to an abort, whose type the
/// operation cannot return.
pub proof fn lemma_classified_error_decodable(code: u32)
    requires
        1 <= code <= 3,
    ensures
        classified_outcome(code) matches Err(e) && e.spec_code() == code
            && Error::spec_from_code(code) == Some(e),
{
}

/// Every operation is a function of its input alone: equal inputs give equal
/// outcomes, however often the operation is invoked.
pub proof fn lemma_outcomes_deterministic(a: u32, b: u32)
    requires
        a == b,
    ensures
        assert_outcome(a) == assert_outcome(b),
        classified_outcome(a) == classified_outcome(b),
{
}

} // verus!
