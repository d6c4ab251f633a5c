use vstd::prelude::*;

verus! {

/// An unrecoverable abort: the signal that ends an invocation abnormally.
///
/// This is a channel of its own, kept apart from [`crate::Error`]: an abort is
/// never a value that a caller decodes and branches on. The host adapter turns
/// it into an abnormal termination that carries [`Abort::message`]. The two
/// kinds stay distinguishable so that a host may report them apart.
#[derive(Clone, Copy, Debug, PartialEq, Eq, Structural)]
pub enum Abort {
    /// An abort raised unconditionally.
    Panic,
    /// An abort raised because a required condition did not hold.
    AssertionFailed,
}

impl Abort {
    /// The diagnostic message that the abort carries.
    pub open spec fn spec_message(self) -> Seq<char> {
        match self {
            Abort::Panic => "intentional panic for diagnostic testing"@,
            Abort::AssertionFailed => "assertion failed: value must be zero"@,
        }
    }

    /// Returns the diagnostic message that the abort carries.
    pub fn message(&self) -> (r: &'static str)
        ensures
            r@ == self.spec_message(),
    {
        match self {
            Abort::Panic => "intentional panic for diagnostic testing",
            Abort::AssertionFailed => "assertion failed: value must be zero",
        }
    }
}

} // verus!
