use vstd::prelude::*;

verus! {

/// Why an instruction was rejected. A rejected instruction changes nothing.
#[derive(Clone, Copy, Debug, PartialEq, Eq, Structural)]
pub enum ErrorCode {
    /// A multiplication overflowed or a count would go below zero.
    ArithmeticError,
    /// A basis-point rate exceeds 10000, or leaves no room for the other party's fee.
    FeeOutOfRange,
    /// A signer, a linkage between records, a status, a count or a holding is not as required.
    ConstraintViolation,
}

} // verus!
