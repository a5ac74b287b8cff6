//! The recoverable conditions the state modules report. None of them
//! mutates state when raised: the failing operation leaves its module
//! exactly as it found it.

use vstd::prelude::*;

verus! {

/// A condition a state-transition operation can report instead of
/// committing a change.
#[derive(Clone, Copy, Debug, PartialEq, Eq, Structural)]
pub enum StateError {
    /// A transfer would subtract more than the sender holds.
    InsufficientFunds,
    /// A transfer would push the recipient's balance past the numeric range.
    Overflow,
    /// An account's transaction counter has exhausted its numeric range.
    NonceOverflow,
    /// The block height has exhausted its numeric range.
    BlockNumberOverflow,
}

impl StateError {
    /// A short human-readable description of the condition.
    pub fn message(&self) -> (r: &'static str)
        ensures
            *self == StateError::InsufficientFunds ==> r@ == "Not enough funds."@,
            *self == StateError::Overflow ==> r@ == "Overflow"@,
            *self == StateError::NonceOverflow ==> r@ == "Nonce overflow"@,
            *self == StateError::BlockNumberOverflow ==> r@ == "Block number overflow"@,
    {
        match self {
            StateError::InsufficientFunds => "Not enough funds.",
            StateError::Overflow => "Overflow",
            StateError::NonceOverflow => "Nonce overflow",
            StateError::BlockNumberOverflow => "Block number overflow",
        }
    }
}

} // verus!
