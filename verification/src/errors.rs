//! Why an instruction was refused.

use vstd::prelude::*;

verus! {

/// The reasons for which an instruction is refused. Whatever the reason, the
/// accounts are left as they were.
#[derive(Clone, Copy, Debug, PartialEq, Eq, Structural)]
pub enum SolAnonError {
    /// The signer is not the inbox's administrator, or sends a whitelisted
    /// message without a whitelist entry of its own.
    PermissionDenied,
    /// The accounts do not fit the instruction: the slot is not the one that
    /// the counter names, the whitelisted counter has caught up with the free
    /// counter, or an account that must exist is missing (or one that must not
    /// exist is there).
    InvariantViolation,
    /// The slot to be opened has been opened already. The sender reads the
    /// counter again and sends anew.
    ConcurrencyConflict,
    /// An amount is beyond the balance it would be taken from: a payer cannot
    /// cover what is due, or the deposit due is more than any balance holds.
    AccountingUnderflow,
}

} // verus!
