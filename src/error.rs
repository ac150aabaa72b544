use vstd::prelude::*;

verus! {

/// Every way in which a request is refused by this program.
#[derive(Clone, Copy, Debug, PartialEq, Eq, Structural)]
pub enum VaultError {
    /// The opcode is missing or unknown, or the amount field is truncated.
    MalformedRequest,
    /// A deposit asked for an amount of zero.
    InvalidAmount,
    /// The supplied vault address is not the one derived for the user.
    AddressMismatch,
    /// A withdrawal asked for more than the vault holds.
    InsufficientFunds,
    /// The vault account is not owned by this program.
    WrongOwner,
    /// Fewer accounts were supplied than the operation reads.
    NotEnoughAccountKeys,
    /// No bump seed yields an off-curve address for the user.
    NoViableBump,
    /// Crediting the withdrawer would exceed the largest balance.
    ArithmeticOverflow,
}

} // verus!
