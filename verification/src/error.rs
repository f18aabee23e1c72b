use vstd::prelude::*;

verus! {

/// Why an operation on the ledger was rejected. A rejected operation has
/// written nothing.
#[derive(Clone, Copy, Debug, PartialEq, Eq)]
pub enum Error {
    /// The caller is not the identity that the operation has to come from.
    AuthenticationFailed,
    /// A merchant record is already stored for the address.
    AlreadyRegistered,
    /// No merchant record is stored for the address.
    MerchantNotRegistered,
    /// The merchant record is stored but not active.
    MerchantInactive,
    /// No balance record is stored for the user.
    NoBalance,
    /// The user's balance is smaller than the amount to redeem.
    InsufficientPoints,
    /// A counter would leave the range of an unsigned 64-bit integer.
    Overflow,
}

} // verus!
