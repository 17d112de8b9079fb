//! The reasons an operation is refused.

use vstd::prelude::*;

verus! {

/// Why an operation was refused. A refused operation changes nothing.
#[derive(Clone, Copy, Debug, PartialEq, Eq, Structural)]
pub enum EscrowError {
    /// The record or account is not there: never opened, or already closed.
    NotFound,
    /// A live record already stands at the address of this maker and seed.
    AlreadyExists,
    /// The amount asked in return is zero.
    InvalidAmount,
    /// No bump derives an address for this maker and seed.
    DerivationFailed,
    /// An asset supplied is not the one the record or the account names.
    WrongMint,
    /// An account supplied belongs to another owner than it should, or the
    /// record's address is also that of a party.
    WrongOwner,
    /// The maker supplied is not the one the record names.
    WrongMaker,
    /// The record's maker, seed and bump do not re-derive its address.
    AddressMismatch,
    /// The authority did not sign, or its seeds do not re-derive it.
    Unauthorized,
    /// The paying holding account holds less than the amount.
    InsufficientBalance,
    /// The wallet cannot pay the custodial deposit.
    InsufficientFunds,
    /// A balance would exceed what an account can hold.
    Overflow,
    /// The holding account to close still holds a balance.
    NotEmpty,
}

} // verus!
