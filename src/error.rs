use vstd::prelude::*;

verus! {

/// Why a lifecycle operation was refused. A refused operation has no effect.
#[derive(Clone, Copy, Debug, PartialEq, Eq, Structural)]
pub enum MyError {
    /// The presented claim-unit account is not owned by the caller.
    WrongOwner,
    /// The presented claim-unit balance is not exactly the recorded supply.
    NotEnoughShares,
    /// The item already has an active vault record.
    DuplicateVault,
    /// A supply of zero claim units was asked for.
    InvalidSupply,
    /// The claim units of this vault were already issued.
    AlreadyMinted,
    /// The vault record is released, or its claim units were never issued.
    VaultNotActive,
    /// The vault record disagrees with the addresses derived for its item.
    AuthorityMismatch,
    /// The presented claim-unit account belongs to another claim ledger.
    WrongClaimLedger,
    /// The presented item account is the custody vault itself.
    ItemInCustody,
    /// No program address could be derived for the item.
    AddressUnavailable,
    /// The item's metadata account could not be decoded.
    InvalidMetadata,
}

} // verus!
