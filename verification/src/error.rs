use vstd::prelude::*;

verus! {

/// Which stored field of a record a supplied account disagreed with.
#[derive(Clone, Copy, Debug, PartialEq, Eq)]
pub enum BindingError {
    /// The supplied maker is not the maker the record names.
    Maker,
    /// The supplied first asset type is not the one the record names.
    MintA,
    /// The supplied second asset type is not the one the record names.
    MintB,
    /// The vault is not controlled by the record's own address.
    VaultAuthority,
    /// The vault does not hold the record's first asset type.
    VaultMint,
}

/// Why the asset ledger turned an action down.
#[derive(Clone, Copy, Debug, PartialEq, Eq)]
pub enum LedgerError {
    /// No holding account lives at an address the action names.
    AccountNotFound,
    /// An account other than a bare wallet already lives at the address to be allocated.
    AccountInUse,
    /// A holding account is of another asset type than the action names.
    MintMismatch,
    /// The authority presented does not control the account.
    InvalidAuthority,
    /// The source holds less than the amount to move.
    InsufficientFunds,
    /// The destination's balance would leave the 64-bit range.
    Overflow,
    /// A holding account that still holds assets cannot be closed.
    NonEmpty,
    /// The payer is no wallet that holds the storage deposit.
    InsufficientDeposit,
    /// An account's storage deposit cannot go to the account itself.
    InvalidDestination,
}

/// Why an escrow operation was rejected.
#[derive(Clone, Copy, Debug, PartialEq, Eq)]
pub enum EscrowError {
    /// The party that must authorise the operation did not sign.
    MissingSignature,
    /// An escrow must lock a positive amount.
    ZeroAmount,
    /// No bump yields a program-controlled address for these inputs.
    NoViableBump,
    /// The record address supplied is not the one derived for the maker and seed.
    InvalidEscrowAddress,
    /// A holding address supplied is not the one derived for its owner and asset type.
    InvalidHoldingAddress,
    /// No record lives at the escrow address.
    RecordNotFound,
    /// No holding account lives at the vault address.
    VaultNotFound,
    /// The account found at the vault address of an opening already holds assets.
    VaultNotEmpty,
    /// A holding account that must exist does not.
    HoldingNotFound,
    /// An account found at a holding address has another owner or asset type, or is no holding.
    HoldingMismatch,
    /// A supplied account disagrees with the record.
    Binding(BindingError),
    /// The record's derivation inputs do not reproduce the vault's authority.
    Unauthorized,
    /// The asset ledger rejected an action.
    Ledger(LedgerError),
}

} // verus!
