use crate::accounts::{
    check_holding, ensure_holding, holding_checked, holding_ensured, lifted, Signer,
};
use crate::address::{
    address_bytes, derive_escrow_address, derive_holding_address, escrow_address,
    holding_address, Address, ProgramIds,
};
use crate::authority::Authority;
use crate::error::EscrowError;
use crate::ledger::{
    balance, create_record_result, outcome, transfer_result, Accounts, Deposits, Ledger,
};
use crate::state::Escrow;
use vstd::prelude::*;

verus! {

/// The accounts that opening an escrow names.
#[derive(Clone, Copy, Debug, PartialEq, Eq)]
pub struct Make {
    /// The party that opens the escrow and locks the first asset.
    pub maker: Signer,
    /// The asset type that is locked.
    pub mint_a: Address,
    /// The asset type asked for in return.
    pub mint_b: Address,
    /// The maker's own holding account of the first asset.
    pub maker_ata_a: Address,
    /// Where the record is to live.
    pub escrow: Address,
    /// Where the vault is to live.
    pub vault: Address,
    /// The storage deposits that the host asks for.
    pub rent: Deposits,
}

/// The bumps found while the accounts were checked.
#[derive(Clone, Copy, Debug, PartialEq, Eq)]
pub struct MakeBumps {
    pub escrow: u8,
}

/// The addresses that the derivation rules give for an opening: the record's, with its
/// bump, the maker's holding account's and the vault's. Each is missing where no bump
/// yields one.
#[derive(Clone, Copy, Debug, PartialEq, Eq)]
pub struct MakeAddresses {
    pub escrow: Option<(Address, u8)>,
    pub maker_ata_a: Option<Address>,
    pub vault: Option<Address>,
}

/// The derived addresses of an opening, as bytes.
pub struct MakeAddressesView {
    pub escrow: Option<(Seq<u8>, u8)>,
    pub maker_ata_a: Option<Seq<u8>>,
    pub vault: Option<Seq<u8>>,
}

impl View for MakeAddresses {
    type V = MakeAddressesView;

    open spec fn view(&self) -> MakeAddressesView {
        MakeAddressesView {
            escrow: match self.escrow {
                Some((a, bump)) => Some((a@, bump)),
                None => None,
            },
            maker_ata_a: address_bytes(self.maker_ata_a),
            vault: address_bytes(self.vault),
        }
    }
}

impl Make {
    /// The addresses that the derivation rules give for these accounts and this seed.
    pub open spec fn derived(self, ids: ProgramIds, seed: u64) -> MakeAddressesView {
        MakeAddressesView {
            escrow: escrow_address(ids.escrow_program, self.maker.key, seed),
            maker_ata_a: holding_address(ids, self.maker.key, self.mint_a),
            vault: holding_address(ids, self.escrow, self.mint_a),
        }
    }

    /// The check of the accounts: the maker signed, the record address is the derived
    /// one, the maker's holding account is in place at its derived address, and the vault
    /// address is the derived one. It yields the record's bump.
    pub open spec fn validated(self, l: Accounts, derived: MakeAddressesView) -> Result<
        MakeBumps,
        EscrowError,
    > {
        if !self.maker.is_signer {
            Err(EscrowError::MissingSignature)
        } else {
            match derived.escrow {
                None => Err(EscrowError::NoViableBump),
                Some((a, bump)) => if a != self.escrow@ {
                    Err(EscrowError::InvalidEscrowAddress)
                } else {
                    match holding_checked(
                        l,
                        derived.maker_ata_a,
                        self.maker_ata_a,
                        self.maker.key,
                        self.mint_a,
                    ) {
                        Err(e) => Err(e),
                        Ok(_) => if derived.vault != Some(self.vault@) {
                            Err(EscrowError::InvalidHoldingAddress)
                        } else {
                            Ok(MakeBumps { escrow: bump })
                        },
                    }
                },
            }
        }
    }

    /// The record that opening with these terms writes.
    pub open spec fn record(self, seed: u64, receive: u64, bump: u8) -> Escrow {
        Escrow {
            seed,
            maker: self.maker.key,
            mint_a: self.mint_a,
            mint_b: self.mint_b,
            receive,
            bump,
        }
    }

    /// The ledger once the record is allocated and filled, the maker leaving its
    /// storage deposit.
    pub open spec fn escrow_saved(self, l: Accounts, seed: u64, receive: u64, bump: u8) -> Result<
        Accounts,
        EscrowError,
    > {
        if !self.maker.is_signer {
            Err(EscrowError::MissingSignature)
        } else {
            lifted(
                create_record_result(
                    l,
                    self.escrow,
                    self.record(seed, receive, bump),
                    self.maker.key,
                    self.rent.record,
                ),
            )
        }
    }

    /// The ledger once the vault is in place: an empty holding account of the first asset
    /// type that the record's address controls. One that is there is left as it is; where
    /// none is, it is allocated and the maker leaves its storage deposit. An account there
    /// of another kind, asset type or authority is refused, and so is a vault that holds
    /// assets.
    pub open spec fn vault_opened(self, l: Accounts) -> Result<Accounts, EscrowError> {
        if !self.maker.is_signer {
            Err(EscrowError::MissingSignature)
        } else {
            match holding_ensured(
                l,
                Some(self.vault@),
                self.vault,
                self.escrow,
                self.mint_a,
                self.maker.key,
                self.rent.holding,
            ) {
                Err(e) => Err(e),
                Ok(ready) => if balance(ready, self.vault) != 0 {
                    Err(EscrowError::VaultNotEmpty)
                } else {
                    Ok(ready)
                },
            }
        }
    }

    /// The ledger once the maker has moved `amount` into the vault under the maker's own
    /// signature.
    pub open spec fn deposited(self, l: Accounts, amount: u64) -> Result<Accounts, EscrowError> {
        if !self.maker.is_signer {
            Err(EscrowError::MissingSignature)
        } else {
            lifted(
                transfer_result(
                    l,
                    self.maker_ata_a,
                    self.vault,
                    self.mint_a,
                    amount,
                    self.maker.key,
                ),
            )
        }
    }

    /// Derives the addresses that these accounts must sit at.
    pub fn derive_addresses(&self, ids: &ProgramIds, seed: u64) -> (d: MakeAddresses)
        ensures
            d@ == self.derived(*ids, seed),
    {
        let escrow = match derive_escrow_address(&ids.escrow_program, &self.maker.key, seed) {
            Ok(found) => Some(found),
            Err(_) => None,
        };
        MakeAddresses {
            escrow,
            maker_ata_a: derive_holding_address(ids, &self.maker.key, &self.mint_a),
            vault: derive_holding_address(ids, &self.escrow, &self.mint_a),
        }
    }

    /// Checks the accounts named against the ledger and the derived addresses.
    pub fn validate(&self, ledger: &Ledger, derived: &MakeAddresses) -> (r: Result<
        MakeBumps,
        EscrowError,
    >)
        ensures
            r == self.validated(ledger@, derived@),
    {
        if !self.maker.is_signer {
            return Err(EscrowError::MissingSignature);
        }
        let bump = match derived.escrow {
            Some((a, bump)) => {
                proof {
                    Address::lemma_view_injective(a, self.escrow);
                }
                if !(a == self.escrow) {
                    return Err(EscrowError::InvalidEscrowAddress);
                }
                bump
            },
            None => {
                return Err(EscrowError::NoViableBump);
            },
        };
        match check_holding(
            ledger,
            &derived.maker_ata_a,
            &self.maker_ata_a,
            &self.maker.key,
            &self.mint_a,
        ) {
            Ok(_) => {},
            Err(e) => {
                return Err(e);
            },
        }
        match derived.vault {
            Some(a) => {
                proof {
                    Address::lemma_view_injective(a, self.vault);
                }
                if !(a == self.vault) {
                    return Err(EscrowError::InvalidHoldingAddress);
                }
            },
            None => {
                return Err(EscrowError::InvalidHoldingAddress);
            },
        }
        Ok(MakeBumps { escrow: bump })
    }

    /// Allocates the record at the escrow address, at the maker's cost, and fills it with
    /// the terms of the exchange. Fails where an account lives there already.
    pub fn save_escrow(&self, ledger: &mut Ledger, seed: u64, receive: u64, bumps: &MakeBumps) -> (r:
        Result<(), EscrowError>)
        ensures
            self.escrow_saved(old(ledger)@, seed, receive, bumps.escrow) == outcome(
                r,
                final(ledger)@,
            ),
            r is Err ==> final(ledger)@ == old(ledger)@,
    {
        if !self.maker.is_signer {
            return Err(EscrowError::MissingSignature);
        }
        let record = Escrow {
            seed,
            maker: self.maker.key,
            mint_a: self.mint_a,
            mint_b: self.mint_b,
            receive,
            bump: bumps.escrow,
        };
        let payer = Authority::Signature(self.maker.key);
        match ledger.create_record(&self.escrow, record, &payer, self.rent.record) {
            Ok(()) => Ok(()),
            Err(e) => Err(EscrowError::Ledger(e)),
        }
    }

    /// Puts the vault in place: leaves an empty vault that is there as it is, allocates
    /// one at the maker's cost where none is, and refuses an account of another kind,
    /// asset type or authority, and a vault that holds assets.
    pub fn open_vault(&self, ledger: &mut Ledger) -> (r: Result<(), EscrowError>)
        ensures
            self.vault_opened(old(ledger)@) == outcome(r, final(ledger)@),
            r is Err ==> final(ledger)@ == old(ledger)@,
    {
        if !self.maker.is_signer {
            return Err(EscrowError::MissingSignature);
        }
        match ledger.holding(&self.vault) {
            Some(found) => {
                if found.amount != 0 && found.authority == self.escrow && found.mint
                    == self.mint_a {
                    return Err(EscrowError::VaultNotEmpty);
                }
            },
            None => {},
        }
        let payer = Authority::Signature(self.maker.key);
        ensure_holding(
            ledger,
            &Some(self.vault),
            &self.vault,
            &self.escrow,
            &self.mint_a,
            &payer,
            self.rent.holding,
        )
    }

    /// Moves `amount` of the first asset from the maker's holding account into the vault,
    /// under the maker's signature.
    pub fn deposit_to_vault(&self, ledger: &mut Ledger, amount: u64) -> (r: Result<
        (),
        EscrowError,
    >)
        ensures
            self.deposited(old(ledger)@, amount) == outcome(r, final(ledger)@),
            r is Err ==> final(ledger)@ == old(ledger)@,
    {
        if !self.maker.is_signer {
            return Err(EscrowError::MissingSignature);
        }
        let authority = Authority::Signature(self.maker.key);
        match ledger.transfer(&self.maker_ata_a, &self.vault, &self.mint_a, amount, &authority) {
            Ok(()) => Ok(()),
            Err(e) => Err(EscrowError::Ledger(e)),
        }
    }
}

} // verus!
