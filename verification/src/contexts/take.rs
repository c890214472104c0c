use crate::accounts::{escrow_loaded, lifted, load_escrow, release_vault, released, Signer};
use crate::address::{address_bytes, derive_holding_address, holding_address, Address, ProgramIds};
use crate::authority::{capability_view, Authority, CapabilityView, SignerCapability};
use crate::error::EscrowError;
use crate::ledger::{
    outcome, record_at, transfer_result, Accounts, Deposits, Holding, Ledger,
};
use crate::state::Escrow;
use vstd::prelude::*;

verus! {

/// The accounts that settling an escrow names.
#[derive(Clone, Copy, Debug, PartialEq, Eq)]
pub struct Take {
    /// The party that pays the second asset and receives the locked one.
    pub taker: Signer,
    /// The party that opened the escrow.
    pub maker: Address,
    /// The asset type that is locked.
    pub mint_a: Address,
    /// The asset type the maker asks for.
    pub mint_b: Address,
    /// The taker's holding account of the first asset.
    pub taker_ata_a: Address,
    /// The taker's holding account of the second asset.
    pub taker_ata_b: Address,
    /// The maker's holding account of the second asset.
    pub maker_ata_b: Address,
    /// Where the record lives.
    pub escrow: Address,
    /// Where the vault lives.
    pub vault: Address,
    /// The storage deposits that the host asks for.
    pub rent: Deposits,
}

/// The addresses that the derivation rules give for a settlement: those of the three
/// holding accounts that take part and the vault's. Each is missing where no bump yields
/// one.
#[derive(Clone, Copy, Debug, PartialEq, Eq)]
pub struct TakeAddresses {
    pub taker_ata_a: Option<Address>,
    pub taker_ata_b: Option<Address>,
    pub maker_ata_b: Option<Address>,
    pub vault: Option<Address>,
}

/// The derived addresses of a settlement, as bytes.
pub struct TakeAddressesView {
    pub taker_ata_a: Option<Seq<u8>>,
    pub taker_ata_b: Option<Seq<u8>>,
    pub maker_ata_b: Option<Seq<u8>>,
    pub vault: Option<Seq<u8>>,
}

impl View for TakeAddresses {
    type V = TakeAddressesView;

    open spec fn view(&self) -> TakeAddressesView {
        TakeAddressesView {
            taker_ata_a: address_bytes(self.taker_ata_a),
            taker_ata_b: address_bytes(self.taker_ata_b),
            maker_ata_b: address_bytes(self.maker_ata_b),
            vault: address_bytes(self.vault),
        }
    }
}

impl Take {
    /// The addresses that the derivation rules give for these accounts.
    pub open spec fn derived(self, ids: ProgramIds) -> TakeAddressesView {
        TakeAddressesView {
            taker_ata_a: holding_address(ids, self.taker.key, self.mint_a),
            taker_ata_b: holding_address(ids, self.taker.key, self.mint_b),
            maker_ata_b: holding_address(ids, self.maker, self.mint_b),
            vault: holding_address(ids, self.escrow, self.mint_a),
        }
    }

    /// The check of the accounts: the taker signed, and the record and the vault are
    /// found and agree with the maker and the two asset types named.
    pub open spec fn validated(self, l: Accounts, derived: TakeAddressesView) -> Result<
        (Escrow, Holding),
        EscrowError,
    > {
        if !self.taker.is_signer {
            Err(EscrowError::MissingSignature)
        } else {
            escrow_loaded(
                l,
                derived.vault,
                self.escrow,
                self.vault,
                self.maker,
                self.mint_a,
                Some(self.mint_b),
            )
        }
    }

    /// The ledger once the taker has paid the maker what the record asks for, under the
    /// taker's signature.
    pub open spec fn paid(self, l: Accounts) -> Result<Accounts, EscrowError> {
        if !self.taker.is_signer {
            Err(EscrowError::MissingSignature)
        } else {
            match record_at(l, self.escrow) {
                None => Err(EscrowError::RecordNotFound),
                Some(record) => lifted(
                    transfer_result(
                        l,
                        self.taker_ata_b,
                        self.maker_ata_b,
                        self.mint_b,
                        record.receive,
                        self.taker.key,
                    ),
                ),
            }
        }
    }

    /// The ledger once the vault's whole balance is with the taker and the vault is
    /// closed by `capability`, its storage deposit going to the maker.
    pub open spec fn withdrawn(
        self,
        l: Accounts,
        program: Address,
        capability: Option<CapabilityView>,
    ) -> Result<Accounts, EscrowError> {
        released(
            l,
            capability,
            program,
            self.escrow,
            self.vault,
            self.mint_a,
            self.taker_ata_a,
            self.maker,
        )
    }

    /// Derives the addresses that these accounts must sit at.
    pub fn derive_addresses(&self, ids: &ProgramIds) -> (d: TakeAddresses)
        ensures
            d@ == self.derived(*ids),
    {
        TakeAddresses {
            taker_ata_a: derive_holding_address(ids, &self.taker.key, &self.mint_a),
            taker_ata_b: derive_holding_address(ids, &self.taker.key, &self.mint_b),
            maker_ata_b: derive_holding_address(ids, &self.maker, &self.mint_b),
            vault: derive_holding_address(ids, &self.escrow, &self.mint_a),
        }
    }

    /// Checks the accounts named against the ledger, the record and the derived
    /// addresses.
    pub fn validate(&self, ledger: &Ledger, derived: &TakeAddresses) -> (r: Result<
        (Escrow, Holding),
        EscrowError,
    >)
        ensures
            r == self.validated(ledger@, derived@),
    {
        if !self.taker.is_signer {
            return Err(EscrowError::MissingSignature);
        }
        load_escrow(
            ledger,
            &derived.vault,
            &self.escrow,
            &self.vault,
            &self.maker,
            &self.mint_a,
            Some(self.mint_b),
        )
    }

    /// Moves the amount the record asks for, in the second asset, from the taker's holding
    /// account to the maker's, under the taker's signature.
    pub fn transfer_to_maker(&self, ledger: &mut Ledger) -> (r: Result<(), EscrowError>)
        ensures
            self.paid(old(ledger)@) == outcome(r, final(ledger)@),
            r is Err ==> final(ledger)@ == old(ledger)@,
    {
        if !self.taker.is_signer {
            return Err(EscrowError::MissingSignature);
        }
        let record = match ledger.record(&self.escrow) {
            Some(record) => record,
            None => {
                return Err(EscrowError::RecordNotFound);
            },
        };
        let authority = Authority::Signature(self.taker.key);
        match ledger.transfer(
            &self.taker_ata_b,
            &self.maker_ata_b,
            &self.mint_b,
            record.receive,
            &authority,
        ) {
            Ok(()) => Ok(()),
            Err(e) => Err(EscrowError::Ledger(e)),
        }
    }

    /// Moves the vault's whole balance to the taker's holding account and closes the
    /// vault, its storage deposit going to the maker. The program acts as the vault's
    /// authority by `capability`, which must speak for that authority under `program` by
    /// the record's own tag, maker, seed and bump.
    pub fn withdraw_and_close_vault(
        &self,
        ledger: &mut Ledger,
        program: &Address,
        capability: Option<SignerCapability>,
    ) -> (r: Result<(), EscrowError>)
        ensures
            self.withdrawn(old(ledger)@, *program, capability_view(capability)) == outcome(
                r,
                final(ledger)@,
            ),
            r is Err ==> final(ledger)@ == old(ledger)@,
    {
        release_vault(
            ledger,
            capability,
            program,
            &self.escrow,
            &self.vault,
            &self.mint_a,
            &self.taker_ata_a,
            &self.maker,
        )
    }
}

} // verus!
