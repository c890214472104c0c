use crate::accounts::{escrow_loaded, load_escrow, release_vault, released, Signer};
use crate::address::{address_bytes, derive_holding_address, holding_address, Address, ProgramIds};
use crate::authority::{capability_view, CapabilityView, SignerCapability};
use crate::error::EscrowError;
use crate::ledger::{outcome, Accounts, Deposits, Holding, Ledger};
use crate::state::Escrow;
use vstd::prelude::*;

verus! {

/// The accounts that cancelling an escrow names.
#[derive(Clone, Copy, Debug, PartialEq, Eq)]
pub struct Refund {
    /// The party that opened the escrow and takes the locked asset back.
    pub maker: Signer,
    /// The asset type that is locked.
    pub mint_a: Address,
    /// The maker's own holding account of the first asset.
    pub maker_ata_a: Address,
    /// Where the record lives.
    pub escrow: Address,
    /// Where the vault lives.
    pub vault: Address,
    /// The storage deposits that the host asks for.
    pub rent: Deposits,
}

/// The addresses that the derivation rules give for a cancellation: the maker's holding
/// account's and the vault's. Each is missing where no bump yields one.
#[derive(Clone, Copy, Debug, PartialEq, Eq)]
pub struct RefundAddresses {
    pub maker_ata_a: Option<Address>,
    pub vault: Option<Address>,
}

/// The derived addresses of a cancellation, as bytes.
pub struct RefundAddressesView {
    pub maker_ata_a: Option<Seq<u8>>,
    pub vault: Option<Seq<u8>>,
}

impl View for RefundAddresses {
    type V = RefundAddressesView;

    open spec fn view(&self) -> RefundAddressesView {
        RefundAddressesView {
            maker_ata_a: address_bytes(self.maker_ata_a),
            vault: address_bytes(self.vault),
        }
    }
}

impl Refund {
    /// The addresses that the derivation rules give for these accounts.
    pub open spec fn derived(self, ids: ProgramIds) -> RefundAddressesView {
        RefundAddressesView {
            maker_ata_a: holding_address(ids, self.maker.key, self.mint_a),
            vault: holding_address(ids, self.escrow, self.mint_a),
        }
    }

    /// The check of the accounts: the maker signed, and the record and the vault are
    /// found and agree with the maker and the asset type named.
    pub open spec fn validated(self, l: Accounts, derived: RefundAddressesView) -> Result<
        (Escrow, Holding),
        EscrowError,
    > {
        if !self.maker.is_signer {
            Err(EscrowError::MissingSignature)
        } else {
            escrow_loaded(
                l,
                derived.vault,
                self.escrow,
                self.vault,
                self.maker.key,
                self.mint_a,
                None,
            )
        }
    }

    /// The ledger once the vault's whole balance is back with the maker and the vault is
    /// closed by `capability`, its storage deposit going to the maker.
    pub open spec fn refunded(
        self,
        l: Accounts,
        program: Address,
        capability: Option<CapabilityView>,
    ) -> Result<Accounts, EscrowError> {
        released(
            l,
            capability,
            program,
            self.escrow,
            self.vault,
            self.mint_a,
            self.maker_ata_a,
            self.maker.key,
        )
    }

    /// Derives the addresses that these accounts must sit at.
    pub fn derive_addresses(&self, ids: &ProgramIds) -> (d: RefundAddresses)
        ensures
            d@ == self.derived(*ids),
    {
        RefundAddresses {
            maker_ata_a: derive_holding_address(ids, &self.maker.key, &self.mint_a),
            vault: derive_holding_address(ids, &self.escrow, &self.mint_a),
        }
    }

    /// Checks the accounts named against the ledger, the record and the derived
    /// addresses.
    pub fn validate(&self, ledger: &Ledger, derived: &RefundAddresses) -> (r: Result<
        (Escrow, Holding),
        EscrowError,
    >)
        ensures
            r == self.validated(ledger@, derived@),
    {
        if !self.maker.is_signer {
            return Err(EscrowError::MissingSignature);
        }
        load_escrow(
            ledger,
            &derived.vault,
            &self.escrow,
            &self.vault,
            &self.maker.key,
            &self.mint_a,
            None,
        )
    }

    /// Moves the vault's whole balance back to the maker's holding account and closes the
    /// vault, its storage deposit going to the maker. The program acts as the vault's
    /// authority by `capability`, which must speak for that authority under `program` by
    /// the record's own tag, maker, seed and bump.
    pub fn refund_and_close_vault(
        &self,
        ledger: &mut Ledger,
        program: &Address,
        capability: Option<SignerCapability>,
    ) -> (r: Result<(), EscrowError>)
        ensures
            self.refunded(old(ledger)@, *program, capability_view(capability)) == outcome(
                r,
                final(ledger)@,
            ),
            r is Err ==> final(ledger)@ == old(ledger)@,
    {
        release_vault(
            ledger,
            capability,
            program,
            &self.escrow,
            &self.vault,
            &self.mint_a,
            &self.maker_ata_a,
            &self.maker.key,
        )
    }
}

} // verus!
