use crate::address::{
    address_bytes, escrow_tag, escrow_tag_bytes, rederived, same_seeds, signer_seed_bytes,
    signer_seeds, Address,
};
use crate::authority::{
    authorize_as_vault_controller, capability_view, Authority, CapabilityView,
    SignerCapability,
};
use crate::error::{EscrowError, LedgerError};
use crate::ledger::{
    close_holding_result, create_holding_result, holding_at, outcome, record_at,
    transfer_result, vacant, AccountData, Accounts, Holding, Ledger,
};
use crate::state::{binding_result, Escrow, Supplied};
use vstd::prelude::*;

verus! {

/// A party named by an invocation, and whether it signed the invocation.
#[derive(Clone, Copy, Debug, PartialEq, Eq)]
pub struct Signer {
    pub key: Address,
    pub is_signer: bool,
}

/// A ledger outcome as an outcome of an escrow operation.
pub open spec fn lifted(r: Result<Accounts, LedgerError>) -> Result<Accounts, EscrowError> {
    match r {
        Ok(l) => Ok(l),
        Err(e) => Err(EscrowError::Ledger(e)),
    }
}

/// The holding account that must live at `key`: `key` is `derived`, the address derived
/// for `owner` and `mint`, and the account there is a holding of that owner and asset
/// type. A bare wallet at the address counts as no account.
pub open spec fn holding_checked(
    l: Accounts,
    derived: Option<Seq<u8>>,
    key: Address,
    owner: Address,
    mint: Address,
) -> Result<Holding, EscrowError> {
    if derived != Some(key@) {
        Err(EscrowError::InvalidHoldingAddress)
    } else if vacant(l, key) {
        Err(EscrowError::HoldingNotFound)
    } else {
        match l[key].data {
            AccountData::Holding(h) => if h.authority == owner && h.mint == mint {
                Ok(h)
            } else {
                Err(EscrowError::HoldingMismatch)
            },
            _ => Err(EscrowError::HoldingMismatch),
        }
    }
}

/// The ledger once the holding account of `owner` for `mint` is sure to live at `key`: as
/// it was where the account is there, with an empty one allocated at the cost of `payer`
/// where nothing is.
pub open spec fn holding_ensured(
    l: Accounts,
    derived: Option<Seq<u8>>,
    key: Address,
    owner: Address,
    mint: Address,
    payer: Address,
    deposit: u64,
) -> Result<Accounts, EscrowError> {
    match holding_checked(l, derived, key, owner, mint) {
        Ok(_) => Ok(l),
        Err(EscrowError::HoldingNotFound) => lifted(
            create_holding_result(l, key, owner, mint, payer, deposit),
        ),
        Err(e) => Err(e),
    }
}

/// The record and the vault that a settlement or a cancellation names, once they are
/// found, agree with what is supplied, and the vault sits at `derived_vault`, the address
/// derived for the record and its first asset type.
pub open spec fn escrow_loaded(
    l: Accounts,
    derived_vault: Option<Seq<u8>>,
    escrow: Address,
    vault: Address,
    maker: Address,
    mint_a: Address,
    mint_b: Option<Address>,
) -> Result<(Escrow, Holding), EscrowError> {
    match (record_at(l, escrow), holding_at(l, vault)) {
        (None, _) => Err(EscrowError::RecordNotFound),
        (Some(_), None) => Err(EscrowError::VaultNotFound),
        (Some(record), Some(v)) => match binding_result(
            record,
            escrow,
            Supplied { maker, mint_a, mint_b, vault_authority: v.authority, vault_mint: v.mint },
        ) {
            Err(b) => Err(EscrowError::Binding(b)),
            Ok(()) => if derived_vault != Some(vault@) {
                Err(EscrowError::InvalidHoldingAddress)
            } else {
                Ok((record, v))
            },
        },
    }
}

/// The capability by which the program acts on the vault of `record`: it speaks for the
/// vault's authority, under the escrow program, by the record's own derivation inputs:
/// the tag, the maker, the seed and the bump.
pub open spec fn vault_capability(record: Escrow, program: Address, authority: Address)
    -> CapabilityView {
    CapabilityView {
        key: authority,
        program,
        seeds: signer_seeds(escrow_tag(), record.maker, record.seed, record.bump),
    }
}

/// The ledger once the vault is emptied into `destination` and closed by `capability`:
/// the capability must be the one for the vault of the record at `escrow`, the vault's
/// whole balance moves, the vault is gone and its storage deposit is with `beneficiary`.
pub open spec fn released(
    l: Accounts,
    capability: Option<CapabilityView>,
    program: Address,
    escrow: Address,
    vault: Address,
    mint: Address,
    destination: Address,
    beneficiary: Address,
) -> Result<Accounts, EscrowError> {
    match (record_at(l, escrow), holding_at(l, vault)) {
        (None, _) => Err(EscrowError::RecordNotFound),
        (Some(_), None) => Err(EscrowError::VaultNotFound),
        (Some(record), Some(v)) => if capability != Some(
            vault_capability(record, program, v.authority),
        ) {
            Err(EscrowError::Unauthorized)
        } else {
            match transfer_result(l, vault, destination, mint, v.amount, v.authority) {
                Err(e) => Err(EscrowError::Ledger(e)),
                Ok(moved) => lifted(close_holding_result(moved, vault, beneficiary, v.authority)),
            }
        },
    }
}

/// The capability by which the program may act on the vault: the one for the vault of
/// the record at `escrow`, provided that the record's derivation inputs reproduce the
/// vault's authority and no key pair has it.
pub open spec fn controller(l: Accounts, program: Address, escrow: Address, vault: Address)
    -> Option<CapabilityView> {
    match (record_at(l, escrow), holding_at(l, vault)) {
        (Some(record), Some(v)) => if rederived(
            program,
            escrow_tag(),
            record.maker,
            record.seed,
            record.bump,
        ) == Some(v.authority@) {
            Some(vault_capability(record, program, v.authority))
        } else {
            None
        },
        _ => None,
    }
}

/// Checks that `key` is the holding account of `owner` for `mint`, `derived` being the
/// address derived for the two, and returns what it holds.
pub fn check_holding(
    ledger: &Ledger,
    derived: &Option<Address>,
    key: &Address,
    owner: &Address,
    mint: &Address,
) -> (r: Result<Holding, EscrowError>)
    ensures
        r == holding_checked(ledger@, address_bytes(*derived), *key, *owner, *mint),
{
    match derived {
        Some(a) => {
            proof {
                Address::lemma_view_injective(*a, *key);
            }
            if !(*a == *key) {
                return Err(EscrowError::InvalidHoldingAddress);
            }
        },
        None => {
            return Err(EscrowError::InvalidHoldingAddress);
        },
    }
    match ledger.account(key) {
        None => Err(EscrowError::HoldingNotFound),
        Some(account) => match account.data {
            AccountData::Wallet => Err(EscrowError::HoldingNotFound),
            AccountData::Holding(h) => {
                if h.authority == *owner && h.mint == *mint {
                    Ok(h)
                } else {
                    Err(EscrowError::HoldingMismatch)
                }
            },
            AccountData::Record(_) => Err(EscrowError::HoldingMismatch),
        },
    }
}

/// Makes sure that the holding account of `owner` for `mint` lives at `key`: allocates it
/// empty, at the cost of `payer`, where nothing is there, and leaves it alone where it
/// is.
pub fn ensure_holding(
    ledger: &mut Ledger,
    derived: &Option<Address>,
    key: &Address,
    owner: &Address,
    mint: &Address,
    payer: &Authority,
    deposit: u64,
) -> (r: Result<(), EscrowError>)
    ensures
        holding_ensured(
            old(ledger)@,
            address_bytes(*derived),
            *key,
            *owner,
            *mint,
            payer.key(),
            deposit,
        ) == outcome(r, final(ledger)@),
        r is Err ==> final(ledger)@ == old(ledger)@,
{
    match check_holding(ledger, derived, key, owner, mint) {
        Ok(_) => Ok(()),
        Err(EscrowError::HoldingNotFound) => {
            match ledger.create_holding(key, owner, mint, payer, deposit) {
                Ok(()) => Ok(()),
                Err(e) => Err(EscrowError::Ledger(e)),
            }
        },
        Err(e) => Err(e),
    }
}

/// Finds the record and the vault that a settlement or a cancellation names and checks
/// them against what is supplied.
pub fn load_escrow(
    ledger: &Ledger,
    derived_vault: &Option<Address>,
    escrow: &Address,
    vault: &Address,
    maker: &Address,
    mint_a: &Address,
    mint_b: Option<Address>,
) -> (r: Result<(Escrow, Holding), EscrowError>)
    ensures
        r == escrow_loaded(
            ledger@,
            address_bytes(*derived_vault),
            *escrow,
            *vault,
            *maker,
            *mint_a,
            mint_b,
        ),
{
    let record = match ledger.record(escrow) {
        Some(record) => record,
        None => {
            return Err(EscrowError::RecordNotFound);
        },
    };
    let v = match ledger.holding(vault) {
        Some(v) => v,
        None => {
            return Err(EscrowError::VaultNotFound);
        },
    };
    let supplied = Supplied {
        maker: *maker,
        mint_a: *mint_a,
        mint_b,
        vault_authority: v.authority,
        vault_mint: v.mint,
    };
    match record.validate_binding(escrow, &supplied) {
        Ok(()) => {},
        Err(b) => {
            return Err(EscrowError::Binding(b));
        },
    }
    match derived_vault {
        Some(a) => {
            proof {
                Address::lemma_view_injective(*a, *vault);
            }
            if !(*a == *vault) {
                return Err(EscrowError::InvalidHoldingAddress);
            }
        },
        None => {
            return Err(EscrowError::InvalidHoldingAddress);
        },
    }
    Ok((record, v))
}

fn release_steps(
    work: &mut Ledger,
    capability: Option<SignerCapability>,
    program: &Address,
    escrow: &Address,
    vault: &Address,
    mint: &Address,
    destination: &Address,
    beneficiary: &Address,
) -> (r: Result<(), EscrowError>)
    ensures
        released(
            old(work)@,
            capability_view(capability),
            *program,
            *escrow,
            *vault,
            *mint,
            *destination,
            *beneficiary,
        ) == outcome(r, final(work)@),
{
    let record = match work.record(escrow) {
        Some(record) => record,
        None => {
            return Err(EscrowError::RecordNotFound);
        },
    };
    let v = match work.holding(vault) {
        Some(v) => v,
        None => {
            return Err(EscrowError::VaultNotFound);
        },
    };
    let authority = match capability {
        Some(capability) => {
            let expected = signer_seed_bytes(
                &escrow_tag_bytes(),
                &record.maker,
                record.seed,
                record.bump,
            );
            if !(capability.address() == v.authority) || !(capability.program_id() == *program)
                || !same_seeds(capability.seeds(), &expected) {
                return Err(EscrowError::Unauthorized);
            }
            Authority::Program(capability)
        },
        None => {
            return Err(EscrowError::Unauthorized);
        },
    };
    match work.transfer(vault, destination, mint, v.amount, &authority) {
        Ok(()) => {},
        Err(e) => {
            return Err(EscrowError::Ledger(e));
        },
    }
    match work.close_holding(vault, beneficiary, &authority) {
        Ok(()) => Ok(()),
        Err(e) => Err(EscrowError::Ledger(e)),
    }
}

/// Empties the vault into `destination`, closes it and hands its storage deposit to
/// `beneficiary`, the program acting as the vault's authority by `capability`. Nothing
/// moves unless the capability speaks for the vault's authority under `program` by the
/// derivation inputs of the record at `escrow`. All of it happens, or the ledger stays as
/// it was.
pub fn release_vault(
    ledger: &mut Ledger,
    capability: Option<SignerCapability>,
    program: &Address,
    escrow: &Address,
    vault: &Address,
    mint: &Address,
    destination: &Address,
    beneficiary: &Address,
) -> (r: Result<(), EscrowError>)
    ensures
        released(
            old(ledger)@,
            capability_view(capability),
            *program,
            *escrow,
            *vault,
            *mint,
            *destination,
            *beneficiary,
        ) == outcome(r, final(ledger)@),
        r is Err ==> final(ledger)@ == old(ledger)@,
{
    let mut work = ledger.snapshot();
    match release_steps(
        &mut work,
        capability,
        program,
        escrow,
        vault,
        mint,
        destination,
        beneficiary,
    ) {
        Ok(()) => {
            *ledger = work;
            Ok(())
        },
        Err(e) => Err(e),
    }
}

/// Reads the record at `escrow` and the vault, presents the record's derivation inputs to
/// the derivation again, and issues the capability for the vault's authority if they
/// reproduce it: one that speaks for that address under `program_id` and carries exactly
/// the tag, the record's maker, its seed and its bump.
pub fn authorize(ledger: &Ledger, program_id: &Address, escrow: &Address, vault: &Address) -> (r:
    Option<SignerCapability>)
    ensures
        capability_view(r) == controller(ledger@, *program_id, *escrow, *vault),
        r matches Some(capability) ==> {
            &&& record_at(ledger@, *escrow) is Some
            &&& holding_at(ledger@, *vault) is Some
            &&& capability.key() == holding_at(ledger@, *vault)->0.authority
            &&& capability.program() == *program_id
            &&& capability.seeds_view() == signer_seeds(
                escrow_tag(),
                record_at(ledger@, *escrow)->0.maker,
                record_at(ledger@, *escrow)->0.seed,
                record_at(ledger@, *escrow)->0.bump,
            )
        },
{
    let record = match ledger.record(escrow) {
        Some(record) => record,
        None => {
            return None;
        },
    };
    let v = match ledger.holding(vault) {
        Some(v) => v,
        None => {
            return None;
        },
    };
    match authorize_as_vault_controller(program_id, &record, &v.authority) {
        Ok(capability) => Some(capability),
        Err(_) => None,
    }
}

} // verus!
