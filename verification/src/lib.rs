pub mod accounts;
pub mod address;
pub mod authority;
pub mod contexts;
pub mod error;
pub mod laws;
pub mod ledger;
pub mod state;

use crate::accounts::{
    authorize, check_holding, controller, ensure_holding, holding_checked, holding_ensured,
    lifted,
};
use crate::address::{Address, ProgramIds};
use crate::authority::{capability_view, Authority, CapabilityView, SignerCapability};
use crate::contexts::make::{Make, MakeAddresses, MakeAddressesView};
use crate::contexts::refund::{Refund, RefundAddresses, RefundAddressesView};
use crate::contexts::take::{Take, TakeAddresses, TakeAddressesView};
use crate::error::EscrowError;
use crate::ledger::{close_record_result, outcome, Accounts, Ledger};
use vstd::prelude::*;

verus! {

/// Opening an escrow, given the addresses that the derivation rules yield: the amount is
/// positive, the accounts check out, the record is written, an empty vault is put in
/// place, and the amount moves from the maker into the vault; the maker leaves the
/// storage deposits of what is allocated. The ledger that results, or the first reason why none does.
pub open spec fn opened(
    l: Accounts,
    ctx: Make,
    derived: MakeAddressesView,
    seed: u64,
    amount: u64,
    receive: u64,
) -> Result<Accounts, EscrowError> {
    if amount == 0 {
        Err(EscrowError::ZeroAmount)
    } else {
        match ctx.validated(l, derived) {
            Err(e) => Err(e),
            Ok(bumps) => match ctx.escrow_saved(l, seed, receive, bumps.escrow) {
                Err(e) => Err(e),
                Ok(saved) => match ctx.vault_opened(saved) {
                    Err(e) => Err(e),
                    Ok(allocated) => ctx.deposited(allocated, amount),
                },
            },
        }
    }
}

/// Settling an escrow under the escrow program `program`, given the addresses that the
/// derivation rules yield and the capability by which the program acts on the vault: the accounts check out against the record,
/// the holding accounts that take part are in place, the taker pays the maker, the vault
/// is emptied into the taker's account and closed, and the record is closed, the storage
/// deposits of both going to the maker. The ledger that results, or the first reason why
/// none does.
pub open spec fn settled(
    l: Accounts,
    ctx: Take,
    derived: TakeAddressesView,
    program: Address,
    capability: Option<CapabilityView>,
) -> Result<Accounts, EscrowError> {
    match ctx.validated(l, derived) {
        Err(e) => Err(e),
        Ok(_) => match holding_ensured(
            l,
            derived.taker_ata_a,
            ctx.taker_ata_a,
            ctx.taker.key,
            ctx.mint_a,
            ctx.taker.key,
            ctx.rent.holding,
        ) {
            Err(e) => Err(e),
            Ok(first) => match holding_checked(
                first,
                derived.taker_ata_b,
                ctx.taker_ata_b,
                ctx.taker.key,
                ctx.mint_b,
            ) {
                Err(e) => Err(e),
                Ok(_) => match holding_ensured(
                    first,
                    derived.maker_ata_b,
                    ctx.maker_ata_b,
                    ctx.maker,
                    ctx.mint_b,
                    ctx.taker.key,
                    ctx.rent.holding,
                ) {
                    Err(e) => Err(e),
                    Ok(ready) => match ctx.paid(ready) {
                        Err(e) => Err(e),
                        Ok(paid) => match ctx.withdrawn(paid, program, capability) {
                            Err(e) => Err(e),
                            Ok(withdrawn) => lifted(
                                close_record_result(withdrawn, ctx.escrow, ctx.maker),
                            ),
                        },
                    },
                },
            },
        },
    }
}

/// Cancelling an escrow under the escrow program `program`, given the addresses that the
/// derivation rules yield and the capability by which the program acts on the vault: the accounts check out against the record,
/// the maker's holding account is in place, the vault is emptied into it and closed, and
/// the record is closed, the storage deposits of both going to the maker. The ledger that
/// results, or the first reason why none does.
pub open spec fn cancelled(
    l: Accounts,
    ctx: Refund,
    derived: RefundAddressesView,
    program: Address,
    capability: Option<CapabilityView>,
) -> Result<Accounts, EscrowError> {
    match ctx.validated(l, derived) {
        Err(e) => Err(e),
        Ok(_) => match holding_ensured(
            l,
            derived.maker_ata_a,
            ctx.maker_ata_a,
            ctx.maker.key,
            ctx.mint_a,
            ctx.maker.key,
            ctx.rent.holding,
        ) {
            Err(e) => Err(e),
            Ok(ready) => match ctx.refunded(ready, program, capability) {
                Err(e) => Err(e),
                Ok(refunded) => lifted(close_record_result(refunded, ctx.escrow, ctx.maker.key)),
            },
        },
    }
}

/// Opening an escrow under the derivation rules of the deployment `ids`.
pub open spec fn open_result(
    l: Accounts,
    ids: ProgramIds,
    ctx: Make,
    seed: u64,
    amount: u64,
    receive: u64,
) -> Result<Accounts, EscrowError> {
    opened(l, ctx, ctx.derived(ids, seed), seed, amount, receive)
}

/// Settling an escrow under the derivation rules of the deployment `ids`.
pub open spec fn settle_result(l: Accounts, ids: ProgramIds, ctx: Take) -> Result<
    Accounts,
    EscrowError,
> {
    settled(
        l,
        ctx,
        ctx.derived(ids),
        ids.escrow_program,
        controller(l, ids.escrow_program, ctx.escrow, ctx.vault),
    )
}

/// Cancelling an escrow under the derivation rules of the deployment `ids`.
pub open spec fn cancel_result(l: Accounts, ids: ProgramIds, ctx: Refund) -> Result<
    Accounts,
    EscrowError,
> {
    cancelled(
        l,
        ctx,
        ctx.derived(ids),
        ids.escrow_program,
        controller(l, ids.escrow_program, ctx.escrow, ctx.vault),
    )
}

fn open_steps(
    work: &mut Ledger,
    ctx: &Make,
    derived: &MakeAddresses,
    seed: u64,
    amount: u64,
    receive: u64,
) -> (r: Result<(), EscrowError>)
    ensures
        opened(old(work)@, *ctx, derived@, seed, amount, receive) == outcome(r, final(work)@),
{
    if amount == 0 {
        return Err(EscrowError::ZeroAmount);
    }
    let bumps = match ctx.validate(work, derived) {
        Ok(bumps) => bumps,
        Err(e) => {
            return Err(e);
        },
    };
    match ctx.save_escrow(work, seed, receive, &bumps) {
        Ok(()) => {},
        Err(e) => {
            return Err(e);
        },
    }
    match ctx.open_vault(work) {
        Ok(()) => {},
        Err(e) => {
            return Err(e);
        },
    }
    ctx.deposit_to_vault(work, amount)
}

fn settle_steps(
    work: &mut Ledger,
    ctx: &Take,
    derived: &TakeAddresses,
    program: &Address,
    capability: Option<SignerCapability>,
) -> (r: Result<(), EscrowError>)
    ensures
        settled(old(work)@, *ctx, derived@, *program, capability_view(capability)) == outcome(
            r,
            final(work)@,
        ),
{
    match ctx.validate(work, derived) {
        Ok(_) => {},
        Err(e) => {
            return Err(e);
        },
    }
    let payer = Authority::Signature(ctx.taker.key);
    match ensure_holding(
        work,
        &derived.taker_ata_a,
        &ctx.taker_ata_a,
        &ctx.taker.key,
        &ctx.mint_a,
        &payer,
        ctx.rent.holding,
    ) {
        Ok(()) => {},
        Err(e) => {
            return Err(e);
        },
    }
    match check_holding(work, &derived.taker_ata_b, &ctx.taker_ata_b, &ctx.taker.key, &ctx.mint_b) {
        Ok(_) => {},
        Err(e) => {
            return Err(e);
        },
    }
    match ensure_holding(
        work,
        &derived.maker_ata_b,
        &ctx.maker_ata_b,
        &ctx.maker,
        &ctx.mint_b,
        &payer,
        ctx.rent.holding,
    ) {
        Ok(()) => {},
        Err(e) => {
            return Err(e);
        },
    }
    match ctx.transfer_to_maker(work) {
        Ok(()) => {},
        Err(e) => {
            return Err(e);
        },
    }
    match ctx.withdraw_and_close_vault(work, program, capability) {
        Ok(()) => {},
        Err(e) => {
            return Err(e);
        },
    }
    match work.close_record(&ctx.escrow, &ctx.maker) {
        Ok(()) => Ok(()),
        Err(e) => Err(EscrowError::Ledger(e)),
    }
}

fn cancel_steps(
    work: &mut Ledger,
    ctx: &Refund,
    derived: &RefundAddresses,
    program: &Address,
    capability: Option<SignerCapability>,
) -> (r: Result<(), EscrowError>)
    ensures
        cancelled(old(work)@, *ctx, derived@, *program, capability_view(capability)) == outcome(
            r,
            final(work)@,
        ),
{
    match ctx.validate(work, derived) {
        Ok(_) => {},
        Err(e) => {
            return Err(e);
        },
    }
    let payer = Authority::Signature(ctx.maker.key);
    match ensure_holding(
        work,
        &derived.maker_ata_a,
        &ctx.maker_ata_a,
        &ctx.maker.key,
        &ctx.mint_a,
        &payer,
        ctx.rent.holding,
    ) {
        Ok(()) => {},
        Err(e) => {
            return Err(e);
        },
    }
    match ctx.refund_and_close_vault(work, program, capability) {
        Ok(()) => {},
        Err(e) => {
            return Err(e);
        },
    }
    match work.close_record(&ctx.escrow, &ctx.maker.key) {
        Ok(()) => Ok(()),
        Err(e) => Err(EscrowError::Ledger(e)),
    }
}

/// Opens an escrow, `derived` being the addresses that the derivation rules yield for
/// the accounts named. All of it happens, or the ledger stays as it was.
pub fn open(
    ledger: &mut Ledger,
    ctx: &Make,
    derived: &MakeAddresses,
    seed: u64,
    amount: u64,
    receive: u64,
) -> (r: Result<(), EscrowError>)
    ensures
        opened(old(ledger)@, *ctx, derived@, seed, amount, receive) == outcome(
            r,
            final(ledger)@,
        ),
        r is Err ==> final(ledger)@ == old(ledger)@,
{
    let mut work = ledger.snapshot();
    match open_steps(&mut work, ctx, derived, seed, amount, receive) {
        Ok(()) => {
            *ledger = work;
            Ok(())
        },
        Err(e) => Err(e),
    }
}

/// Settles an escrow under the escrow program `program`, `derived` being the addresses
/// that the derivation rules yield for the accounts named and `capability` what lets the
/// program act on the vault. All of it
/// happens, or the ledger stays as it was.
pub fn settle(
    ledger: &mut Ledger,
    ctx: &Take,
    derived: &TakeAddresses,
    program: &Address,
    capability: Option<SignerCapability>,
) -> (r: Result<(), EscrowError>)
    ensures
        settled(old(ledger)@, *ctx, derived@, *program, capability_view(capability)) == outcome(
            r,
            final(ledger)@,
        ),
        r is Err ==> final(ledger)@ == old(ledger)@,
{
    let mut work = ledger.snapshot();
    match settle_steps(&mut work, ctx, derived, program, capability) {
        Ok(()) => {
            *ledger = work;
            Ok(())
        },
        Err(e) => Err(e),
    }
}

/// Cancels an escrow under the escrow program `program`, `derived` being the addresses
/// that the derivation rules yield for the accounts named and `capability` what lets the
/// program act on the vault. All of it
/// happens, or the ledger stays as it was.
pub fn cancel(
    ledger: &mut Ledger,
    ctx: &Refund,
    derived: &RefundAddresses,
    program: &Address,
    capability: Option<SignerCapability>,
) -> (r: Result<(), EscrowError>)
    ensures
        cancelled(old(ledger)@, *ctx, derived@, *program, capability_view(capability)) == outcome(
            r,
            final(ledger)@,
        ),
        r is Err ==> final(ledger)@ == old(ledger)@,
{
    let mut work = ledger.snapshot();
    match cancel_steps(&mut work, ctx, derived, program, capability) {
        Ok(()) => {
            *ledger = work;
            Ok(())
        },
        Err(e) => Err(e),
    }
}

/// Opens an escrow: the maker locks `amount` of the first asset in a vault that only the
/// program controls and records that `receive` of the second asset is asked for it. All
/// of it happens, or the ledger stays as it was.
pub fn make(
    ledger: &mut Ledger,
    ids: &ProgramIds,
    ctx: &Make,
    seed: u64,
    amount: u64,
    receive: u64,
) -> (r: Result<(), EscrowError>)
    ensures
        open_result(old(ledger)@, *ids, *ctx, seed, amount, receive) == outcome(
            r,
            final(ledger)@,
        ),
        r is Err ==> final(ledger)@ == old(ledger)@,
{
    let derived = ctx.derive_addresses(ids, seed);
    open(ledger, ctx, &derived, seed, amount, receive)
}

/// Settles an escrow: the taker pays the maker what the record asks for and receives the
/// vault's whole balance; vault and record are closed. All of it happens, or the ledger
/// stays as it was.
pub fn take(ledger: &mut Ledger, ids: &ProgramIds, ctx: &Take) -> (r: Result<(), EscrowError>)
    ensures
        settle_result(old(ledger)@, *ids, *ctx) == outcome(r, final(ledger)@),
        r is Err ==> final(ledger)@ == old(ledger)@,
{
    let derived = ctx.derive_addresses(ids);
    let capability = authorize(ledger, &ids.escrow_program, &ctx.escrow, &ctx.vault);
    settle(ledger, ctx, &derived, &ids.escrow_program, capability)
}

/// Cancels an escrow: the maker takes the vault's whole balance back; vault and record
/// are closed. All of it happens, or the ledger stays as it was.
pub fn refund(ledger: &mut Ledger, ids: &ProgramIds, ctx: &Refund) -> (r: Result<
    (),
    EscrowError,
>)
    ensures
        cancel_result(old(ledger)@, *ids, *ctx) == outcome(r, final(ledger)@),
        r is Err ==> final(ledger)@ == old(ledger)@,
{
    let derived = ctx.derive_addresses(ids);
    let capability = authorize(ledger, &ids.escrow_program, &ctx.escrow, &ctx.vault);
    cancel(ledger, ctx, &derived, &ids.escrow_program, capability)
}

} // verus!
