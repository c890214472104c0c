use crate::accounts::{controller, released};
use crate::authority::CapabilityView;
use crate::address::{escrow_tag, on_curve, rederived, Address, ProgramIds};
use crate::contexts::make::Make;
use crate::contexts::refund::Refund;
use crate::contexts::take::Take;
use crate::error::EscrowError;
use crate::ledger::{
    balance, due, holding_at, native_at, record_at, vacant, Accounts, Holding,
};
use crate::state::{binding_result, bound, Supplied};
use crate::{cancel_result, open_result, settle_result};
use vstd::bytes::spec_u64_to_le_bytes;
use vstd::prelude::*;

verus! {

/// What an opening takes from the maker's wallet for the vault: what the storage deposit
/// of a holding account is short of at the vault's address, and nothing where the vault
/// is there already.
pub open spec fn vault_due(l: Accounts, ctx: Make) -> u64 {
    if vacant(l, ctx.vault) {
        due(l, ctx.vault, ctx.rent.holding)
    } else {
        0
    }
}

/// An escrow that opens leaves its record at the escrow address with the terms given, a
/// vault of the first asset type that the record's address controls and that holds
/// exactly the amount, and the maker's holding account short of exactly the amount. The
/// record's address was vacant before, and the vault's address was vacant or held that
/// vault, empty. The maker's wallet is short of exactly what the two storage deposits
/// were short of at the two addresses, and that now lies there. No key pair has the
/// record's address or the vault's, and the record's own derivation inputs reproduce the
/// record's address. No other account changed.
pub proof fn open_establishes_record_and_vault(
    l: Accounts,
    ids: ProgramIds,
    ctx: Make,
    seed: u64,
    amount: u64,
    receive: u64,
)
    requires
        open_result(l, ids, ctx, seed, amount, receive) is Ok,
    ensures
        ({
            let after = open_result(l, ids, ctx, seed, amount, receive)->Ok_0;
            &&& amount > 0
            &&& ctx.maker.is_signer
            &&& vacant(l, ctx.escrow)
            &&& vacant(l, ctx.vault) || holding_at(l, ctx.vault) == Some(
                Holding { mint: ctx.mint_a, authority: ctx.escrow, amount: 0 },
            )
            &&& ctx.escrow != ctx.vault
            &&& ctx.maker.key != ctx.escrow
            &&& ctx.maker.key != ctx.vault
            &&& ctx.validated(l, ctx.derived(ids, seed)) is Ok
            &&& record_at(after, ctx.escrow) == Some(
                ctx.record(seed, receive, ctx.validated(l, ctx.derived(ids, seed))->Ok_0.escrow),
            )
            &&& holding_at(after, ctx.vault) == Some(
                Holding { mint: ctx.mint_a, authority: ctx.escrow, amount },
            )
            &&& balance(l, ctx.maker_ata_a) == balance(after, ctx.maker_ata_a) + amount
            &&& !on_curve(ctx.escrow@)
            &&& !on_curve(ctx.vault@)
            &&& rederived(
                ids.escrow_program,
                escrow_tag(),
                ctx.maker.key,
                seed,
                ctx.validated(l, ctx.derived(ids, seed))->Ok_0.escrow,
            ) == Some(ctx.escrow@)
            &&& native_at(after, ctx.escrow) == native_at(l, ctx.escrow) + due(
                l,
                ctx.escrow,
                ctx.rent.record,
            )
            &&& native_at(after, ctx.escrow) >= ctx.rent.record
            &&& native_at(after, ctx.vault) == native_at(l, ctx.vault) + vault_due(l, ctx)
            &&& native_at(l, ctx.maker.key) == native_at(after, ctx.maker.key) + due(
                l,
                ctx.escrow,
                ctx.rent.record,
            ) + vault_due(l, ctx)
            &&& native_at(after, ctx.maker_ata_a) == native_at(l, ctx.maker_ata_a)
            &&& forall|a: Address|
                a != ctx.escrow && a != ctx.vault && a != ctx.maker_ata_a && a != ctx.maker.key
                    ==> (after.contains_key(a) <==> l.contains_key(a)) && (l.contains_key(a)
                    ==> after[a] == l[a])
        }),
{
}

/// An opening succeeds exactly where the amount is positive, the accounts check out, the
/// record's address is vacant, the vault's address is vacant or holds the vault, empty,
/// the maker's wallet is at neither address and covers what the storage deposits are
/// short of there, and the maker's holding account holds the amount.
pub proof fn open_succeeds_exactly_where(
    l: Accounts,
    ids: ProgramIds,
    ctx: Make,
    seed: u64,
    amount: u64,
    receive: u64,
)
    ensures
        open_result(l, ids, ctx, seed, amount, receive) is Ok <==> {
            &&& amount > 0
            &&& ctx.validated(l, ctx.derived(ids, seed)) is Ok
            &&& vacant(l, ctx.escrow)
            &&& ctx.escrow != ctx.vault
            &&& vacant(l, ctx.vault) || holding_at(l, ctx.vault) == Some(
                Holding { mint: ctx.mint_a, authority: ctx.escrow, amount: 0 },
            )
            &&& ctx.maker.key != ctx.escrow
            &&& ctx.maker.key != ctx.vault
            &&& l.contains_key(ctx.maker.key)
            &&& l[ctx.maker.key].data is Wallet
            &&& native_at(l, ctx.maker.key) >= due(l, ctx.escrow, ctx.rent.record) + vault_due(
                l,
                ctx,
            )
            &&& balance(l, ctx.maker_ata_a) >= amount
        },
{
}

/// An opening succeeds over an empty vault that is already in place, and leaves it where
/// it is: with everything else in order, it fails only where the account at the vault's
/// address is of another kind, asset type or authority, or holds assets.
pub proof fn open_goes_on_over_an_empty_vault(
    l: Accounts,
    ids: ProgramIds,
    ctx: Make,
    seed: u64,
    amount: u64,
    receive: u64,
)
    requires
        amount > 0,
        ctx.validated(l, ctx.derived(ids, seed)) is Ok,
        !l.contains_key(ctx.escrow),
        ctx.escrow != ctx.vault,
        ctx.escrow != ctx.maker_ata_a,
        ctx.vault != ctx.maker_ata_a,
        l.contains_key(ctx.maker.key),
        l[ctx.maker.key].data is Wallet,
        native_at(l, ctx.maker.key) >= ctx.rent.record,
        balance(l, ctx.maker_ata_a) >= amount,
        !vacant(l, ctx.vault),
    ensures
        holding_at(l, ctx.vault) == Some(
            Holding { mint: ctx.mint_a, authority: ctx.escrow, amount: 0 },
        ) ==> open_result(l, ids, ctx, seed, amount, receive) is Ok,
        holding_at(l, ctx.vault) matches Some(v) && v.mint == ctx.mint_a && v.authority
            == ctx.escrow && v.amount != 0 ==> open_result(l, ids, ctx, seed, amount, receive)
            == Err::<Accounts, EscrowError>(EscrowError::VaultNotEmpty),
        !(holding_at(l, ctx.vault) matches Some(v) && v.mint == ctx.mint_a && v.authority
            == ctx.escrow) ==> open_result(l, ids, ctx, seed, amount, receive) == Err::<
            Accounts,
            EscrowError,
        >(EscrowError::HoldingMismatch),
{
}

/// Opening an escrow fails where the amount is zero, and where a record, or any account
/// other than a bare wallet, already lives at the record's address.
pub proof fn open_rejects_zero_amount_and_reuse(
    l: Accounts,
    ids: ProgramIds,
    ctx: Make,
    seed: u64,
    amount: u64,
    receive: u64,
)
    requires
        amount == 0 || !vacant(l, ctx.escrow),
    ensures
        open_result(l, ids, ctx, seed, amount, receive) is Err,
        amount == 0 ==> open_result(l, ids, ctx, seed, amount, receive) == Err::<
            Accounts,
            EscrowError,
        >(EscrowError::ZeroAmount),
        record_at(l, ctx.escrow) is Some ==> !vacant(l, ctx.escrow),
{
}

/// The vault is emptied and closed only by a capability that speaks for the vault's
/// authority under the escrow program and carries exactly four seeds: the tag, the
/// maker of the record, the record's seed in eight little-endian bytes, and the record's
/// bump.
pub proof fn release_carries_the_records_seeds(
    l: Accounts,
    capability: Option<CapabilityView>,
    program: Address,
    escrow: Address,
    vault: Address,
    mint: Address,
    destination: Address,
    beneficiary: Address,
)
    requires
        released(l, capability, program, escrow, vault, mint, destination, beneficiary) is Ok,
    ensures
        capability is Some,
        record_at(l, escrow) is Some,
        holding_at(l, vault) is Some,
        capability->0.key == holding_at(l, vault)->0.authority,
        capability->0.program == program,
        capability->0.seeds == seq![
            escrow_tag(),
            record_at(l, escrow)->0.maker@,
            spec_u64_to_le_bytes(record_at(l, escrow)->0.seed),
            seq![record_at(l, escrow)->0.bump],
        ],
{
    let record = record_at(l, escrow)->0;
    assert(capability->0.seeds =~= seq![
        escrow_tag(),
        record.maker@,
        spec_u64_to_le_bytes(record.seed),
        seq![record.bump],
    ]);
}

/// Without the signature of the party that asks, and without a capability for the
/// vault's authority, no operation changes anything: each fails.
pub proof fn nothing_moves_without_authority(
    l: Accounts,
    ids: ProgramIds,
    opening: Make,
    settling: Take,
    cancelling: Refund,
    seed: u64,
    amount: u64,
    receive: u64,
)
    ensures
        !opening.maker.is_signer ==> open_result(l, ids, opening, seed, amount, receive) is Err,
        !settling.taker.is_signer ==> settle_result(l, ids, settling) is Err,
        !cancelling.maker.is_signer ==> cancel_result(l, ids, cancelling) is Err,
        controller(l, ids.escrow_program, settling.escrow, settling.vault) is None
            ==> settle_result(l, ids, settling) is Err,
        controller(l, ids.escrow_program, cancelling.escrow, cancelling.vault) is None
            ==> cancel_result(l, ids, cancelling) is Err,
{
}

/// A settlement succeeds only where a record lives at the escrow address, a vault at the
/// vault address, and the maker, the two asset types and the vault's authority and asset
/// type agree with the record. With any of them off it fails, whatever else holds.
pub proof fn settle_requires_binding(l: Accounts, ids: ProgramIds, ctx: Take)
    requires
        settle_result(l, ids, ctx) is Ok,
    ensures
        ctx.taker.is_signer,
        record_at(l, ctx.escrow) is Some,
        holding_at(l, ctx.vault) is Some,
        bound(
            record_at(l, ctx.escrow)->0,
            ctx.escrow,
            Supplied {
                maker: ctx.maker,
                mint_a: ctx.mint_a,
                mint_b: Some(ctx.mint_b),
                vault_authority: holding_at(l, ctx.vault)->0.authority,
                vault_mint: holding_at(l, ctx.vault)->0.mint,
            },
        ),
{
}

/// A settlement that a signed taker asks for, of a record and a vault that are there,
/// fails with the name of the first field in which the accounts supplied disagree with
/// the record, whatever else holds.
pub proof fn settle_rejects_mismatch(l: Accounts, ids: ProgramIds, ctx: Take)
    requires
        ctx.taker.is_signer,
        record_at(l, ctx.escrow) is Some,
        holding_at(l, ctx.vault) is Some,
        !bound(
            record_at(l, ctx.escrow)->0,
            ctx.escrow,
            Supplied {
                maker: ctx.maker,
                mint_a: ctx.mint_a,
                mint_b: Some(ctx.mint_b),
                vault_authority: holding_at(l, ctx.vault)->0.authority,
                vault_mint: holding_at(l, ctx.vault)->0.mint,
            },
        ),
    ensures
        ({
            let mismatch = binding_result(
                record_at(l, ctx.escrow)->0,
                ctx.escrow,
                Supplied {
                    maker: ctx.maker,
                    mint_a: ctx.mint_a,
                    mint_b: Some(ctx.mint_b),
                    vault_authority: holding_at(l, ctx.vault)->0.authority,
                    vault_mint: holding_at(l, ctx.vault)->0.mint,
                },
            );
            &&& mismatch is Err
            &&& settle_result(l, ids, ctx) == Err::<Accounts, EscrowError>(
                EscrowError::Binding(mismatch->Err_0),
            )
        }),
{
}

/// A cancellation succeeds only where the maker signed, a record lives at the escrow
/// address, a vault at the vault address, and the maker, the first asset type and the
/// vault's authority and asset type agree with the record. With any of them off it
/// fails, whatever else holds.
pub proof fn cancel_requires_binding(l: Accounts, ids: ProgramIds, ctx: Refund)
    requires
        cancel_result(l, ids, ctx) is Ok,
    ensures
        ctx.maker.is_signer,
        record_at(l, ctx.escrow) is Some,
        holding_at(l, ctx.vault) is Some,
        bound(
            record_at(l, ctx.escrow)->0,
            ctx.escrow,
            Supplied {
                maker: ctx.maker.key,
                mint_a: ctx.mint_a,
                mint_b: None,
                vault_authority: holding_at(l, ctx.vault)->0.authority,
                vault_mint: holding_at(l, ctx.vault)->0.mint,
            },
        ),
{
}

/// A cancellation that a signed maker asks for, of a record and a vault that are there,
/// fails with the name of the first field in which the accounts supplied disagree with
/// the record, whatever else holds.
pub proof fn cancel_rejects_mismatch(l: Accounts, ids: ProgramIds, ctx: Refund)
    requires
        ctx.maker.is_signer,
        record_at(l, ctx.escrow) is Some,
        holding_at(l, ctx.vault) is Some,
        !bound(
            record_at(l, ctx.escrow)->0,
            ctx.escrow,
            Supplied {
                maker: ctx.maker.key,
                mint_a: ctx.mint_a,
                mint_b: None,
                vault_authority: holding_at(l, ctx.vault)->0.authority,
                vault_mint: holding_at(l, ctx.vault)->0.mint,
            },
        ),
    ensures
        ({
            let mismatch = binding_result(
                record_at(l, ctx.escrow)->0,
                ctx.escrow,
                Supplied {
                    maker: ctx.maker.key,
                    mint_a: ctx.mint_a,
                    mint_b: None,
                    vault_authority: holding_at(l, ctx.vault)->0.authority,
                    vault_mint: holding_at(l, ctx.vault)->0.mint,
                },
            );
            &&& mismatch is Err
            &&& cancel_result(l, ids, ctx) == Err::<Accounts, EscrowError>(
                EscrowError::Binding(mismatch->Err_0),
            )
        }),
{
}

/// A settlement that succeeds leaves no account at the record's address and none at the
/// vault's.
pub proof fn settle_closes_record_and_vault(l: Accounts, ids: ProgramIds, ctx: Take)
    requires
        settle_result(l, ids, ctx) is Ok,
    ensures
        !settle_result(l, ids, ctx)->Ok_0.contains_key(ctx.escrow),
        !settle_result(l, ids, ctx)->Ok_0.contains_key(ctx.vault),
{
}

/// A cancellation that succeeds leaves no account at the record's address and none at the
/// vault's.
pub proof fn cancel_closes_record_and_vault(l: Accounts, ids: ProgramIds, ctx: Refund)
    requires
        cancel_result(l, ids, ctx) is Ok,
    ensures
        !cancel_result(l, ids, ctx)->Ok_0.contains_key(ctx.escrow),
        !cancel_result(l, ids, ctx)->Ok_0.contains_key(ctx.vault),
{
}

/// Opening an escrow and cancelling it at once, with the same accounts: the cancellation
/// succeeds unless the maker's wallet cannot take the native currency that lay at the
/// record's and the vault's address before the opening. It leaves the maker's balance of
/// the first asset as it was before the opening, neither record nor vault, and the
/// maker's wallet as it was with what lay at the two addresses added. Where nothing lay
/// there, it gives back the ledger as it was before the opening.
pub proof fn open_then_cancel_restores_ledger(
    l: Accounts,
    ids: ProgramIds,
    opening: Make,
    cancelling: Refund,
    seed: u64,
    amount: u64,
    receive: u64,
)
    requires
        open_result(l, ids, opening, seed, amount, receive) is Ok,
        cancelling.maker == opening.maker,
        cancelling.mint_a == opening.mint_a,
        cancelling.maker_ata_a == opening.maker_ata_a,
        cancelling.escrow == opening.escrow,
        cancelling.vault == opening.vault,
    ensures
        ({
            let opened = open_result(l, ids, opening, seed, amount, receive)->Ok_0;
            let cancelled = cancel_result(opened, ids, cancelling);
            &&& cancelled is Ok <==> native_at(l, opening.maker.key) + native_at(
                l,
                opening.escrow,
            ) + native_at(l, opening.vault) <= u64::MAX
            &&& cancelled matches Ok(after) ==> {
                &&& balance(after, opening.maker_ata_a) == balance(l, opening.maker_ata_a)
                &&& !after.contains_key(opening.escrow)
                &&& !after.contains_key(opening.vault)
                &&& native_at(after, opening.maker.key) == native_at(l, opening.maker.key)
                    + native_at(l, opening.escrow) + native_at(l, opening.vault)
            }
            &&& !l.contains_key(opening.escrow) && !l.contains_key(opening.vault) ==> cancelled
                == Ok::<Accounts, EscrowError>(l)
        }),
{
    let opened = open_result(l, ids, opening, seed, amount, receive)->Ok_0;
    open_establishes_record_and_vault(l, ids, opening, seed, amount, receive);
    let cancelled = cancel_result(opened, ids, cancelling);
    if !l.contains_key(opening.escrow) && !l.contains_key(opening.vault) {
        assert(cancelled is Ok);
        assert(cancelled->Ok_0 =~= l);
    }
}

/// Where an escrow is opened and then settled, the settlement is of the same maker and
/// the same vault. Where the two asset types differ, the taker's balance of the first
/// asset grows by exactly the amount locked. Where the taker is not the maker, the
/// maker's balance of the second asset grows by exactly the amount asked for, and the
/// maker's wallet, unless it sits at the address of a holding account that the
/// settlement names, by exactly the native currency that lay with the record and the
/// vault.
pub proof fn open_then_settle_exchanges(
    l: Accounts,
    ids: ProgramIds,
    opening: Make,
    settling: Take,
    seed: u64,
    amount: u64,
    receive: u64,
)
    requires
        open_result(l, ids, opening, seed, amount, receive) is Ok,
        settling.escrow == opening.escrow,
        settle_result(open_result(l, ids, opening, seed, amount, receive)->Ok_0, ids, settling)
            is Ok,
    ensures
        ({
            let opened = open_result(l, ids, opening, seed, amount, receive)->Ok_0;
            let settled = settle_result(opened, ids, settling)->Ok_0;
            &&& settling.maker == opening.maker.key
            &&& settling.mint_a == opening.mint_a
            &&& settling.mint_b == opening.mint_b
            &&& settling.vault == opening.vault
            &&& settling.mint_a != settling.mint_b ==> balance(settled, settling.taker_ata_a)
                == balance(opened, settling.taker_ata_a) + amount
            &&& settling.taker.key != settling.maker ==> balance(settled, settling.maker_ata_b)
                == balance(opened, settling.maker_ata_b) + receive
            &&& settling.taker.key != settling.maker && settling.maker != settling.taker_ata_a
                && settling.maker != settling.maker_ata_b ==> native_at(
                settled,
                settling.maker,
            ) == native_at(opened, settling.maker) + native_at(opened, opening.escrow)
                + native_at(opened, opening.vault)
        }),
{
    let opened = open_result(l, ids, opening, seed, amount, receive)->Ok_0;
    open_establishes_record_and_vault(l, ids, opening, seed, amount, receive);
    settle_requires_binding(opened, ids, settling);
    Address::lemma_view_injective(settling.vault, opening.vault);
}

/// No operation rewrites a record: a record that is there after an operation was there
/// before it with the same terms, unless it is the one that an opening has just written.
pub proof fn records_are_never_rewritten(
    l: Accounts,
    ids: ProgramIds,
    opening: Make,
    settling: Take,
    cancelling: Refund,
    seed: u64,
    amount: u64,
    receive: u64,
    a: Address,
)
    ensures
        open_result(l, ids, opening, seed, amount, receive) matches Ok(after) ==> (record_at(
            after,
            a,
        ) is Some ==> a == opening.escrow || record_at(after, a) == record_at(l, a)),
        settle_result(l, ids, settling) matches Ok(after) ==> (record_at(after, a) is Some
            ==> record_at(after, a) == record_at(l, a)),
        cancel_result(l, ids, cancelling) matches Ok(after) ==> (record_at(after, a) is Some
            ==> record_at(after, a) == record_at(l, a)),
{
}

} // verus!
