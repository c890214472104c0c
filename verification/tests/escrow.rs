use anchor_escrow::accounts::{
    authorize, check_holding, ensure_holding, load_escrow, release_vault, Signer,
};
use anchor_escrow::address::{
    derive_escrow_address, derive_holding_address, Address, ProgramIds,
};
use anchor_escrow::authority::Authority;
use anchor_escrow::contexts::make::{Make, MakeAddresses, MakeBumps};
use anchor_escrow::contexts::refund::{Refund, RefundAddresses};
use anchor_escrow::contexts::take::{Take, TakeAddresses};
use anchor_escrow::error::{BindingError, EscrowError, LedgerError};
use anchor_escrow::ledger::{Deposits, Holding, Ledger};
use anchor_escrow::state::Escrow;
use anchor_escrow::{cancel, make, open, refund, settle, take};
use anchor_lang::prelude::Pubkey;
use std::str::FromStr;

const SEED: u64 = 7;
const RENT: Deposits = Deposits { record: 17, holding: 20 };

fn addr(n: u8) -> Address {
    Address::new([n; 32])
}

fn ids() -> ProgramIds {
    ProgramIds {
        escrow_program: Address::new(
            Pubkey::from_str("4HRSMt8m3KRZLWRAJ7AAnM8366ERDZjbKVTRDazVi7pG").unwrap().to_bytes(),
        ),
        token_program: Address::new(anchor_spl::token::ID.to_bytes()),
        associated_token_program: Address::new(anchor_spl::associated_token::ID.to_bytes()),
    }
}

fn maker() -> Address {
    addr(1)
}

fn mint_a() -> Address {
    addr(2)
}

fn mint_b() -> Address {
    addr(3)
}

fn taker() -> Address {
    addr(4)
}

fn ata(owner: Address, mint: Address) -> Address {
    derive_holding_address(&ids(), &owner, &mint).unwrap()
}

fn escrow() -> Address {
    derive_escrow_address(&ids().escrow_program, &maker(), SEED).unwrap().0
}

fn bump() -> u8 {
    derive_escrow_address(&ids().escrow_program, &maker(), SEED).unwrap().1
}

fn vault() -> Address {
    ata(escrow(), mint_a())
}

fn opening() -> Make {
    Make {
        maker: Signer { key: maker(), is_signer: true },
        mint_a: mint_a(),
        mint_b: mint_b(),
        maker_ata_a: ata(maker(), mint_a()),
        escrow: escrow(),
        vault: vault(),
        rent: RENT,
    }
}

fn settling() -> Take {
    Take {
        taker: Signer { key: taker(), is_signer: true },
        maker: maker(),
        mint_a: mint_a(),
        mint_b: mint_b(),
        taker_ata_a: ata(taker(), mint_a()),
        taker_ata_b: ata(taker(), mint_b()),
        maker_ata_b: ata(maker(), mint_b()),
        escrow: escrow(),
        vault: vault(),
        rent: RENT,
    }
}

fn cancelling() -> Refund {
    Refund {
        maker: Signer { key: maker(), is_signer: true },
        mint_a: mint_a(),
        maker_ata_a: ata(maker(), mint_a()),
        escrow: escrow(),
        vault: vault(),
        rent: RENT,
    }
}

/// Gives `owner` a holding account of `mint` with `amount` in it, a bank at address 99
/// paying the storage deposit.
fn fund(ledger: &mut Ledger, owner: Address, mint: Address, amount: u64) {
    let address = ata(owner, mint);
    ledger.credit(&addr(99), RENT.holding).unwrap();
    ledger
        .create_holding(&address, &owner, &mint, &Authority::Signature(addr(99)), RENT.holding)
        .unwrap();
    ledger.mint_to(&address, amount).unwrap();
}

/// Puts an empty holding account of `owner` for `mint` at `address`, the bank paying.
fn place(ledger: &mut Ledger, address: Address, owner: Address, mint: Address) {
    ledger.credit(&addr(99), RENT.holding).unwrap();
    ledger
        .create_holding(&address, &owner, &mint, &Authority::Signature(addr(99)), RENT.holding)
        .unwrap();
}

/// The maker holds 5000 of the first asset, the taker 300 of the second; each has a
/// wallet of 1000.
fn funded() -> Ledger {
    let mut ledger = Ledger::new();
    ledger.credit(&maker(), 1000).unwrap();
    ledger.credit(&taker(), 1000).unwrap();
    fund(&mut ledger, maker(), mint_a(), 5000);
    fund(&mut ledger, taker(), mint_b(), 300);
    ledger
}

/// A funded ledger on which the maker has locked 1000 and asks for 50.
fn opened() -> Ledger {
    let mut ledger = funded();
    make(&mut ledger, &ids(), &opening(), SEED, 1000, 50).unwrap();
    ledger
}

fn balance(ledger: &Ledger, owner: Address, mint: Address) -> u64 {
    ledger.holding(&ata(owner, mint)).map(|h| h.amount).unwrap_or(0)
}

fn same_accounts(a: &Ledger, b: &Ledger, addresses: &[Address]) -> bool {
    addresses.iter().all(|x| a.account(x) == b.account(x))
}

fn all_addresses() -> Vec<Address> {
    vec![
        maker(),
        taker(),
        addr(9),
        addr(99),
        ata(maker(), mint_a()),
        ata(maker(), mint_b()),
        ata(taker(), mint_a()),
        ata(taker(), mint_b()),
        escrow(),
        vault(),
    ]
}

#[test]
fn open_writes_the_record_and_fills_the_vault() {
    let mut ledger = funded();
    assert_eq!(make(&mut ledger, &ids(), &opening(), SEED, 1000, 50), Ok(()));
    assert_eq!(
        ledger.record(&escrow()),
        Some(Escrow {
            seed: SEED,
            maker: maker(),
            mint_a: mint_a(),
            mint_b: mint_b(),
            receive: 50,
            bump: bump(),
        })
    );
    assert_eq!(
        ledger.holding(&vault()),
        Some(Holding { mint: mint_a(), authority: escrow(), amount: 1000 })
    );
    assert_eq!(balance(&ledger, maker(), mint_a()), 4000);
    assert_eq!(balance(&ledger, taker(), mint_b()), 300);
    assert_eq!(ledger.native(&maker()), 1000 - 17 - 20);
    assert_eq!(ledger.native(&escrow()), 17);
    assert_eq!(ledger.native(&vault()), 20);
    assert_eq!(ledger.native(&taker()), 1000);
}

#[test]
fn settle_scenario_exchanges_the_assets() {
    let mut ledger = opened();
    assert_eq!(take(&mut ledger, &ids(), &settling()), Ok(()));
    assert_eq!(balance(&ledger, maker(), mint_b()), 50);
    assert_eq!(balance(&ledger, taker(), mint_a()), 1000);
    assert_eq!(balance(&ledger, taker(), mint_b()), 250);
    assert_eq!(balance(&ledger, maker(), mint_a()), 4000);
    assert!(!ledger.contains(&escrow()));
    assert!(!ledger.contains(&vault()));
    assert_eq!(ledger.record(&escrow()), None);
    assert_eq!(ledger.holding(&vault()), None);
    assert_eq!(ledger.native(&maker()), 1000);
    assert_eq!(ledger.native(&taker()), 1000 - 20 - 20);
    assert_eq!(ledger.native(&ata(taker(), mint_a())), 20);
    assert_eq!(ledger.native(&ata(maker(), mint_b())), 20);
}

#[test]
fn cancel_scenario_returns_the_deposit() {
    let before = funded();
    let mut ledger = opened();
    assert_eq!(balance(&ledger, maker(), mint_a()), 4000);
    assert_eq!(refund(&mut ledger, &ids(), &cancelling()), Ok(()));
    assert_eq!(balance(&ledger, maker(), mint_a()), 5000);
    assert_eq!(balance(&ledger, maker(), mint_b()), 0);
    assert_eq!(balance(&ledger, taker(), mint_b()), 300);
    assert_eq!(ledger.native(&maker()), 1000);
    assert_eq!(ledger.native(&taker()), 1000);
    assert!(!ledger.contains(&ata(maker(), mint_b())));
    assert!(!ledger.contains(&escrow()));
    assert!(!ledger.contains(&vault()));
    assert!(same_accounts(&ledger, &before, &all_addresses()));
}

#[test]
fn open_then_cancel_round_trips_for_many_terms() {
    for (seed, amount, receive) in
        [(0u64, 1u64, 0u64), (1, 5000, u64::MAX), (u64::MAX, 4999, 1), (42, 2500, 2500)]
    {
        let before = funded();
        let mut ledger = funded();
        let escrow = derive_escrow_address(&ids().escrow_program, &maker(), seed).unwrap().0;
        let vault = ata(escrow, mint_a());
        let opening = Make { escrow, vault, ..opening() };
        let cancelling = Refund { escrow, vault, ..cancelling() };
        assert_eq!(make(&mut ledger, &ids(), &opening, seed, amount, receive), Ok(()));
        assert_eq!(balance(&ledger, maker(), mint_a()), 5000 - amount);
        assert_eq!(ledger.holding(&vault).unwrap().amount, amount);
        assert_eq!(refund(&mut ledger, &ids(), &cancelling), Ok(()));
        assert_eq!(balance(&ledger, maker(), mint_a()), 5000);
        assert!(!ledger.contains(&escrow));
        assert!(!ledger.contains(&vault));
        assert!(same_accounts(&ledger, &before, &all_addresses()));
    }
}

#[test]
fn open_then_settle_moves_exactly_the_terms() {
    for (amount, receive) in [(1u64, 300u64), (5000, 0), (1234, 299)] {
        let mut ledger = funded();
        assert_eq!(make(&mut ledger, &ids(), &opening(), SEED, amount, receive), Ok(()));
        assert_eq!(take(&mut ledger, &ids(), &settling()), Ok(()));
        assert_eq!(balance(&ledger, taker(), mint_a()), amount);
        assert_eq!(balance(&ledger, maker(), mint_b()), receive);
        assert_eq!(balance(&ledger, taker(), mint_b()), 300 - receive);
        assert_eq!(balance(&ledger, maker(), mint_a()), 5000 - amount);
        assert!(!ledger.contains(&escrow()));
        assert!(!ledger.contains(&vault()));
    }
}

#[test]
fn settle_adds_to_balances_already_there() {
    let mut ledger = funded();
    fund(&mut ledger, taker(), mint_a(), 11);
    fund(&mut ledger, maker(), mint_b(), 22);
    make(&mut ledger, &ids(), &opening(), SEED, 1000, 50).unwrap();
    assert_eq!(take(&mut ledger, &ids(), &settling()), Ok(()));
    assert_eq!(balance(&ledger, taker(), mint_a()), 1011);
    assert_eq!(balance(&ledger, maker(), mint_b()), 72);
}

#[test]
fn settle_pays_out_what_the_vault_holds() {
    let mut ledger = opened();
    ledger.mint_to(&vault(), 5).unwrap();
    assert_eq!(take(&mut ledger, &ids(), &settling()), Ok(()));
    assert_eq!(balance(&ledger, taker(), mint_a()), 1005);
    assert!(!ledger.contains(&vault()));
}

#[test]
fn open_rejects_a_zero_amount() {
    let before = funded();
    let mut ledger = funded();
    assert_eq!(make(&mut ledger, &ids(), &opening(), SEED, 0, 50), Err(EscrowError::ZeroAmount));
    assert!(same_accounts(&ledger, &before, &all_addresses()));
    let unsigned = Make { maker: Signer { key: maker(), is_signer: false }, ..opening() };
    assert_eq!(make(&mut ledger, &ids(), &unsigned, SEED, 0, 50), Err(EscrowError::ZeroAmount));
}

#[test]
fn open_rejects_a_seed_in_use() {
    let mut ledger = opened();
    let before = ledger.snapshot();
    assert_eq!(
        make(&mut ledger, &ids(), &opening(), SEED, 1, 1),
        Err(EscrowError::Ledger(LedgerError::AccountInUse))
    );
    assert!(same_accounts(&ledger, &before, &all_addresses()));
    assert_eq!(ledger.record(&escrow()).unwrap().receive, 50);
    assert_eq!(ledger.holding(&vault()).unwrap().amount, 1000);
}

#[test]
fn open_with_another_seed_runs_beside_the_first() {
    let mut ledger = opened();
    let escrow2 = derive_escrow_address(&ids().escrow_program, &maker(), SEED + 1).unwrap().0;
    let second = Make { escrow: escrow2, vault: ata(escrow2, mint_a()), ..opening() };
    assert_eq!(make(&mut ledger, &ids(), &second, SEED + 1, 500, 9), Ok(()));
    assert_eq!(ledger.holding(&vault()).unwrap().amount, 1000);
    assert_eq!(ledger.holding(&second.vault).unwrap().amount, 500);
    assert_eq!(balance(&ledger, maker(), mint_a()), 3500);
    assert_eq!(ledger.record(&escrow2).unwrap().seed, SEED + 1);
}

#[test]
fn open_goes_on_over_an_empty_vault() {
    let mut ledger = funded();
    place(&mut ledger, vault(), escrow(), mint_a());
    assert_eq!(make(&mut ledger, &ids(), &opening(), SEED, 1000, 50), Ok(()));
    assert_eq!(
        ledger.holding(&vault()),
        Some(Holding { mint: mint_a(), authority: escrow(), amount: 1000 })
    );
    assert_eq!(ledger.record(&escrow()).unwrap().receive, 50);
    assert_eq!(balance(&ledger, maker(), mint_a()), 4000);
    assert_eq!(ledger.native(&vault()), 20);
    assert_eq!(ledger.native(&maker()), 1000 - 17);
    assert_eq!(refund(&mut ledger, &ids(), &cancelling()), Ok(()));
    assert_eq!(balance(&ledger, maker(), mint_a()), 5000);
    assert_eq!(ledger.native(&maker()), 1000 + 20);
    assert!(!ledger.contains(&vault()));
    assert!(!ledger.contains(&escrow()));
}

#[test]
fn open_rejects_a_vault_that_holds_assets() {
    let mut ledger = funded();
    place(&mut ledger, vault(), escrow(), mint_a());
    ledger.mint_to(&vault(), 1).unwrap();
    let before = ledger.snapshot();
    assert_eq!(
        make(&mut ledger, &ids(), &opening(), SEED, 1000, 50),
        Err(EscrowError::VaultNotEmpty)
    );
    assert!(same_accounts(&ledger, &before, &all_addresses()));
    assert!(!ledger.contains(&escrow()));
    assert_eq!(balance(&ledger, maker(), mint_a()), 5000);
    assert_eq!(ledger.native(&maker()), 1000);
}

#[test]
fn open_rejects_another_account_at_the_vault_address() {
    let mut ledger = funded();
    place(&mut ledger, vault(), taker(), mint_a());
    assert_eq!(
        make(&mut ledger, &ids(), &opening(), SEED, 1000, 50),
        Err(EscrowError::HoldingMismatch)
    );
    let mut ledger = funded();
    place(&mut ledger, vault(), escrow(), mint_b());
    assert_eq!(
        make(&mut ledger, &ids(), &opening(), SEED, 1000, 50),
        Err(EscrowError::HoldingMismatch)
    );
    assert!(!ledger.contains(&escrow()));
    assert_eq!(ledger.native(&maker()), 1000);
}

#[test]
fn open_counts_what_lies_at_the_addresses_towards_the_deposits() {
    let mut ledger = funded();
    ledger.credit(&escrow(), 5).unwrap();
    ledger.credit(&vault(), 30).unwrap();
    assert_eq!(make(&mut ledger, &ids(), &opening(), SEED, 1000, 50), Ok(()));
    assert_eq!(ledger.native(&escrow()), 17);
    assert_eq!(ledger.native(&vault()), 30);
    assert_eq!(ledger.native(&maker()), 1000 - 12);
    assert_eq!(ledger.holding(&vault()).unwrap().amount, 1000);
    assert_eq!(refund(&mut ledger, &ids(), &cancelling()), Ok(()));
    assert_eq!(ledger.native(&maker()), 1000 + 5 + 30);
    assert_eq!(balance(&ledger, maker(), mint_a()), 5000);
}

#[test]
fn open_needs_the_makers_signature() {
    let mut ledger = funded();
    let unsigned = Make { maker: Signer { key: maker(), is_signer: false }, ..opening() };
    assert_eq!(
        make(&mut ledger, &ids(), &unsigned, SEED, 1000, 50),
        Err(EscrowError::MissingSignature)
    );
    assert!(!ledger.contains(&escrow()));
}

#[test]
fn open_rejects_a_record_address_that_is_not_derived() {
    let mut ledger = funded();
    let wrong = Make { escrow: addr(77), ..opening() };
    assert_eq!(
        make(&mut ledger, &ids(), &wrong, SEED, 1000, 50),
        Err(EscrowError::InvalidEscrowAddress)
    );
    assert_eq!(
        make(&mut ledger, &ids(), &opening(), SEED + 1, 1000, 50),
        Err(EscrowError::InvalidEscrowAddress)
    );
    assert!(!ledger.contains(&addr(77)));
    assert!(!ledger.contains(&escrow()));
}

#[test]
fn open_rejects_holding_addresses_that_are_not_derived() {
    let mut ledger = funded();
    let wrong_vault = Make { vault: addr(77), ..opening() };
    assert_eq!(
        make(&mut ledger, &ids(), &wrong_vault, SEED, 1000, 50),
        Err(EscrowError::InvalidHoldingAddress)
    );
    place(&mut ledger, addr(78), maker(), mint_a());
    ledger.mint_to(&addr(78), 5000).unwrap();
    let wrong_source = Make { maker_ata_a: addr(78), ..opening() };
    assert_eq!(
        make(&mut ledger, &ids(), &wrong_source, SEED, 1000, 50),
        Err(EscrowError::InvalidHoldingAddress)
    );
    assert!(!ledger.contains(&escrow()));
}

#[test]
fn open_needs_the_makers_holding_account() {
    let mut ledger = Ledger::new();
    ledger.credit(&maker(), 1000).unwrap();
    assert_eq!(
        make(&mut ledger, &ids(), &opening(), SEED, 1000, 50),
        Err(EscrowError::HoldingNotFound)
    );
    place(&mut ledger, ata(maker(), mint_a()), taker(), mint_a());
    assert_eq!(
        make(&mut ledger, &ids(), &opening(), SEED, 1000, 50),
        Err(EscrowError::HoldingMismatch)
    );
}

#[test]
fn open_without_funds_leaves_nothing_behind() {
    let before = funded();
    let mut ledger = funded();
    assert_eq!(
        make(&mut ledger, &ids(), &opening(), SEED, 5001, 50),
        Err(EscrowError::Ledger(LedgerError::InsufficientFunds))
    );
    assert!(!ledger.contains(&escrow()));
    assert!(!ledger.contains(&vault()));
    assert!(same_accounts(&ledger, &before, &all_addresses()));
    assert_eq!(make(&mut ledger, &ids(), &opening(), SEED, 5000, 50), Ok(()));
    assert_eq!(balance(&ledger, maker(), mint_a()), 0);
}

#[test]
fn open_without_a_viable_bump_fails() {
    let mut ledger = funded();
    let derived = MakeAddresses {
        escrow: None,
        maker_ata_a: Some(ata(maker(), mint_a())),
        vault: Some(vault()),
    };
    assert_eq!(
        open(&mut ledger, &opening(), &derived, SEED, 1000, 50),
        Err(EscrowError::NoViableBump)
    );
    let derived = MakeAddresses { escrow: Some((escrow(), bump())), vault: None, ..derived };
    assert_eq!(
        open(&mut ledger, &opening(), &derived, SEED, 1000, 50),
        Err(EscrowError::InvalidHoldingAddress)
    );
    let derived = MakeAddresses { vault: Some(vault()), maker_ata_a: None, ..derived };
    assert_eq!(
        open(&mut ledger, &opening(), &derived, SEED, 1000, 50),
        Err(EscrowError::InvalidHoldingAddress)
    );
    assert!(!ledger.contains(&escrow()));
}

#[test]
fn open_on_given_addresses_needs_no_derivation() {
    let mut ledger = Ledger::new();
    ledger.credit(&maker(), 40).unwrap();
    place(&mut ledger, addr(10), maker(), mint_a());
    ledger.mint_to(&addr(10), 100).unwrap();
    let ctx = Make {
        maker: Signer { key: maker(), is_signer: true },
        mint_a: mint_a(),
        mint_b: mint_b(),
        maker_ata_a: addr(10),
        escrow: addr(20),
        vault: addr(30),
        rent: RENT,
    };
    let derived = MakeAddresses {
        escrow: Some((addr(20), 250)),
        maker_ata_a: Some(addr(10)),
        vault: Some(addr(30)),
    };
    assert_eq!(open(&mut ledger, &ctx, &derived, 9, 60, 5), Ok(()));
    assert_eq!(
        ledger.record(&addr(20)),
        Some(Escrow {
            seed: 9,
            maker: maker(),
            mint_a: mint_a(),
            mint_b: mint_b(),
            receive: 5,
            bump: 250,
        })
    );
    assert_eq!(
        ledger.holding(&addr(30)),
        Some(Holding { mint: mint_a(), authority: addr(20), amount: 60 })
    );
    assert_eq!(ledger.holding(&addr(10)).unwrap().amount, 40);
    assert_eq!(ledger.native(&maker()), 3);
    assert_eq!(ledger.native(&addr(20)), 17);
    assert_eq!(ledger.native(&addr(30)), 20);
}

#[test]
fn steps_of_an_opening() {
    let mut ledger = funded();
    let ctx = opening();
    let derived = ctx.derive_addresses(&ids(), SEED);
    assert_eq!(
        derived,
        MakeAddresses {
            escrow: Some((escrow(), bump())),
            maker_ata_a: Some(ata(maker(), mint_a())),
            vault: Some(vault()),
        }
    );
    assert_eq!(ctx.validate(&ledger, &derived), Ok(MakeBumps { escrow: bump() }));
    assert_eq!(ctx.save_escrow(&mut ledger, SEED, 50, &MakeBumps { escrow: bump() }), Ok(()));
    assert_eq!(
        ctx.save_escrow(&mut ledger, SEED, 51, &MakeBumps { escrow: bump() }),
        Err(EscrowError::Ledger(LedgerError::AccountInUse))
    );
    assert_eq!(ledger.record(&escrow()).unwrap().receive, 50);
    assert_eq!(
        ctx.deposit_to_vault(&mut ledger, 10),
        Err(EscrowError::Ledger(LedgerError::AccountNotFound))
    );
    assert_eq!(ctx.open_vault(&mut ledger), Ok(()));
    assert_eq!(ledger.native(&maker()), 1000 - 17 - 20);
    assert_eq!(ctx.open_vault(&mut ledger), Ok(()));
    assert_eq!(ledger.native(&maker()), 1000 - 17 - 20);
    assert_eq!(ctx.deposit_to_vault(&mut ledger, 10), Ok(()));
    assert_eq!(ledger.holding(&vault()).unwrap().amount, 10);
    assert_eq!(ctx.open_vault(&mut ledger), Err(EscrowError::VaultNotEmpty));
    assert_eq!(balance(&ledger, maker(), mint_a()), 4990);
    let unsigned = Make { maker: Signer { key: maker(), is_signer: false }, ..ctx };
    assert_eq!(unsigned.deposit_to_vault(&mut ledger, 10), Err(EscrowError::MissingSignature));
    assert_eq!(ledger.holding(&vault()).unwrap().amount, 10);
}

#[test]
fn settle_rejects_accounts_that_disagree_with_the_record() {
    let before = opened();
    let mut ledger = opened();
    fund(&mut ledger, addr(9), mint_a(), 0);
    let other_maker = Take { maker: addr(9), maker_ata_b: ata(addr(9), mint_b()), ..settling() };
    assert_eq!(
        take(&mut ledger, &ids(), &other_maker),
        Err(EscrowError::Binding(BindingError::Maker))
    );
    let other_mint_a = Take { mint_a: addr(8), taker_ata_a: ata(taker(), addr(8)), ..settling() };
    assert_eq!(
        take(&mut ledger, &ids(), &other_mint_a),
        Err(EscrowError::Binding(BindingError::MintA))
    );
    let other_mint_b = Take {
        mint_b: addr(8),
        taker_ata_b: ata(taker(), addr(8)),
        maker_ata_b: ata(maker(), addr(8)),
        ..settling()
    };
    assert_eq!(
        take(&mut ledger, &ids(), &other_mint_b),
        Err(EscrowError::Binding(BindingError::MintB))
    );
    let other_vault = Take { vault: ata(maker(), mint_a()), ..settling() };
    assert_eq!(
        take(&mut ledger, &ids(), &other_vault),
        Err(EscrowError::Binding(BindingError::VaultAuthority))
    );
    fund(&mut ledger, escrow(), mint_b(), 0);
    let vault_of_other_asset = Take { vault: ata(escrow(), mint_b()), ..settling() };
    assert_eq!(
        take(&mut ledger, &ids(), &vault_of_other_asset),
        Err(EscrowError::Binding(BindingError::VaultMint))
    );
    assert!(same_accounts(&ledger, &before, &all_addresses()));
    assert_eq!(take(&mut ledger, &ids(), &settling()), Ok(()));
}

#[test]
fn cancel_rejects_accounts_that_disagree_with_the_record() {
    let before = opened();
    let mut ledger = opened();
    let other_maker = Refund {
        maker: Signer { key: taker(), is_signer: true },
        maker_ata_a: ata(taker(), mint_a()),
        ..cancelling()
    };
    assert_eq!(
        refund(&mut ledger, &ids(), &other_maker),
        Err(EscrowError::Binding(BindingError::Maker))
    );
    let other_mint = Refund { mint_a: mint_b(), maker_ata_a: ata(maker(), mint_b()), ..cancelling() };
    assert_eq!(
        refund(&mut ledger, &ids(), &other_mint),
        Err(EscrowError::Binding(BindingError::MintA))
    );
    let other_vault = Refund { vault: ata(maker(), mint_a()), ..cancelling() };
    assert_eq!(
        refund(&mut ledger, &ids(), &other_vault),
        Err(EscrowError::Binding(BindingError::VaultAuthority))
    );
    assert!(same_accounts(&ledger, &before, &all_addresses()));
    assert!(!ledger.contains(&ata(taker(), mint_a())));
    assert_eq!(refund(&mut ledger, &ids(), &cancelling()), Ok(()));
}

#[test]
fn settle_and_cancel_need_a_signature() {
    let mut ledger = opened();
    let unsigned = Take { taker: Signer { key: taker(), is_signer: false }, ..settling() };
    assert_eq!(take(&mut ledger, &ids(), &unsigned), Err(EscrowError::MissingSignature));
    let unsigned = Refund { maker: Signer { key: maker(), is_signer: false }, ..cancelling() };
    assert_eq!(refund(&mut ledger, &ids(), &unsigned), Err(EscrowError::MissingSignature));
    assert_eq!(ledger.holding(&vault()).unwrap().amount, 1000);
}

#[test]
fn settle_and_cancel_need_record_and_vault() {
    let mut ledger = funded();
    assert_eq!(take(&mut ledger, &ids(), &settling()), Err(EscrowError::RecordNotFound));
    assert_eq!(refund(&mut ledger, &ids(), &cancelling()), Err(EscrowError::RecordNotFound));
    let mut ledger = opened();
    let no_vault = Take { vault: addr(77), ..settling() };
    assert_eq!(take(&mut ledger, &ids(), &no_vault), Err(EscrowError::VaultNotFound));
    let no_vault = Refund { vault: addr(77), ..cancelling() };
    assert_eq!(refund(&mut ledger, &ids(), &no_vault), Err(EscrowError::VaultNotFound));
    let no_record = Take { escrow: ata(taker(), mint_b()), ..settling() };
    assert_eq!(take(&mut ledger, &ids(), &no_record), Err(EscrowError::RecordNotFound));
}

#[test]
fn settle_rejects_a_vault_that_is_not_at_the_derived_address() {
    let mut ledger = opened();
    place(&mut ledger, addr(60), escrow(), mint_a());
    let decoy = Take { vault: addr(60), ..settling() };
    assert_eq!(take(&mut ledger, &ids(), &decoy), Err(EscrowError::InvalidHoldingAddress));
    let decoy = Refund { vault: addr(60), ..cancelling() };
    assert_eq!(refund(&mut ledger, &ids(), &decoy), Err(EscrowError::InvalidHoldingAddress));
    assert_eq!(ledger.holding(&vault()).unwrap().amount, 1000);
    assert!(ledger.contains(&escrow()));
}

#[test]
fn settle_needs_the_takers_payment() {
    let mut ledger = Ledger::new();
    ledger.credit(&maker(), 1000).unwrap();
    ledger.credit(&taker(), 1000).unwrap();
    fund(&mut ledger, maker(), mint_a(), 5000);
    make(&mut ledger, &ids(), &opening(), SEED, 1000, 50).unwrap();
    let before = ledger.snapshot();
    assert_eq!(take(&mut ledger, &ids(), &settling()), Err(EscrowError::HoldingNotFound));
    assert!(same_accounts(&ledger, &before, &all_addresses()));
    fund(&mut ledger, taker(), mint_b(), 49);
    let before = ledger.snapshot();
    assert_eq!(
        take(&mut ledger, &ids(), &settling()),
        Err(EscrowError::Ledger(LedgerError::InsufficientFunds))
    );
    assert!(same_accounts(&ledger, &before, &all_addresses()));
    assert!(!ledger.contains(&ata(taker(), mint_a())));
    assert!(!ledger.contains(&ata(maker(), mint_b())));
    ledger.mint_to(&ata(taker(), mint_b()), 1).unwrap();
    assert_eq!(take(&mut ledger, &ids(), &settling()), Ok(()));
    assert_eq!(balance(&ledger, taker(), mint_b()), 0);
    assert_eq!(balance(&ledger, maker(), mint_b()), 50);
}

#[test]
fn settle_rejects_holding_accounts_of_others() {
    let mut ledger = opened();
    fund(&mut ledger, addr(9), mint_a(), 0);
    fund(&mut ledger, addr(9), mint_b(), 300);
    let foreign_destination = Take { taker_ata_a: ata(addr(9), mint_a()), ..settling() };
    assert_eq!(
        take(&mut ledger, &ids(), &foreign_destination),
        Err(EscrowError::InvalidHoldingAddress)
    );
    let foreign_source = Take { taker_ata_b: ata(addr(9), mint_b()), ..settling() };
    assert_eq!(
        take(&mut ledger, &ids(), &foreign_source),
        Err(EscrowError::InvalidHoldingAddress)
    );
    let foreign_payee = Take { maker_ata_b: ata(addr(9), mint_b()), ..settling() };
    assert_eq!(
        take(&mut ledger, &ids(), &foreign_payee),
        Err(EscrowError::InvalidHoldingAddress)
    );
    assert_eq!(ledger.holding(&vault()).unwrap().amount, 1000);
}

#[test]
fn settle_rejects_an_overflowing_payment() {
    let mut ledger = funded();
    fund(&mut ledger, maker(), mint_b(), u64::MAX - 49);
    make(&mut ledger, &ids(), &opening(), SEED, 1000, 50).unwrap();
    let before = ledger.snapshot();
    assert_eq!(
        take(&mut ledger, &ids(), &settling()),
        Err(EscrowError::Ledger(LedgerError::Overflow))
    );
    assert!(same_accounts(&ledger, &before, &all_addresses()));
}

#[test]
fn unauthorized_without_a_reproducing_record() {
    let mut ledger = funded();
    let forged = Escrow {
        seed: SEED,
        maker: maker(),
        mint_a: mint_a(),
        mint_b: mint_b(),
        receive: 50,
        bump: bump().wrapping_sub(1),
    };
    ledger.credit(&addr(99), RENT.record).unwrap();
    ledger
        .create_record(&escrow(), forged, &Authority::Signature(addr(99)), RENT.record)
        .unwrap();
    place(&mut ledger, vault(), escrow(), mint_a());
    ledger.mint_to(&vault(), 1000).unwrap();
    let before = ledger.snapshot();
    assert!(authorize(&ledger, &ids().escrow_program, &escrow(), &vault()).is_none());
    assert_eq!(take(&mut ledger, &ids(), &settling()), Err(EscrowError::Unauthorized));
    assert_eq!(refund(&mut ledger, &ids(), &cancelling()), Err(EscrowError::Unauthorized));
    assert!(same_accounts(&ledger, &before, &all_addresses()));
    assert_eq!(ledger.holding(&vault()).unwrap().amount, 1000);
}

#[test]
fn settle_and_cancel_without_a_capability_move_nothing() {
    let mut ledger = opened();
    let derived = settling().derive_addresses(&ids());
    assert_eq!(settle(&mut ledger, &settling(), &derived, &ids().escrow_program, None), Err(EscrowError::Unauthorized));
    let derived = cancelling().derive_addresses(&ids());
    assert_eq!(cancel(&mut ledger, &cancelling(), &derived, &ids().escrow_program, None), Err(EscrowError::Unauthorized));
    assert_eq!(ledger.holding(&vault()).unwrap().amount, 1000);
    assert_eq!(balance(&ledger, taker(), mint_b()), 300);
    let derived = RefundAddresses { maker_ata_a: None, ..derived };
    let capability = authorize(&ledger, &ids().escrow_program, &escrow(), &vault());
    assert_eq!(
        cancel(&mut ledger, &cancelling(), &derived, &ids().escrow_program, capability),
        Err(EscrowError::InvalidHoldingAddress)
    );
    let derived = TakeAddresses { vault: None, ..settling().derive_addresses(&ids()) };
    let capability = authorize(&ledger, &ids().escrow_program, &escrow(), &vault());
    assert_eq!(
        settle(&mut ledger, &settling(), &derived, &ids().escrow_program, capability),
        Err(EscrowError::InvalidHoldingAddress)
    );
}

#[test]
fn a_capability_under_another_program_is_refused() {
    let mut ledger = opened();
    let capability = authorize(&ledger, &ids().escrow_program, &escrow(), &vault());
    assert!(capability.is_some());
    let derived = cancelling().derive_addresses(&ids());
    assert_eq!(
        cancel(&mut ledger, &cancelling(), &derived, &addr(200), capability),
        Err(EscrowError::Unauthorized)
    );
    let capability = authorize(&ledger, &ids().escrow_program, &escrow(), &vault());
    assert_eq!(
        release_vault(
            &mut ledger,
            capability,
            &addr(200),
            &escrow(),
            &vault(),
            &mint_a(),
            &ata(maker(), mint_a()),
            &maker()
        ),
        Err(EscrowError::Unauthorized)
    );
    assert_eq!(ledger.holding(&vault()).unwrap().amount, 1000);
    assert!(authorize(&ledger, &addr(200), &escrow(), &vault()).is_none());
}

#[test]
fn a_capability_for_another_address_is_refused() {
    let mut ledger = opened();
    let other_escrow = derive_escrow_address(&ids().escrow_program, &maker(), SEED + 1).unwrap().0;
    let other = Make { escrow: other_escrow, vault: ata(other_escrow, mint_a()), ..opening() };
    make(&mut ledger, &ids(), &other, SEED + 1, 10, 1).unwrap();
    let capability = authorize(&ledger, &ids().escrow_program, &other.escrow, &other.vault);
    assert!(capability.is_some());
    let derived = cancelling().derive_addresses(&ids());
    assert_eq!(
        cancel(&mut ledger, &cancelling(), &derived, &ids().escrow_program, capability),
        Err(EscrowError::Unauthorized)
    );
    assert_eq!(ledger.holding(&vault()).unwrap().amount, 1000);
}

#[test]
fn cancel_recreates_the_makers_holding_account() {
    let mut ledger = funded();
    make(&mut ledger, &ids(), &opening(), SEED, 5000, 50).unwrap();
    ledger
        .close_holding(&ata(maker(), mint_a()), &maker(), &Authority::Signature(maker()))
        .unwrap();
    assert_eq!(ledger.native(&maker()), 1000 - 37 + 20);
    assert!(!ledger.contains(&ata(maker(), mint_a())));
    assert_eq!(refund(&mut ledger, &ids(), &cancelling()), Ok(()));
    assert_eq!(
        ledger.holding(&ata(maker(), mint_a())),
        Some(Holding { mint: mint_a(), authority: maker(), amount: 5000 })
    );
    assert!(!ledger.contains(&vault()));
    assert!(!ledger.contains(&escrow()));
    assert_eq!(ledger.native(&maker()), 1000);
    assert_eq!(ledger.native(&ata(maker(), mint_a())), 20);
}

#[test]
fn open_needs_a_wallet_that_covers_both_deposits() {
    let mut ledger = Ledger::new();
    ledger.credit(&maker(), 36).unwrap();
    fund(&mut ledger, maker(), mint_a(), 5000);
    let before = ledger.snapshot();
    assert_eq!(
        make(&mut ledger, &ids(), &opening(), SEED, 1000, 50),
        Err(EscrowError::Ledger(LedgerError::InsufficientDeposit))
    );
    assert!(same_accounts(&ledger, &before, &all_addresses()));
    assert!(!ledger.contains(&escrow()));
    ledger.credit(&maker(), 1).unwrap();
    assert_eq!(make(&mut ledger, &ids(), &opening(), SEED, 1000, 50), Ok(()));
    assert_eq!(ledger.native(&maker()), 0);
    let mut ledger = Ledger::new();
    fund(&mut ledger, maker(), mint_a(), 5000);
    assert_eq!(
        make(&mut ledger, &ids(), &opening(), SEED, 1000, 50),
        Err(EscrowError::Ledger(LedgerError::InsufficientDeposit))
    );
}

#[test]
fn settle_needs_a_taker_who_covers_new_accounts() {
    let mut ledger = Ledger::new();
    ledger.credit(&maker(), 1000).unwrap();
    ledger.credit(&taker(), 39).unwrap();
    fund(&mut ledger, maker(), mint_a(), 5000);
    fund(&mut ledger, taker(), mint_b(), 300);
    make(&mut ledger, &ids(), &opening(), SEED, 1000, 50).unwrap();
    let before = ledger.snapshot();
    assert_eq!(
        take(&mut ledger, &ids(), &settling()),
        Err(EscrowError::Ledger(LedgerError::InsufficientDeposit))
    );
    assert!(same_accounts(&ledger, &before, &all_addresses()));
    assert!(!ledger.contains(&ata(taker(), mint_a())));
    fund(&mut ledger, maker(), mint_b(), 0);
    assert_eq!(take(&mut ledger, &ids(), &settling()), Ok(()));
    assert_eq!(ledger.native(&taker()), 19);
    assert_eq!(ledger.native(&maker()), 1000);
}

#[test]
fn deposits_go_to_the_maker_whoever_settles() {
    let mut ledger = funded();
    let rent = Deposits { record: 3, holding: 5 };
    make(&mut ledger, &ids(), &Make { rent, ..opening() }, SEED, 1000, 50).unwrap();
    assert_eq!(ledger.native(&maker()), 992);
    let settling = Take { rent: Deposits { record: 100, holding: 7 }, ..settling() };
    assert_eq!(take(&mut ledger, &ids(), &settling), Ok(()));
    assert_eq!(ledger.native(&maker()), 1000);
    assert_eq!(ledger.native(&taker()), 1000 - 14);
}

#[test]
fn ensure_holding_is_idempotent() {
    let mut ledger = Ledger::new();
    ledger.credit(&taker(), 25).unwrap();
    let payer = Authority::Signature(taker());
    let key = ata(maker(), mint_a());
    assert_eq!(
        ensure_holding(&mut ledger, &Some(key), &key, &maker(), &mint_a(), &payer, 26),
        Err(EscrowError::Ledger(LedgerError::InsufficientDeposit))
    );
    assert_eq!(
        ensure_holding(&mut ledger, &Some(key), &key, &maker(), &mint_a(), &payer, RENT.holding),
        Ok(())
    );
    assert_eq!(
        ledger.holding(&key),
        Some(Holding { mint: mint_a(), authority: maker(), amount: 0 })
    );
    assert_eq!(ledger.native(&taker()), 5);
    ledger.mint_to(&key, 5).unwrap();
    assert_eq!(
        ensure_holding(&mut ledger, &Some(key), &key, &maker(), &mint_a(), &payer, RENT.holding),
        Ok(())
    );
    assert_eq!(ledger.holding(&key).unwrap().amount, 5);
    assert_eq!(ledger.native(&taker()), 5);
    assert_eq!(
        ensure_holding(&mut ledger, &Some(key), &key, &taker(), &mint_a(), &payer, RENT.holding),
        Err(EscrowError::HoldingMismatch)
    );
    assert_eq!(
        ensure_holding(&mut ledger, &Some(key), &key, &maker(), &mint_b(), &payer, RENT.holding),
        Err(EscrowError::HoldingMismatch)
    );
    assert_eq!(
        ensure_holding(&mut ledger, &Some(addr(9)), &key, &maker(), &mint_a(), &payer, RENT.holding),
        Err(EscrowError::InvalidHoldingAddress)
    );
    assert_eq!(
        ensure_holding(&mut ledger, &None, &key, &maker(), &mint_a(), &payer, RENT.holding),
        Err(EscrowError::InvalidHoldingAddress)
    );
}

#[test]
fn check_holding_reports_what_is_wrong() {
    let ledger = opened();
    let key = ata(maker(), mint_a());
    assert_eq!(
        check_holding(&ledger, &Some(key), &key, &maker(), &mint_a()),
        Ok(Holding { mint: mint_a(), authority: maker(), amount: 4000 })
    );
    assert_eq!(
        check_holding(&ledger, &Some(addr(9)), &addr(9), &maker(), &mint_a()),
        Err(EscrowError::HoldingNotFound)
    );
    assert_eq!(
        check_holding(&ledger, &Some(escrow()), &escrow(), &maker(), &mint_a()),
        Err(EscrowError::HoldingMismatch)
    );
    assert_eq!(
        check_holding(&ledger, &Some(maker()), &maker(), &maker(), &mint_a()),
        Err(EscrowError::HoldingNotFound)
    );
    assert_eq!(
        check_holding(&ledger, &Some(key), &addr(9), &maker(), &mint_a()),
        Err(EscrowError::InvalidHoldingAddress)
    );
}

#[test]
fn load_escrow_returns_record_and_vault() {
    let ledger = opened();
    let loaded = load_escrow(
        &ledger,
        &Some(vault()),
        &escrow(),
        &vault(),
        &maker(),
        &mint_a(),
        Some(mint_b()),
    );
    assert_eq!(
        loaded,
        Ok((
            ledger.record(&escrow()).unwrap(),
            Holding { mint: mint_a(), authority: escrow(), amount: 1000 }
        ))
    );
    assert_eq!(settling().validate(&ledger, &settling().derive_addresses(&ids())), loaded);
    assert_eq!(cancelling().validate(&ledger, &cancelling().derive_addresses(&ids())), loaded);
    assert_eq!(
        load_escrow(&ledger, &None, &escrow(), &vault(), &maker(), &mint_a(), None),
        Err(EscrowError::InvalidHoldingAddress)
    );
}

#[test]
fn release_vault_empties_and_closes() {
    let mut ledger = opened();
    let capability = authorize(&ledger, &ids().escrow_program, &escrow(), &vault());
    assert_eq!(capability.as_ref().map(|c| c.address()), Some(escrow()));
    assert_eq!(capability.as_ref().map(|c| c.program_id()), Some(ids().escrow_program));
    assert_eq!(
        capability.as_ref().map(|c| c.seeds().clone()),
        Some(vec![
            b"escrow".to_vec(),
            maker().to_vec(),
            SEED.to_le_bytes().to_vec(),
            vec![bump()],
        ])
    );
    let destination = ata(maker(), mint_a());
    assert_eq!(release_vault(
            &mut ledger,
            capability,
            &ids().escrow_program,
            &escrow(),
            &vault(),
            &mint_a(),
            &destination,
            &maker()
        ), Ok(()));
    assert!(!ledger.contains(&vault()));
    assert_eq!(balance(&ledger, maker(), mint_a()), 5000);
    assert!(ledger.contains(&escrow()));
    let capability = authorize(&ledger, &ids().escrow_program, &escrow(), &vault());
    assert!(capability.is_none());
    assert_eq!(
        release_vault(
            &mut ledger,
            None,
            &ids().escrow_program,
            &escrow(),
            &vault(),
            &mint_a(),
            &destination,
            &maker()
        ),
        Err(EscrowError::VaultNotFound)
    );
}

#[test]
fn release_vault_into_itself_is_refused() {
    let mut ledger = opened();
    let capability = authorize(&ledger, &ids().escrow_program, &escrow(), &vault());
    assert_eq!(
        release_vault(
            &mut ledger,
            capability,
            &ids().escrow_program,
            &escrow(),
            &vault(),
            &mint_a(),
            &vault(),
            &maker()
        ),
        Err(EscrowError::Ledger(LedgerError::NonEmpty))
    );
    assert_eq!(ledger.holding(&vault()).unwrap().amount, 1000);
    let capability = authorize(&ledger, &ids().escrow_program, &escrow(), &vault());
    assert_eq!(
        release_vault(
            &mut ledger,
            capability,
            &ids().escrow_program,
            &escrow(),
            &vault(),
            &mint_b(),
            &ata(taker(), mint_b()),
            &maker()
        ),
        Err(EscrowError::Ledger(LedgerError::MintMismatch))
    );
    assert_eq!(ledger.holding(&vault()).unwrap().amount, 1000);
}

#[test]
fn steps_of_a_settlement() {
    let mut ledger = opened();
    let ctx = settling();
    assert_eq!(
        ctx.transfer_to_maker(&mut ledger),
        Err(EscrowError::Ledger(LedgerError::AccountNotFound))
    );
    fund(&mut ledger, maker(), mint_b(), 0);
    fund(&mut ledger, taker(), mint_a(), 0);
    assert_eq!(ctx.transfer_to_maker(&mut ledger), Ok(()));
    assert_eq!(balance(&ledger, maker(), mint_b()), 50);
    assert_eq!(balance(&ledger, taker(), mint_b()), 250);
    let unsigned = Take { taker: Signer { key: taker(), is_signer: false }, ..ctx };
    assert_eq!(unsigned.transfer_to_maker(&mut ledger), Err(EscrowError::MissingSignature));
    let capability = authorize(&ledger, &ids().escrow_program, &escrow(), &vault());
    assert_eq!(ctx.withdraw_and_close_vault(&mut ledger, &ids().escrow_program, capability), Ok(()));
    assert_eq!(balance(&ledger, taker(), mint_a()), 1000);
    assert!(!ledger.contains(&vault()));
    let off = Take { escrow: addr(77), ..ctx };
    assert_eq!(off.transfer_to_maker(&mut ledger), Err(EscrowError::RecordNotFound));
}

#[test]
fn steps_of_a_cancellation() {
    let mut ledger = opened();
    let ctx = cancelling();
    assert_eq!(
        ctx.refund_and_close_vault(&mut ledger, &ids().escrow_program, None),
        Err(EscrowError::Unauthorized)
    );
    assert_eq!(ledger.holding(&vault()).unwrap().amount, 1000);
    let capability = authorize(&ledger, &ids().escrow_program, &escrow(), &vault());
    assert_eq!(ctx.refund_and_close_vault(&mut ledger, &ids().escrow_program, capability), Ok(()));
    assert_eq!(balance(&ledger, maker(), mint_a()), 5000);
    assert!(!ledger.contains(&vault()));
}

#[test]
fn maker_settling_the_own_escrow_gets_the_deposit_back() {
    let mut ledger = funded();
    fund(&mut ledger, maker(), mint_b(), 50);
    make(&mut ledger, &ids(), &opening(), SEED, 1000, 50).unwrap();
    let own = Take {
        taker: Signer { key: maker(), is_signer: true },
        taker_ata_a: ata(maker(), mint_a()),
        taker_ata_b: ata(maker(), mint_b()),
        ..settling()
    };
    assert_eq!(take(&mut ledger, &ids(), &own), Ok(()));
    assert_eq!(balance(&ledger, maker(), mint_a()), 5000);
    assert_eq!(balance(&ledger, maker(), mint_b()), 50);
}

#[test]
fn after_cancel_the_seed_can_be_used_again() {
    let mut ledger = opened();
    refund(&mut ledger, &ids(), &cancelling()).unwrap();
    assert_eq!(take(&mut ledger, &ids(), &settling()), Err(EscrowError::RecordNotFound));
    assert_eq!(refund(&mut ledger, &ids(), &cancelling()), Err(EscrowError::RecordNotFound));
    assert_eq!(make(&mut ledger, &ids(), &opening(), SEED, 2, 3), Ok(()));
    assert_eq!(ledger.record(&escrow()).unwrap().receive, 3);
    assert_eq!(ledger.holding(&vault()).unwrap().amount, 2);
}
