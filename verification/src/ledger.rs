use crate::address::Address;
use crate::authority::Authority;
use crate::error::LedgerError;
use crate::state::Escrow;
use vstd::prelude::*;

verus! {

/// An asset-holding account: its asset type, who controls it, and how much it holds.
#[derive(Clone, Copy, Debug, PartialEq, Eq)]
pub struct Holding {
    pub mint: Address,
    pub authority: Address,
    pub amount: u64,
}

/// What an account is: a party's wallet, a holding account, or an escrow record.
#[derive(Clone, Copy, Debug, PartialEq, Eq)]
pub enum AccountData {
    Wallet,
    Holding(Holding),
    Record(Escrow),
}

/// What lives at an address, with the native currency it holds: the balance of a wallet,
/// the storage deposit of any other account.
#[derive(Clone, Copy, Debug, PartialEq, Eq)]
pub struct Account {
    pub native: u64,
    pub data: AccountData,
}

/// The storage deposits that allocating an account takes from its payer.
#[derive(Clone, Copy, Debug, PartialEq, Eq)]
pub struct Deposits {
    pub record: u64,
    pub holding: u64,
}

/// The accounts of a ledger, by address.
pub type Accounts = Map<Address, Account>;

/// What an operation yields, as one value: the accounts it leaves where it succeeds, its
/// error where it does not.
pub open spec fn outcome<E>(r: Result<(), E>, after: Accounts) -> Result<Accounts, E> {
    match r {
        Ok(()) => Ok(after),
        Err(e) => Err(e),
    }
}

/// The holding account at `a`, if one lives there.
pub open spec fn holding_at(l: Accounts, a: Address) -> Option<Holding> {
    if l.contains_key(a) {
        match l[a].data {
            AccountData::Holding(h) => Some(h),
            _ => None,
        }
    } else {
        None
    }
}

/// The record at `a`, if one lives there.
pub open spec fn record_at(l: Accounts, a: Address) -> Option<Escrow> {
    if l.contains_key(a) {
        match l[a].data {
            AccountData::Record(r) => Some(r),
            _ => None,
        }
    } else {
        None
    }
}

/// What the holding account at `a` holds; nothing where there is none.
pub open spec fn balance(l: Accounts, a: Address) -> nat {
    match holding_at(l, a) {
        Some(h) => h.amount as nat,
        None => 0,
    }
}

/// The native currency at `a`; nothing where no account lives.
pub open spec fn native_at(l: Accounts, a: Address) -> nat {
    if l.contains_key(a) {
        l[a].native as nat
    } else {
        0
    }
}

/// The account `account`, a holding `h`, with its amount replaced.
pub open spec fn with_amount(account: Account, h: Holding, amount: u64) -> Account {
    Account {
        native: account.native,
        data: AccountData::Holding(Holding { mint: h.mint, authority: h.authority, amount }),
    }
}

/// Adding `amount` of native currency to whatever lives at `destination`, or to a new
/// wallet where nothing does.
pub open spec fn credited(l: Accounts, destination: Address, amount: u64) -> Result<
    Accounts,
    LedgerError,
> {
    if !l.contains_key(destination) {
        Ok(l.insert(destination, Account { native: amount, data: AccountData::Wallet }))
    } else if l[destination].native + amount > u64::MAX {
        Err(LedgerError::Overflow)
    } else {
        Ok(
            l.insert(
                destination,
                Account {
                    native: (l[destination].native + amount) as u64,
                    data: l[destination].data,
                },
            ),
        )
    }
}

/// Taking a storage deposit from the wallet at `payer`, which must hold that much.
pub open spec fn charged(l: Accounts, payer: Address, deposit: u64) -> Result<
    Accounts,
    LedgerError,
> {
    if l.contains_key(payer) && l[payer].data is Wallet && l[payer].native >= deposit {
        Ok(
            l.insert(
                payer,
                Account { native: (l[payer].native - deposit) as u64, data: AccountData::Wallet },
            ),
        )
    } else {
        Err(LedgerError::InsufficientDeposit)
    }
}

/// Whether `a` is free to allocate: nothing lives there, or only a wallet, whose native
/// currency then counts towards the storage deposit.
pub open spec fn vacant(l: Accounts, a: Address) -> bool {
    !l.contains_key(a) || l[a].data is Wallet
}

/// What of a storage deposit the native currency at `address` does not cover.
pub open spec fn due(l: Accounts, address: Address, deposit: u64) -> u64 {
    if native_at(l, address) >= deposit {
        0
    } else {
        (deposit - native_at(l, address)) as u64
    }
}

/// Allocating `data` at `address`, `payer` topping up what lies there to the storage
/// deposit: refused where the address is not vacant, and where the payer is no other
/// wallet that covers what is due.
pub open spec fn allocated(
    l: Accounts,
    address: Address,
    data: AccountData,
    payer: Address,
    deposit: u64,
) -> Result<Accounts, LedgerError> {
    if !vacant(l, address) {
        Err(LedgerError::AccountInUse)
    } else if payer == address {
        Err(LedgerError::InsufficientDeposit)
    } else {
        match charged(l, payer, due(l, address, deposit)) {
            Err(e) => Err(e),
            Ok(paid) => Ok(
                paid.insert(
                    address,
                    Account {
                        native: (native_at(l, address) + due(l, address, deposit)) as u64,
                        data,
                    },
                ),
            ),
        }
    }
}

/// Removing the account at `address` and handing its storage deposit to `destination`,
/// which must be another address.
pub open spec fn deallocated(l: Accounts, address: Address, destination: Address) -> Result<
    Accounts,
    LedgerError,
> {
    if destination == address {
        Err(LedgerError::InvalidDestination)
    } else {
        credited(l.remove(address), destination, l[address].native)
    }
}

/// Allocating an empty holding account of `owner` for `mint` at `address`, which must be
/// vacant.
pub open spec fn create_holding_result(
    l: Accounts,
    address: Address,
    owner: Address,
    mint: Address,
    payer: Address,
    deposit: u64,
) -> Result<Accounts, LedgerError> {
    allocated(
        l,
        address,
        AccountData::Holding(Holding { mint, authority: owner, amount: 0 }),
        payer,
        deposit,
    )
}

/// Issuing `amount` new units into the holding account at `address`.
pub open spec fn mint_to_result(l: Accounts, address: Address, amount: u64) -> Result<
    Accounts,
    LedgerError,
> {
    match holding_at(l, address) {
        None => Err(LedgerError::AccountNotFound),
        Some(h) => if h.amount + amount > u64::MAX {
            Err(LedgerError::Overflow)
        } else {
            Ok(l.insert(address, with_amount(l[address], h, (h.amount + amount) as u64)))
        },
    }
}

/// Moving `amount` units of `mint` from one holding account to another in the name of
/// `authority`. Both accounts must exist and hold `mint`, the authority must control the
/// source, the source must hold the amount and the destination must have room for it.
/// Moving from an account to itself changes nothing.
pub open spec fn transfer_result(
    l: Accounts,
    from: Address,
    to: Address,
    mint: Address,
    amount: u64,
    authority: Address,
) -> Result<Accounts, LedgerError> {
    match (holding_at(l, from), holding_at(l, to)) {
        (Some(source), Some(destination)) => if source.mint != mint || destination.mint != mint {
            Err(LedgerError::MintMismatch)
        } else if source.authority != authority {
            Err(LedgerError::InvalidAuthority)
        } else if source.amount < amount {
            Err(LedgerError::InsufficientFunds)
        } else if from == to {
            Ok(l)
        } else if destination.amount + amount > u64::MAX {
            Err(LedgerError::Overflow)
        } else {
            Ok(
                l.insert(from, with_amount(l[from], source, (source.amount - amount) as u64)).insert(
                    to,
                    with_amount(l[to], destination, (destination.amount + amount) as u64),
                ),
            )
        },
        _ => Err(LedgerError::AccountNotFound),
    }
}

/// Closing the holding account at `address` in the name of `authority`, its storage
/// deposit going to `destination`: it must exist, be controlled by the authority and hold
/// nothing.
pub open spec fn close_holding_result(
    l: Accounts,
    address: Address,
    destination: Address,
    authority: Address,
) -> Result<Accounts, LedgerError> {
    match holding_at(l, address) {
        None => Err(LedgerError::AccountNotFound),
        Some(h) => if h.authority != authority {
            Err(LedgerError::InvalidAuthority)
        } else if h.amount != 0 {
            Err(LedgerError::NonEmpty)
        } else {
            deallocated(l, address, destination)
        },
    }
}

/// Allocating `record` at `address`, which must be vacant.
pub open spec fn create_record_result(
    l: Accounts,
    address: Address,
    record: Escrow,
    payer: Address,
    deposit: u64,
) -> Result<Accounts, LedgerError> {
    allocated(l, address, AccountData::Record(record), payer, deposit)
}

/// Closing the record at `address`, its storage deposit going to `destination`: one must
/// live there.
pub open spec fn close_record_result(l: Accounts, address: Address, destination: Address)
    -> Result<Accounts, LedgerError> {
    if record_at(l, address) is Some {
        deallocated(l, address, destination)
    } else {
        Err(LedgerError::AccountNotFound)
    }
}

#[derive(Clone, Copy)]
struct Entry {
    address: Address,
    account: Account,
}

spec fn has(s: Seq<Entry>, a: Address) -> bool {
    exists|i: int| 0 <= i < s.len() && (#[trigger] s[i]).address == a
}

spec fn position(s: Seq<Entry>, a: Address) -> int {
    choose|i: int| 0 <= i < s.len() && (#[trigger] s[i]).address == a
}

spec fn unique(s: Seq<Entry>) -> bool {
    forall|i: int, j: int|
        0 <= i < s.len() && 0 <= j < s.len() && i != j ==> (#[trigger] s[i]).address != (
        #[trigger] s[j]).address
}

spec fn model(s: Seq<Entry>) -> Accounts {
    Map::new(|a: Address| has(s, a), |a: Address| s[position(s, a)].account)
}

proof fn lemma_model_at(s: Seq<Entry>, i: int)
    requires
        unique(s),
        0 <= i < s.len(),
    ensures
        has(s, s[i].address),
        position(s, s[i].address) == i,
        model(s).contains_key(s[i].address),
        model(s)[s[i].address] == s[i].account,
{
    let a = s[i].address;
    assert(has(s, a));
    let p = position(s, a);
    assert(0 <= p < s.len() && s[p].address == a);
}

proof fn lemma_model_absent(s: Seq<Entry>, a: Address)
    requires
        forall|j: int| 0 <= j < s.len() ==> (#[trigger] s[j]).address != a,
    ensures
        !model(s).contains_key(a),
{
}

proof fn lemma_model_push(s: Seq<Entry>, e: Entry)
    requires
        unique(s),
        forall|j: int| 0 <= j < s.len() ==> (#[trigger] s[j]).address != e.address,
    ensures
        unique(s.push(e)),
        model(s.push(e)) == model(s).insert(e.address, e.account),
{
    let t = s.push(e);
    let n = s.len() as int;
    assert(t[n] == e);
    assert forall|i: int| 0 <= i < n implies #[trigger] t[i] == s[i] by {}
    assert(unique(t));
    let m = model(s).insert(e.address, e.account);
    assert forall|a: Address| model(t).contains_key(a) <==> m.contains_key(a) by {
        if has(s, a) {
            let i = position(s, a);
            assert(t[i].address == a);
        }
        if a == e.address {
            assert(t[n].address == a);
        }
        if has(t, a) {
            let i = position(t, a);
            if i < n {
                assert(s[i].address == a);
            }
        }
    }
    assert forall|a: Address| model(t).contains_key(a) implies model(t)[a] == m[a] by {
        let i = position(t, a);
        lemma_model_at(t, i);
        if i < n {
            lemma_model_at(s, i);
        }
    }
    assert(model(t) =~= m);
}

proof fn lemma_model_update(s: Seq<Entry>, i: int, account: Account)
    requires
        unique(s),
        0 <= i < s.len(),
    ensures
        unique(s.update(i, Entry { address: s[i].address, account })),
        model(s.update(i, Entry { address: s[i].address, account })) == model(s).insert(
            s[i].address,
            account,
        ),
{
    let e = Entry { address: s[i].address, account };
    let t = s.update(i, e);
    assert forall|j: int| 0 <= j < s.len() implies (#[trigger] t[j]).address == s[j].address by {}
    assert(unique(t)) by {
        assert forall|j: int, k: int| 0 <= j < t.len() && 0 <= k < t.len() && j != k implies (
        #[trigger] t[j]).address != (#[trigger] t[k]).address by {
            assert(s[j].address != s[k].address);
        }
    }
    let m = model(s).insert(s[i].address, account);
    assert forall|a: Address| model(t).contains_key(a) <==> m.contains_key(a) by {
        if has(s, a) {
            let j = position(s, a);
            assert(t[j].address == a);
        }
        if a == s[i].address {
            assert(t[i].address == a);
        }
        if has(t, a) {
            let j = position(t, a);
            assert(s[j].address == a);
        }
    }
    assert forall|a: Address| model(t).contains_key(a) implies model(t)[a] == m[a] by {
        let j = position(t, a);
        lemma_model_at(t, j);
        if j != i {
            assert(t[j] == s[j]);
            lemma_model_at(s, j);
        }
    }
    assert(model(t) =~= m);
}

proof fn lemma_model_remove(s: Seq<Entry>, i: int)
    requires
        unique(s),
        0 <= i < s.len(),
    ensures
        unique(s.remove(i)),
        model(s.remove(i)) == model(s).remove(s[i].address),
{
    let t = s.remove(i);
    assert forall|j: int| 0 <= j < t.len() implies #[trigger] t[j] == s[if j < i {
        j
    } else {
        j + 1
    }] by {}
    assert(unique(t)) by {
        assert forall|j: int, k: int| 0 <= j < t.len() && 0 <= k < t.len() && j != k implies (
        #[trigger] t[j]).address != (#[trigger] t[k]).address by {
            let j2 = if j < i {
                j
            } else {
                j + 1
            };
            let k2 = if k < i {
                k
            } else {
                k + 1
            };
            assert(s[j2].address != s[k2].address);
        }
    }
    let m = model(s).remove(s[i].address);
    assert forall|a: Address| model(t).contains_key(a) <==> m.contains_key(a) by {
        if has(s, a) && a != s[i].address {
            let j = position(s, a);
            let j2 = if j < i {
                j
            } else {
                j - 1
            };
            assert(t[j2].address == a);
        }
        if has(t, a) {
            let j = position(t, a);
            let j2 = if j < i {
                j
            } else {
                j + 1
            };
            assert(s[j2].address == a);
            assert(s[j2].address != s[i].address);
        }
    }
    assert forall|a: Address| model(t).contains_key(a) implies model(t)[a] == m[a] by {
        let j = position(t, a);
        lemma_model_at(t, j);
        let j2 = if j < i {
            j
        } else {
            j + 1
        };
        lemma_model_at(s, j2);
    }
    assert(model(t) =~= m);
}

/// An asset ledger held in memory: holding accounts and escrow records, each at its
/// address, no two at the same one.
pub struct Ledger {
    entries: Vec<Entry>,
}

impl View for Ledger {
    type V = Accounts;

    closed spec fn view(&self) -> Accounts {
        model(self.entries@)
    }
}

impl Ledger {
    #[verifier::type_invariant]
    spec fn one_account_per_address(&self) -> bool {
        unique(self.entries@)
    }

    /// A ledger without accounts.
    pub fn new() -> (l: Ledger)
        ensures
            l@ == Map::<Address, Account>::empty(),
    {
        let l = Ledger { entries: Vec::new() };
        proof {
            assert(l@ =~= Map::<Address, Account>::empty());
        }
        l
    }

    /// A copy of the ledger as it stands.
    pub fn snapshot(&self) -> (l: Ledger)
        ensures
            l@ == self@,
    {
        proof {
            use_type_invariant(self);
        }
        let mut entries: Vec<Entry> = Vec::new();
        let mut i: usize = 0;
        while i < self.entries.len()
            invariant
                i <= self.entries@.len(),
                entries@ == self.entries@.take(i as int),
            decreases self.entries@.len() - i,
        {
            entries.push(self.entries[i]);
            proof {
                assert(entries@ =~= self.entries@.take(i + 1));
            }
            i += 1;
        }
        proof {
            assert(entries@ =~= self.entries@);
        }
        Ledger { entries }
    }

    fn find(&self, a: &Address) -> (r: Option<usize>)
        ensures
            match r {
                Some(i) => i < self.entries@.len() && self.entries@[i as int].address == *a,
                None => forall|j: int|
                    0 <= j < self.entries@.len() ==> (#[trigger] self.entries@[j]).address != *a,
            },
    {
        let mut i: usize = 0;
        while i < self.entries.len()
            invariant
                i <= self.entries@.len(),
                forall|j: int| 0 <= j < i ==> (#[trigger] self.entries@[j]).address != *a,
            decreases self.entries@.len() - i,
        {
            if self.entries[i].address == *a {
                return Some(i);
            }
            i += 1;
        }
        None
    }

    fn put(&mut self, address: &Address, account: Account)
        ensures
            final(self)@ == old(self)@.insert(*address, account),
    {
        proof {
            use_type_invariant(&*self);
        }
        let found = self.find(address);
        let mut entries: Vec<Entry> = Vec::new();
        core::mem::swap(&mut self.entries, &mut entries);
        match found {
            Some(i) => {
                proof {
                    lemma_model_update(entries@, i as int, account);
                }
                entries.set(i, Entry { address: *address, account });
            },
            None => {
                proof {
                    lemma_model_push(entries@, Entry { address: *address, account });
                }
                entries.push(Entry { address: *address, account });
            },
        }
        self.entries = entries;
    }

    fn discard(&mut self, address: &Address)
        ensures
            final(self)@ == old(self)@.remove(*address),
    {
        proof {
            use_type_invariant(&*self);
        }
        match self.find(address) {
            Some(i) => {
                let mut entries: Vec<Entry> = Vec::new();
                core::mem::swap(&mut self.entries, &mut entries);
                proof {
                    lemma_model_remove(entries@, i as int);
                }
                entries.remove(i);
                self.entries = entries;
            },
            None => {
                proof {
                    lemma_model_absent(self.entries@, *address);
                    assert(self@.remove(*address) =~= self@);
                }
            },
        }
    }

    /// The account at `address`, if one lives there.
    pub fn account(&self, address: &Address) -> (r: Option<Account>)
        ensures
            r == (if self@.contains_key(*address) {
                Some(self@[*address])
            } else {
                None
            }),
    {
        proof {
            use_type_invariant(self);
        }
        match self.find(address) {
            Some(i) => {
                proof {
                    lemma_model_at(self.entries@, i as int);
                }
                Some(self.entries[i].account)
            },
            None => {
                proof {
                    lemma_model_absent(self.entries@, *address);
                }
                None
            },
        }
    }

    /// Whether any account lives at `address`.
    pub fn contains(&self, address: &Address) -> (r: bool)
        ensures
            r == self@.contains_key(*address),
    {
        self.account(address).is_some()
    }

    /// The holding account at `address`, if one lives there.
    pub fn holding(&self, address: &Address) -> (r: Option<Holding>)
        ensures
            r == holding_at(self@, *address),
    {
        match self.account(address) {
            Some(account) => match account.data {
                AccountData::Holding(h) => Some(h),
                _ => None,
            },
            None => None,
        }
    }

    /// The record at `address`, if one lives there.
    pub fn record(&self, address: &Address) -> (r: Option<Escrow>)
        ensures
            r == record_at(self@, *address),
    {
        match self.account(address) {
            Some(account) => match account.data {
                AccountData::Record(record) => Some(record),
                _ => None,
            },
            None => None,
        }
    }

    /// The native currency at `address`.
    pub fn native(&self, address: &Address) -> (r: u64)
        ensures
            r == native_at(self@, *address),
    {
        match self.account(address) {
            Some(account) => account.native,
            None => 0,
        }
    }

    /// Adds `amount` of native currency to whatever lives at `destination`, or opens a
    /// wallet there.
    pub fn credit(&mut self, destination: &Address, amount: u64) -> (r: Result<(), LedgerError>)
        ensures
            credited(old(self)@, *destination, amount) == outcome(r, final(self)@),
            r is Err ==> final(self)@ == old(self)@,
    {
        match self.account(destination) {
            None => {
                self.put(destination, Account { native: amount, data: AccountData::Wallet });
                Ok(())
            },
            Some(account) => {
                if amount > u64::MAX - account.native {
                    return Err(LedgerError::Overflow);
                }
                self.put(
                    destination,
                    Account { native: account.native + amount, data: account.data },
                );
                Ok(())
            },
        }
    }

    fn allocate(&mut self, address: &Address, data: AccountData, payer: &Authority, deposit: u64)
        -> (r: Result<(), LedgerError>)
        ensures
            allocated(old(self)@, *address, data, payer.key(), deposit) == outcome(
                r,
                final(self)@,
            ),
            r is Err ==> final(self)@ == old(self)@,
    {
        let present = match self.account(address) {
            Some(account) => match account.data {
                AccountData::Wallet => account.native,
                _ => {
                    return Err(LedgerError::AccountInUse);
                },
            },
            None => 0,
        };
        let from = payer.address();
        if from == *address {
            return Err(LedgerError::InsufficientDeposit);
        }
        let owed = if present >= deposit {
            0
        } else {
            deposit - present
        };
        let wallet = match self.account(&from) {
            Some(wallet) => wallet,
            None => {
                return Err(LedgerError::InsufficientDeposit);
            },
        };
        match wallet.data {
            AccountData::Wallet => {},
            _ => {
                return Err(LedgerError::InsufficientDeposit);
            },
        }
        if wallet.native < owed {
            return Err(LedgerError::InsufficientDeposit);
        }
        self.put(&from, Account { native: wallet.native - owed, data: AccountData::Wallet });
        self.put(address, Account { native: present + owed, data });
        Ok(())
    }

    fn deallocate(&mut self, address: &Address, destination: &Address) -> (r: Result<
        (),
        LedgerError,
    >)
        requires
            old(self)@.contains_key(*address),
        ensures
            deallocated(old(self)@, *address, *destination) == outcome(r, final(self)@),
            r is Err ==> final(self)@ == old(self)@,
    {
        if *destination == *address {
            return Err(LedgerError::InvalidDestination);
        }
        let deposit = self.native(address);
        if deposit > u64::MAX - self.native(destination) {
            return Err(LedgerError::Overflow);
        }
        self.discard(address);
        match self.credit(destination, deposit) {
            Ok(()) => Ok(()),
            Err(e) => Err(e),
        }
    }

    /// Allocates an empty holding account of `owner` for asset type `mint` at `address`,
    /// `payer` leaving the storage deposit.
    pub fn create_holding(
        &mut self,
        address: &Address,
        owner: &Address,
        mint: &Address,
        payer: &Authority,
        deposit: u64,
    ) -> (r: Result<(), LedgerError>)
        ensures
            create_holding_result(old(self)@, *address, *owner, *mint, payer.key(), deposit)
                == outcome(r, final(self)@),
            r is Err ==> final(self)@ == old(self)@,
    {
        self.allocate(
            address,
            AccountData::Holding(Holding { mint: *mint, authority: *owner, amount: 0 }),
            payer,
            deposit,
        )
    }

    /// Issues `amount` new units into the holding account at `address`.
    pub fn mint_to(&mut self, address: &Address, amount: u64) -> (r: Result<(), LedgerError>)
        ensures
            mint_to_result(old(self)@, *address, amount) == outcome(r, final(self)@),
            r is Err ==> final(self)@ == old(self)@,
    {
        let account = match self.account(address) {
            Some(account) => account,
            None => {
                return Err(LedgerError::AccountNotFound);
            },
        };
        match account.data {
            AccountData::Holding(h) => {
                if amount > u64::MAX - h.amount {
                    return Err(LedgerError::Overflow);
                }
                self.put(
                    address,
                    Account {
                        native: account.native,
                        data: AccountData::Holding(
                            Holding {
                                mint: h.mint,
                                authority: h.authority,
                                amount: h.amount + amount,
                            },
                        ),
                    },
                );
                Ok(())
            },
            _ => Err(LedgerError::AccountNotFound),
        }
    }

    /// Moves `amount` units of `mint` from the holding account at `from` to the one at
    /// `to`, in the name of `authority`.
    pub fn transfer(
        &mut self,
        from: &Address,
        to: &Address,
        mint: &Address,
        amount: u64,
        authority: &Authority,
    ) -> (r: Result<(), LedgerError>)
        ensures
            transfer_result(old(self)@, *from, *to, *mint, amount, authority.key()) == outcome(
                r,
                final(self)@,
            ),
            r is Err ==> final(self)@ == old(self)@,
    {
        let source = match self.holding(from) {
            Some(h) => h,
            None => {
                return Err(LedgerError::AccountNotFound);
            },
        };
        let destination = match self.holding(to) {
            Some(h) => h,
            None => {
                return Err(LedgerError::AccountNotFound);
            },
        };
        if !(source.mint == *mint) || !(destination.mint == *mint) {
            return Err(LedgerError::MintMismatch);
        }
        if !(source.authority == authority.address()) {
            return Err(LedgerError::InvalidAuthority);
        }
        if source.amount < amount {
            return Err(LedgerError::InsufficientFunds);
        }
        if *from == *to {
            return Ok(());
        }
        if amount > u64::MAX - destination.amount {
            return Err(LedgerError::Overflow);
        }
        let source_native = self.native(from);
        let destination_native = self.native(to);
        self.put(
            from,
            Account {
                native: source_native,
                data: AccountData::Holding(
                    Holding {
                        mint: source.mint,
                        authority: source.authority,
                        amount: source.amount - amount,
                    },
                ),
            },
        );
        self.put(
            to,
            Account {
                native: destination_native,
                data: AccountData::Holding(
                    Holding {
                        mint: destination.mint,
                        authority: destination.authority,
                        amount: destination.amount + amount,
                    },
                ),
            },
        );
        Ok(())
    }

    /// Closes the empty holding account at `address`, in the name of `authority`, and
    /// hands its storage deposit to `destination`.
    pub fn close_holding(&mut self, address: &Address, destination: &Address, authority: &Authority)
        -> (r: Result<(), LedgerError>)
        ensures
            close_holding_result(old(self)@, *address, *destination, authority.key()) == outcome(
                r,
                final(self)@,
            ),
            r is Err ==> final(self)@ == old(self)@,
    {
        match self.holding(address) {
            None => Err(LedgerError::AccountNotFound),
            Some(h) => {
                if !(h.authority == authority.address()) {
                    return Err(LedgerError::InvalidAuthority);
                }
                if h.amount != 0 {
                    return Err(LedgerError::NonEmpty);
                }
                self.deallocate(address, destination)
            },
        }
    }

    /// Allocates `record` at `address`, `payer` leaving the storage deposit.
    pub fn create_record(
        &mut self,
        address: &Address,
        record: Escrow,
        payer: &Authority,
        deposit: u64,
    ) -> (r: Result<(), LedgerError>)
        ensures
            create_record_result(old(self)@, *address, record, payer.key(), deposit) == outcome(
                r,
                final(self)@,
            ),
            r is Err ==> final(self)@ == old(self)@,
    {
        self.allocate(address, AccountData::Record(record), payer, deposit)
    }

    /// Closes the record at `address` and hands its storage deposit to `destination`.
    pub fn close_record(&mut self, address: &Address, destination: &Address) -> (r: Result<
        (),
        LedgerError,
    >)
        ensures
            close_record_result(old(self)@, *address, *destination) == outcome(r, final(self)@),
            r is Err ==> final(self)@ == old(self)@,
    {
        match self.record(address) {
            None => Err(LedgerError::AccountNotFound),
            Some(_) => self.deallocate(address, destination),
        }
    }
}

} // verus!
