use crate::error::EscrowError;
use vstd::bytes::{spec_u64_to_le_bytes, u64_to_le_bytes};
use vstd::prelude::*;

verus! {

/// A 32-byte account address.
#[derive(Clone, Copy, Debug, Hash)]
pub struct Address {
    pub bytes: [u8; 32],
}

impl View for Address {
    type V = Seq<u8>;

    open spec fn view(&self) -> Seq<u8> {
        self.bytes@
    }
}

impl PartialEq for Address {
    fn eq(&self, other: &Self) -> (r: bool) {
        let mut i: usize = 0;
        while i < 32
            invariant
                i <= 32,
                forall|j: int| 0 <= j < i ==> self.bytes[j] == other.bytes[j],
            decreases 32 - i,
        {
            if self.bytes[i] != other.bytes[i] {
                return false;
            }
            i += 1;
        }
        proof {
            assert(self.bytes =~= other.bytes);
        }
        true
    }
}

impl Eq for Address {

}

impl vstd::std_specs::cmp::PartialEqSpecImpl for Address {
    open spec fn obeys_eq_spec() -> bool {
        true
    }

    open spec fn eq_spec(&self, other: &Self) -> bool {
        *self == *other
    }
}

impl Address {
    pub fn new(bytes: [u8; 32]) -> (a: Address)
        ensures
            a.bytes == bytes,
    {
        Address { bytes }
    }

    /// The address as an owned byte string.
    pub fn to_vec(&self) -> (v: Vec<u8>)
        ensures
            v@ == self@,
    {
        let mut v: Vec<u8> = Vec::new();
        let mut i: usize = 0;
        while i < 32
            invariant
                i <= 32,
                v@.len() == i,
                forall|j: int| 0 <= j < i ==> v@[j] == self.bytes[j],
            decreases 32 - i,
        {
            v.push(self.bytes[i]);
            i += 1;
        }
        proof {
            assert(v@ =~= self@);
        }
        v
    }

    /// Two addresses with the same bytes are the same address.
    pub proof fn lemma_view_injective(a: Address, b: Address)
        ensures
            (a@ == b@) <==> (a == b),
    {
        if a@ == b@ {
            assert forall|i: int| 0 <= i < 32 implies a.bytes[i] == b.bytes[i] by {
                assert(a@[i] == b@[i]);
            }
            assert(a.bytes =~= b.bytes);
        }
    }
}

/// The programs an escrow deployment is bound to: the escrow program itself, under which
/// record addresses are derived, and the two ledger programs under which holding
/// addresses are derived.
#[derive(Clone, Copy, Debug, PartialEq, Eq)]
pub struct ProgramIds {
    pub escrow_program: Address,
    pub token_program: Address,
    pub associated_token_program: Address,
}

/// The bytes of an address that may be missing.
pub open spec fn address_bytes(a: Option<Address>) -> Option<Seq<u8>> {
    match a {
        Some(a) => Some(a@),
        None => None,
    }
}

/// What `Pubkey::try_find_program_address` of `anchor_lang` returns for these seeds under
/// this program: the derived address and its bump, or nothing.
pub uninterp spec fn found_program_address(seeds: Seq<Seq<u8>>, program_id: Seq<u8>) -> Option<
    (Seq<u8>, u8),
>;

/// What `Pubkey::create_program_address` of `anchor_lang` returns for these seeds under
/// this program: the address created from them, or nothing where it reports an error.
pub uninterp spec fn created_program_address(seeds: Seq<Seq<u8>>, program_id: Seq<u8>) -> Option<
    Seq<u8>,
>;

/// What `Pubkey::is_on_curve` of `anchor_lang` returns for an address: whether it is the
/// public key of a key pair.
pub uninterp spec fn on_curve(address: Seq<u8>) -> bool;

/// The error type of `Pubkey::create_program_address`, carried through and never read.
#[verifier::external_type_specification]
#[verifier::external_body]
pub struct ExPubkeyError(anchor_lang::solana_program::pubkey::PubkeyError);

/// The seeds as byte strings.
pub open spec fn seed_views(seeds: Seq<Vec<u8>>) -> Seq<Seq<u8>> {
    seeds.map_values(|s: Vec<u8>| s@)
}

/// Calls `Pubkey::try_find_program_address`. Not proved: that what comes back is the named
/// result of the call on these seeds and this program.
#[verifier::external_body]
fn try_find_program_address(seeds: &Vec<Vec<u8>>, program_id: &Address) -> (r: Option<
    (Address, u8),
>)
    ensures
        r matches Some((a, b)) ==> found_program_address(seed_views(seeds@), program_id@) == Some(
            (a@, b),
        ),
        r is None ==> found_program_address(seed_views(seeds@), program_id@) is None,
{
    let parts: Vec<&[u8]> = seeds.iter().map(|s| s.as_slice()).collect();
    let id = anchor_lang::prelude::Pubkey::new_from_array(program_id.bytes);
    match anchor_lang::prelude::Pubkey::try_find_program_address(&parts, &id) {
        Some((a, b)) => Some((Address { bytes: a.to_bytes() }, b)),
        None => None,
    }
}

/// Calls `Pubkey::is_on_curve`. Not proved: that what comes back is the named result of
/// the call on this address.
#[verifier::external_body]
fn is_on_curve(address: &Address) -> (r: bool)
    ensures
        r == on_curve(address@),
{
    anchor_lang::prelude::Pubkey::new_from_array(address.bytes).is_on_curve()
}

/// Calls `Pubkey::create_program_address`. Not proved: that what comes back is the named
/// result of the call on these seeds and this program, an error standing for nothing.
#[verifier::external_body]
fn create_program_address(seeds: &Vec<Vec<u8>>, program_id: &Address) -> (r: Result<
    Address,
    anchor_lang::solana_program::pubkey::PubkeyError,
>)
    ensures
        r matches Ok(a) ==> created_program_address(seed_views(seeds@), program_id@) == Some(a@),
        r is Err ==> created_program_address(seed_views(seeds@), program_id@) is None,
{
    let parts: Vec<&[u8]> = seeds.iter().map(|s| s.as_slice()).collect();
    let id = anchor_lang::prelude::Pubkey::new_from_array(program_id.bytes);
    match anchor_lang::prelude::Pubkey::create_program_address(&parts, &id) {
        Ok(a) => Ok(Address { bytes: a.to_bytes() }),
        Err(e) => Err(e),
    }
}

/// The namespace tag of escrow records: the ASCII bytes of `escrow`.
pub open spec fn escrow_tag() -> Seq<u8> {
    seq![101u8, 115u8, 99u8, 114u8, 111u8, 119u8]
}

/// The seeds a derivation starts from: the tag, the owner's address, and the nonce in
/// little-endian bytes.
pub open spec fn derivation_seeds(tag: Seq<u8>, owner: Address, seed: u64) -> Seq<Seq<u8>> {
    seq![tag, owner@, spec_u64_to_le_bytes(seed)]
}

/// The derivation seeds followed by the bump: the tuple that proves control of a derived
/// address.
pub open spec fn signer_seeds(tag: Seq<u8>, owner: Address, seed: u64, bump: u8) -> Seq<Seq<u8>> {
    derivation_seeds(tag, owner, seed).push(seq![bump])
}

/// The program-controlled address that presenting `seeds` to the derivation under
/// `program_id` yields: the address created from them, provided that no key pair has it.
pub open spec fn reproduced(program_id: Address, seeds: Seq<Seq<u8>>) -> Option<Seq<u8>> {
    match created_program_address(seeds, program_id@) {
        Some(a) => if on_curve(a) {
            None
        } else {
            Some(a)
        },
        None => None,
    }
}

/// The address and bump derived from `seeds` under `program_id`: what the search finds,
/// provided that presenting the seeds with the bump again reproduces the address.
pub open spec fn derived(program_id: Address, seeds: Seq<Seq<u8>>) -> Option<(Seq<u8>, u8)> {
    match found_program_address(seeds, program_id@) {
        Some((a, b)) => if reproduced(program_id, seeds.push(seq![b])) == Some(a) {
            Some((a, b))
        } else {
            None
        },
        None => None,
    }
}

/// The address that presenting `(tag, owner, seed, bump)` to the derivation yields.
pub open spec fn rederived(program_id: Address, tag: Seq<u8>, owner: Address, seed: u64, bump: u8)
    -> Option<Seq<u8>> {
    reproduced(program_id, signer_seeds(tag, owner, seed, bump))
}

/// The address of the escrow record of `maker` and `seed`, with its bump.
pub open spec fn escrow_address(program_id: Address, maker: Address, seed: u64) -> Option<
    (Seq<u8>, u8),
> {
    derived(program_id, derivation_seeds(escrow_tag(), maker, seed))
}

/// The seeds of the holding account of `owner` for asset type `mint`.
pub open spec fn holding_seeds(ids: ProgramIds, owner: Address, mint: Address) -> Seq<Seq<u8>> {
    seq![owner@, ids.token_program@, mint@]
}

/// The address of the holding account of `owner` for asset type `mint`.
pub open spec fn holding_address(ids: ProgramIds, owner: Address, mint: Address) -> Option<
    Seq<u8>,
> {
    match derived(ids.associated_token_program, holding_seeds(ids, owner, mint)) {
        Some((a, _)) => Some(a),
        None => None,
    }
}

/// The tag of escrow records as bytes.
pub fn escrow_tag_bytes() -> (tag: Vec<u8>)
    ensures
        tag@ == escrow_tag(),
{
    let mut tag: Vec<u8> = Vec::new();
    tag.push(101u8);
    tag.push(115u8);
    tag.push(99u8);
    tag.push(114u8);
    tag.push(111u8);
    tag.push(119u8);
    proof {
        assert(tag@ =~= escrow_tag());
    }
    tag
}

/// Presents `seeds` to the derivation under `program_id` and returns the address they
/// yield, if they yield one and no key pair has it.
fn present(seeds: &Vec<Vec<u8>>, program_id: &Address) -> (r: Option<Address>)
    ensures
        address_bytes(r) == reproduced(*program_id, seed_views(seeds@)),
{
    match create_program_address(seeds, program_id) {
        Ok(a) => {
            if is_on_curve(&a) {
                None
            } else {
                Some(a)
            }
        },
        Err(_) => None,
    }
}

/// Searches the address that `seeds` derive under `program_id`, presents the seeds with
/// the bump found to the derivation again, and makes sure that this reproduces the
/// address.
fn search(seeds: &Vec<Vec<u8>>, program_id: &Address) -> (r: Option<(Address, u8)>)
    ensures
        match r {
            Some((a, b)) => derived(*program_id, seed_views(seeds@)) == Some((a@, b)),
            None => derived(*program_id, seed_views(seeds@)) is None,
        },
{
    let (a, b) = match try_find_program_address(seeds, program_id) {
        Some(found) => found,
        None => {
            return None;
        },
    };
    let mut presented: Vec<Vec<u8>> = Vec::new();
    let mut i: usize = 0;
    while i < seeds.len()
        invariant
            i <= seeds@.len(),
            presented@.len() == i,
            forall|j: int| 0 <= j < i ==> presented@[j]@ == seeds@[j]@,
        decreases seeds@.len() - i,
    {
        presented.push(seeds[i].clone());
        i += 1;
    }
    let mut last: Vec<u8> = Vec::new();
    last.push(b);
    proof {
        assert(last@ =~= seq![b]);
    }
    presented.push(last);
    proof {
        assert(seed_views(presented@) =~= seed_views(seeds@).push(seq![b]));
    }
    match present(&presented, program_id) {
        Some(again) => {
            proof {
                Address::lemma_view_injective(again, a);
            }
            if again == a {
                Some((a, b))
            } else {
                None
            }
        },
        None => None,
    }
}

/// Derives the program-controlled address for a namespace tag, an owner and a nonce, with
/// the bump that makes it one: an address that no key pair has, and that presenting the
/// same inputs with the bump reproduces. Fails only where no bump yields one.
pub fn derive(program_id: &Address, tag: &Vec<u8>, owner: &Address, seed: u64) -> (r: Result<
    (Address, u8),
    EscrowError,
>)
    ensures
        match r {
            Ok((a, b)) => derived(*program_id, derivation_seeds(tag@, *owner, seed)) == Some(
                (a@, b),
            ) && rederived(*program_id, tag@, *owner, seed, b) == Some(a@) && !on_curve(a@),
            Err(e) => e == EscrowError::NoViableBump && derived(
                *program_id,
                derivation_seeds(tag@, *owner, seed),
            ) is None,
        },
{
    let mut seeds: Vec<Vec<u8>> = Vec::new();
    seeds.push(tag.clone());
    seeds.push(owner.to_vec());
    seeds.push(u64_to_le_bytes(seed));
    proof {
        assert(seed_views(seeds@) =~= derivation_seeds(tag@, *owner, seed));
    }
    match search(&seeds, program_id) {
        Some((a, b)) => Ok((a, b)),
        None => Err(EscrowError::NoViableBump),
    }
}

/// Presents `(tag, owner, seed, bump)` to the derivation again and returns the address it
/// yields, if it yields one and no key pair has it.
pub fn rederive(program_id: &Address, tag: &Vec<u8>, owner: &Address, seed: u64, bump: u8) -> (r:
    Option<Address>)
    ensures
        match r {
            Some(a) => rederived(*program_id, tag@, *owner, seed, bump) == Some(a@),
            None => rederived(*program_id, tag@, *owner, seed, bump) is None,
        },
{
    let seeds = signer_seed_bytes(tag, owner, seed, bump);
    present(&seeds, program_id)
}

/// The signer seeds `(tag, owner, seed, bump)` as byte strings.
pub fn signer_seed_bytes(tag: &Vec<u8>, owner: &Address, seed: u64, bump: u8) -> (seeds: Vec<
    Vec<u8>,
>)
    ensures
        seed_views(seeds@) == signer_seeds(tag@, *owner, seed, bump),
{
    let mut seeds: Vec<Vec<u8>> = Vec::new();
    seeds.push(tag.clone());
    seeds.push(owner.to_vec());
    seeds.push(u64_to_le_bytes(seed));
    let mut last: Vec<u8> = Vec::new();
    last.push(bump);
    seeds.push(last);
    proof {
        assert(last@ =~= seq![bump]);
        assert(seed_views(seeds@) =~= signer_seeds(tag@, *owner, seed, bump));
    }
    seeds
}

fn same_bytes(a: &Vec<u8>, b: &Vec<u8>) -> (r: bool)
    ensures
        r == (a@ == b@),
{
    if a.len() != b.len() {
        return false;
    }
    let mut i: usize = 0;
    while i < a.len()
        invariant
            i <= a@.len(),
            a@.len() == b@.len(),
            forall|j: int| 0 <= j < i ==> a@[j] == b@[j],
        decreases a@.len() - i,
    {
        if a[i] != b[i] {
            return false;
        }
        i += 1;
    }
    proof {
        assert(a@ =~= b@);
    }
    true
}

/// Whether two lists of seeds are the same byte strings in the same order.
pub fn same_seeds(a: &Vec<Vec<u8>>, b: &Vec<Vec<u8>>) -> (r: bool)
    ensures
        r == (seed_views(a@) == seed_views(b@)),
{
    if a.len() != b.len() {
        proof {
            assert(seed_views(a@).len() != seed_views(b@).len());
        }
        return false;
    }
    let mut i: usize = 0;
    while i < a.len()
        invariant
            i <= a@.len(),
            a@.len() == b@.len(),
            forall|j: int| 0 <= j < i ==> a@[j]@ == b@[j]@,
        decreases a@.len() - i,
    {
        if !same_bytes(&a[i], &b[i]) {
            proof {
                let at = i as int;
                assert(seed_views(a@)[at] == a@[at]@);
                assert(seed_views(b@)[at] == b@[at]@);
            }
            return false;
        }
        i += 1;
    }
    proof {
        assert(seed_views(a@) =~= seed_views(b@));
    }
    true
}

/// The address of the escrow record of `maker` and `seed`, with its bump.
pub fn derive_escrow_address(program_id: &Address, maker: &Address, seed: u64) -> (r: Result<
    (Address, u8),
    EscrowError,
>)
    ensures
        match r {
            Ok((a, b)) => escrow_address(*program_id, *maker, seed) == Some((a@, b)) && rederived(
                *program_id,
                escrow_tag(),
                *maker,
                seed,
                b,
            ) == Some(a@) && !on_curve(a@),
            Err(e) => e == EscrowError::NoViableBump && escrow_address(*program_id, *maker, seed)
                is None,
        },
{
    let tag = escrow_tag_bytes();
    derive(program_id, &tag, maker, seed)
}

/// The address of the holding account of `owner` for asset type `mint`.
pub fn derive_holding_address(ids: &ProgramIds, owner: &Address, mint: &Address) -> (r: Option<
    Address,
>)
    ensures
        match r {
            Some(a) => holding_address(*ids, *owner, *mint) == Some(a@) && !on_curve(a@),
            None => holding_address(*ids, *owner, *mint) is None,
        },
{
    let mut seeds: Vec<Vec<u8>> = Vec::new();
    seeds.push(owner.to_vec());
    seeds.push(ids.token_program.to_vec());
    seeds.push(mint.to_vec());
    proof {
        assert(seed_views(seeds@) =~= holding_seeds(*ids, *owner, *mint));
    }
    match search(&seeds, &ids.associated_token_program) {
        Some((a, _)) => Some(a),
        None => None,
    }
}

} // verus!
