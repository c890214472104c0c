use crate::address::Address;
use crate::error::BindingError;
use vstd::bytes::{
    lemma_auto_spec_u64_to_from_le_bytes, spec_u64_from_le_bytes, spec_u64_to_le_bytes,
    u64_from_le_bytes, u64_to_le_bytes,
};
use vstd::prelude::*;
use vstd::slice::slice_subrange;

verus! {

/// The terms of one exchange, fixed when the escrow is opened.
#[derive(Clone, Copy, Debug, PartialEq, Eq)]
pub struct Escrow {
    /// The nonce the maker chose; part of the record's address.
    pub seed: u64,
    /// The party that locked the first asset.
    pub maker: Address,
    /// The asset type that is locked.
    pub mint_a: Address,
    /// The asset type the maker asks for.
    pub mint_b: Address,
    /// How much of the second asset the maker asks for.
    pub receive: u64,
    /// The bump that makes the record's address program-controlled.
    pub bump: u8,
}

/// The identities an invocation presents next to a record: the accounts it names and what
/// the vault it names declares of itself. A cancellation names no second asset type.
#[derive(Clone, Copy, Debug, PartialEq, Eq)]
pub struct Supplied {
    pub maker: Address,
    pub mint_a: Address,
    pub mint_b: Option<Address>,
    pub vault_authority: Address,
    pub vault_mint: Address,
}

/// The first field, in the order maker, first asset, second asset, vault authority, vault
/// asset, in which what is supplied disagrees with the record that lives at `escrow`.
pub open spec fn binding_result(record: Escrow, escrow: Address, supplied: Supplied) -> Result<
    (),
    BindingError,
> {
    if supplied.maker != record.maker {
        Err(BindingError::Maker)
    } else if supplied.mint_a != record.mint_a {
        Err(BindingError::MintA)
    } else if supplied.mint_b is Some && supplied.mint_b->0 != record.mint_b {
        Err(BindingError::MintB)
    } else if supplied.vault_authority != escrow {
        Err(BindingError::VaultAuthority)
    } else if supplied.vault_mint != record.mint_a {
        Err(BindingError::VaultMint)
    } else {
        Ok(())
    }
}

/// What is supplied agrees with the record in every field.
pub open spec fn bound(record: Escrow, escrow: Address, supplied: Supplied) -> bool {
    &&& supplied.maker == record.maker
    &&& supplied.mint_a == record.mint_a
    &&& (supplied.mint_b matches Some(m) ==> m == record.mint_b)
    &&& supplied.vault_authority == escrow
    &&& supplied.vault_mint == record.mint_a
}

/// The length of a stored record in bytes.
pub const RECORD_LEN: usize = 121;

/// The eight bytes that mark a stored account as an escrow record.
pub open spec fn record_tag() -> Seq<u8> {
    seq![31u8, 213u8, 123u8, 187u8, 186u8, 22u8, 218u8, 155u8]
}

/// A record as it is stored: the tag, then the fields in their order, the integers in
/// little-endian bytes.
pub open spec fn encoded(record: Escrow) -> Seq<u8> {
    record_tag() + spec_u64_to_le_bytes(record.seed) + record.maker@ + record.mint_a@
        + record.mint_b@ + spec_u64_to_le_bytes(record.receive) + seq![record.bump]
}

/// The fields of a stored record sit at fixed places.
proof fn lemma_encoded_layout(record: Escrow)
    ensures
        encoded(record).len() == RECORD_LEN,
        encoded(record).subrange(0, 8) == record_tag(),
        encoded(record).subrange(8, 16) == spec_u64_to_le_bytes(record.seed),
        encoded(record).subrange(16, 48) == record.maker@,
        encoded(record).subrange(48, 80) == record.mint_a@,
        encoded(record).subrange(80, 112) == record.mint_b@,
        encoded(record).subrange(112, 120) == spec_u64_to_le_bytes(record.receive),
        encoded(record)[120] == record.bump,
{
    lemma_auto_spec_u64_to_from_le_bytes();
    let e = encoded(record);
    assert(e.len() == RECORD_LEN);
    assert(e.subrange(0, 8) =~= record_tag());
    assert(e.subrange(8, 16) =~= spec_u64_to_le_bytes(record.seed));
    assert(e.subrange(16, 48) =~= record.maker@);
    assert(e.subrange(48, 80) =~= record.mint_a@);
    assert(e.subrange(80, 112) =~= record.mint_b@);
    assert(e.subrange(112, 120) =~= spec_u64_to_le_bytes(record.receive));
}

/// Two records that are stored as the same bytes are the same record.
pub proof fn lemma_encoding_injective(a: Escrow, b: Escrow)
    requires
        encoded(a) == encoded(b),
    ensures
        a == b,
{
    lemma_auto_spec_u64_to_from_le_bytes();
    lemma_encoded_layout(a);
    lemma_encoded_layout(b);
    Address::lemma_view_injective(a.maker, b.maker);
    Address::lemma_view_injective(a.mint_a, b.mint_a);
    Address::lemma_view_injective(a.mint_b, b.mint_b);
    assert(spec_u64_from_le_bytes(spec_u64_to_le_bytes(a.seed)) == a.seed);
    assert(spec_u64_from_le_bytes(spec_u64_to_le_bytes(b.seed)) == b.seed);
    assert(spec_u64_from_le_bytes(spec_u64_to_le_bytes(a.receive)) == a.receive);
    assert(spec_u64_from_le_bytes(spec_u64_to_le_bytes(b.receive)) == b.receive);
}

fn append(out: &mut Vec<u8>, part: &Vec<u8>)
    ensures
        final(out)@ == old(out)@ + part@,
{
    let mut i: usize = 0;
    while i < part.len()
        invariant
            i <= part@.len(),
            out@ == old(out)@ + part@.take(i as int),
        decreases part@.len() - i,
    {
        out.push(part[i]);
        proof {
            assert(out@ =~= old(out)@ + part@.take(i + 1));
        }
        i += 1;
    }
    proof {
        assert(part@.take(i as int) =~= part@);
    }
}

fn address_at(bytes: &[u8], start: usize) -> (a: Address)
    requires
        start + 32 <= bytes@.len(),
    ensures
        a@ == bytes@.subrange(start as int, start + 32),
{
    let n = bytes.len();
    let mut a = [0u8; 32];
    let mut i: usize = 0;
    while i < 32
        invariant
            i <= 32,
            n == bytes@.len(),
            start + 32 <= n,
            forall|j: int| 0 <= j < i ==> a@[j] == bytes@[start + j],
        decreases 32 - i,
    {
        a[i] = bytes[start + i];
        i += 1;
    }
    let address = Address { bytes: a };
    proof {
        assert(address@ =~= bytes@.subrange(start as int, start + 32));
    }
    address
}

impl Escrow {
    /// The record as it is stored.
    pub fn to_bytes(&self) -> (bytes: Vec<u8>)
        ensures
            bytes@ == encoded(*self),
            bytes@.len() == RECORD_LEN,
    {
        let mut bytes: Vec<u8> = Vec::new();
        bytes.push(31u8);
        bytes.push(213u8);
        bytes.push(123u8);
        bytes.push(187u8);
        bytes.push(186u8);
        bytes.push(22u8);
        bytes.push(218u8);
        bytes.push(155u8);
        proof {
            assert(bytes@ =~= record_tag());
        }
        append(&mut bytes, &u64_to_le_bytes(self.seed));
        append(&mut bytes, &self.maker.to_vec());
        append(&mut bytes, &self.mint_a.to_vec());
        append(&mut bytes, &self.mint_b.to_vec());
        append(&mut bytes, &u64_to_le_bytes(self.receive));
        bytes.push(self.bump);
        proof {
            lemma_encoded_layout(*self);
            assert(bytes@ =~= encoded(*self));
        }
        bytes
    }

    /// Reads a stored record: the record that is stored as exactly these bytes, if there
    /// is one.
    pub fn from_bytes(bytes: &[u8]) -> (r: Option<Escrow>)
        ensures
            r matches Some(record) ==> encoded(record) == bytes@,
            forall|record: Escrow| encoded(record) == bytes@ ==> r == Some(record),
    {
        if bytes.len() != RECORD_LEN {
            proof {
                assert forall|record: Escrow| encoded(record) != bytes@ by {
                    lemma_encoded_layout(record);
                }
            }
            return None;
        }
        let tag: [u8; 8] = [31u8, 213u8, 123u8, 187u8, 186u8, 22u8, 218u8, 155u8];
        let mut i: usize = 0;
        while i < 8
            invariant
                i <= 8,
                bytes@.len() == RECORD_LEN,
                tag@ =~= record_tag(),
                forall|j: int| 0 <= j < i ==> bytes@[j] == record_tag()[j],
            decreases 8 - i,
        {
            if bytes[i] != tag[i] {
                proof {
                    assert forall|record: Escrow| encoded(record) != bytes@ by {
                        lemma_encoded_layout(record);
                        let at = i as int;
                        assert(encoded(record).subrange(0, 8)[at] == encoded(record)[at]);
                    }
                }
                return None;
            }
            i += 1;
        }
        let seed = u64_from_le_bytes(slice_subrange(bytes, 8, 16));
        let maker = address_at(bytes, 16);
        let mint_a = address_at(bytes, 48);
        let mint_b = address_at(bytes, 80);
        let receive = u64_from_le_bytes(slice_subrange(bytes, 112, 120));
        let bump = bytes[120];
        let record = Escrow { seed, maker, mint_a, mint_b, receive, bump };
        proof {
            lemma_auto_spec_u64_to_from_le_bytes();
            assert(spec_u64_to_le_bytes(seed) == bytes@.subrange(8, 16));
            assert(spec_u64_to_le_bytes(receive) == bytes@.subrange(112, 120));
            assert(encoded(record) =~= bytes@);
            assert forall|other: Escrow| encoded(other) == bytes@ implies other == record by {
                lemma_encoding_injective(other, record);
            }
        }
        Some(record)
    }

    /// Checks what an invocation supplies against this record, which lives at `escrow`,
    /// and names the first field that disagrees.
    pub fn validate_binding(&self, escrow: &Address, supplied: &Supplied) -> (r: Result<
        (),
        BindingError,
    >)
        ensures
            r == binding_result(*self, *escrow, *supplied),
            r is Ok <==> bound(*self, *escrow, *supplied),
    {
        if !(supplied.maker == self.maker) {
            return Err(BindingError::Maker);
        }
        if !(supplied.mint_a == self.mint_a) {
            return Err(BindingError::MintA);
        }
        match supplied.mint_b {
            Some(m) => {
                if !(m == self.mint_b) {
                    return Err(BindingError::MintB);
                }
            },
            None => {},
        }
        if !(supplied.vault_authority == *escrow) {
            return Err(BindingError::VaultAuthority);
        }
        if !(supplied.vault_mint == self.mint_a) {
            return Err(BindingError::VaultMint);
        }
        Ok(())
    }
}

} // verus!
