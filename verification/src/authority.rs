use crate::address::{
    escrow_tag, escrow_tag_bytes, rederive, rederived, reproduced, seed_views,
    signer_seed_bytes, signer_seeds, Address,
};
use crate::error::EscrowError;
use crate::state::Escrow;
use vstd::prelude::*;

verus! {

/// What lets the program act in the name of a derived address: the seeds that reproduce
/// it. A value of this type exists only for seeds that do, and only for an address that no
/// key pair has.
pub struct SignerCapability {
    program_id: Address,
    address: Address,
    seeds: Vec<Vec<u8>>,
}

impl SignerCapability {
    #[verifier::type_invariant]
    spec fn reproduces(&self) -> bool {
        reproduced(self.program_id, seed_views(self.seeds@)) == Some(self.address@)
    }

    /// The address the capability speaks for.
    pub closed spec fn key(&self) -> Address {
        self.address
    }

    /// The program under which the address is derived.
    pub closed spec fn program(&self) -> Address {
        self.program_id
    }

    /// The seeds that reproduce the address.
    pub closed spec fn seeds_view(&self) -> Seq<Seq<u8>> {
        seed_views(self.seeds@)
    }

    /// The address the capability speaks for.
    pub fn address(&self) -> (a: Address)
        ensures
            a == self.key(),
    {
        self.address
    }

    /// The program under which the address is derived.
    pub fn program_id(&self) -> (p: Address)
        ensures
            p == self.program(),
    {
        self.program_id
    }

    /// The seeds to hand to the ledger in place of a signature. They reproduce the
    /// capability's address under its program.
    pub fn seeds(&self) -> (s: &Vec<Vec<u8>>)
        ensures
            seed_views(s@) == self.seeds_view(),
            reproduced(self.program(), self.seeds_view()) == Some(self.key()@),
    {
        proof {
            use_type_invariant(self);
        }
        &self.seeds
    }
}

/// Who authorises a ledger action: a party that signed the invocation, or the program
/// itself, by a capability.
pub enum Authority {
    Signature(Address),
    Program(SignerCapability),
}

impl Authority {
    /// The address in whose name the authority acts.
    pub open spec fn key(&self) -> Address {
        match self {
            Authority::Signature(a) => *a,
            Authority::Program(capability) => capability.key(),
        }
    }

    /// The address in whose name the authority acts.
    pub fn address(&self) -> (a: Address)
        ensures
            a == self.key(),
    {
        match self {
            Authority::Signature(a) => *a,
            Authority::Program(capability) => capability.address(),
        }
    }
}

/// What a capability carries: the address it speaks for, the program under which that
/// address is derived, and the seeds that reproduce it.
pub struct CapabilityView {
    pub key: Address,
    pub program: Address,
    pub seeds: Seq<Seq<u8>>,
}

/// What a capability carries, where there is one.
pub open spec fn capability_view(capability: Option<SignerCapability>) -> Option<
    CapabilityView,
> {
    match capability {
        Some(capability) => Some(
            CapabilityView {
                key: capability.key(),
                program: capability.program(),
                seeds: capability.seeds_view(),
            },
        ),
        None => None,
    }
}

/// Issues a capability for `vault_authority` exactly if `yielded`, the address that the
/// seeds yield under the program, is that address. Nothing is issued otherwise.
fn issue(
    program_id: &Address,
    seeds: Vec<Vec<u8>>,
    yielded: Option<Address>,
    vault_authority: &Address,
) -> (r: Result<SignerCapability, EscrowError>)
    requires
        yielded matches Some(a) ==> reproduced(*program_id, seed_views(seeds@)) == Some(a@),
    ensures
        match r {
            Ok(capability) => {
                &&& yielded == Some(*vault_authority)
                &&& capability.key() == *vault_authority
                &&& capability.program() == *program_id
                &&& capability.seeds_view() == seed_views(seeds@)
            },
            Err(e) => e == EscrowError::Unauthorized && yielded != Some(*vault_authority),
        },
{
    match yielded {
        Some(address) => {
            if address == *vault_authority {
                Ok(SignerCapability { program_id: *program_id, address, seeds })
            } else {
                Err(EscrowError::Unauthorized)
            }
        },
        None => Err(EscrowError::Unauthorized),
    }
}

/// Presents the record's own derivation inputs to the derivation again and issues a
/// capability for the vault's authority exactly if they reproduce it. Nothing is issued
/// otherwise.
pub fn authorize_as_vault_controller(
    program_id: &Address,
    record: &Escrow,
    vault_authority: &Address,
) -> (r: Result<SignerCapability, EscrowError>)
    ensures
        match r {
            Ok(capability) => {
                &&& rederived(*program_id, escrow_tag(), record.maker, record.seed, record.bump)
                    == Some(vault_authority@)
                &&& capability.key() == *vault_authority
                &&& capability.program() == *program_id
                &&& capability.seeds_view() == signer_seeds(
                    escrow_tag(),
                    record.maker,
                    record.seed,
                    record.bump,
                )
            },
            Err(e) => {
                &&& e == EscrowError::Unauthorized
                &&& rederived(*program_id, escrow_tag(), record.maker, record.seed, record.bump)
                    != Some(vault_authority@)
            },
        },
{
    let tag = escrow_tag_bytes();
    let seeds = signer_seed_bytes(&tag, &record.maker, record.seed, record.bump);
    let yielded = rederive(program_id, &tag, &record.maker, record.seed, record.bump);
    proof {
        if yielded is Some {
            Address::lemma_view_injective(yielded->0, *vault_authority);
        }
    }
    issue(program_id, seeds, yielded, vault_authority)
}

} // verus!
