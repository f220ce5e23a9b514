//! Deterministic address derivation.
//!
//! An address is held as its raw bytes. The derivation maps a namespace (a
//! program id) and an ordered sequence of seed components to an address and a
//! disambiguation bump; identical inputs always yield the identical result.
//! The derivation is performed by the host ledger's address scheme and is
//! named here rather than restated: contracts speak of `pda_of` and callers
//! check caller-supplied addresses against it before any mutation.

use anchor_lang::solana_program::pubkey::Pubkey;
use vstd::prelude::*;

verus! {

/// Number of bytes in a ledger address.
pub const ADDRESS_BYTES: usize = 32;

/// A ledger address, held as its raw bytes.
pub struct Address {
    pub bytes: Vec<u8>,
}

impl View for Address {
    type V = Seq<u8>;

    open spec fn view(&self) -> Seq<u8> {
        self.bytes@
    }
}

/// What the host's program-derived-address scheme returns for a namespace and
/// an ordered sequence of seed components: an address and a bump, or nothing
/// when the seed material is too large or no viable bump exists.
pub uninterp spec fn pda_of(program: Seq<u8>, seeds: Seq<Seq<u8>>) -> Option<(Seq<u8>, u8)>;

impl Address {
    /// The address has the protocol-defined width.
    pub open spec fn wf(self) -> bool {
        self@.len() == ADDRESS_BYTES
    }

    /// Builds an address from its raw bytes.
    pub fn from_bytes(bytes: Vec<u8>) -> (r: Address)
        ensures
            r@ == bytes@,
    {
        Address { bytes }
    }

    /// Byte-for-byte equality of two addresses.
    pub fn matches(&self, other: &Address) -> (r: bool)
        ensures
            r == (self@ == other@),
    {
        if self.bytes.len() != other.bytes.len() {
            return false;
        }
        let n = self.bytes.len();
        let mut i: usize = 0;
        while i < n
            invariant
                i <= n,
                n == self@.len(),
                n == other@.len(),
                forall|j: int| 0 <= j < i ==> self@[j] == other@[j],
            decreases n - i,
        {
            if self.bytes[i] != other.bytes[i] {
                return false;
            }
            i += 1;
        }
        proof {
            assert(self@ =~= other@);
        }
        true
    }

    /// An independent copy of the address.
    pub fn dup(&self) -> (r: Address)
        ensures
            r@ == self@,
    {
        Address { bytes: dup_bytes(&self.bytes) }
    }
}

/// An independent copy of a byte vector.
pub fn dup_bytes(v: &Vec<u8>) -> (r: Vec<u8>)
    ensures
        r@ == v@,
{
    let mut out: Vec<u8> = Vec::new();
    let mut i: usize = 0;
    while i < v.len()
        invariant
            i <= v@.len(),
            out@ == v@.subrange(0, i as int),
        decreases v@.len() - i,
    {
        out.push(v[i]);
        proof {
            assert(out@ =~= v@.subrange(0, i + 1));
        }
        i += 1;
    }
    proof {
        assert(out@ =~= v@);
    }
    out
}

/// Relies on `Pubkey::try_find_program_address` (solana-address, re-exported
/// through anchor-lang): the search depends only on the seed bytes and the
/// program id, never panics, and a returned address is 32 bytes.
#[verifier::external_body]
fn try_find_derived_address(program: &Address, seeds: &Vec<Vec<u8>>) -> (r: Option<(Address, u8)>)
    requires
        program@.len() == ADDRESS_BYTES,
    ensures
        r is Some <==> pda_of(program@, seeds.deep_view()) is Some,
        (r matches Some(p) ==> {
            &&& pda_of(program@, seeds.deep_view()) matches Some(q)
            &&& p.0@ == q.0
            &&& p.1 == q.1
            &&& p.0@.len() == ADDRESS_BYTES
        }),
{
    let pid = Pubkey::new_from_array(program.bytes.as_slice().try_into().unwrap());
    let seed_refs: Vec<&[u8]> = seeds.iter().map(|s| s.as_slice()).collect();
    Pubkey::try_find_program_address(&seed_refs, &pid)
        .map(|(a, bump)| (Address { bytes: a.to_bytes().to_vec() }, bump))
}

/// Derives the address and bump for a namespace and ordered seed components.
///
/// Deterministic: equal inputs always yield equal results. `None` is the only
/// failure, returned when the seed material is outside the scheme's limits or
/// no viable bump exists.
pub fn derive(program: &Address, seeds: &Vec<Vec<u8>>) -> (r: Option<(Address, u8)>)
    requires
        program.wf(),
    ensures
        r is Some <==> pda_of(program@, seeds.deep_view()) is Some,
        (r matches Some(p) ==> {
            &&& pda_of(program@, seeds.deep_view()) matches Some(q)
            &&& p.0@ == q.0
            &&& p.1 == q.1
            &&& p.0.wf()
        }),
{
    try_find_derived_address(program, seeds)
}

/// Determinism of the derivation: equal namespaces and equal seed components
/// always map to the identical address and bump.
pub proof fn lemma_derive_deterministic(
    ns1: Seq<u8>,
    cs1: Seq<Seq<u8>>,
    ns2: Seq<u8>,
    cs2: Seq<Seq<u8>>,
)
    requires
        ns1 == ns2,
        cs1 == cs2,
    ensures
        pda_of(ns1, cs1) == pda_of(ns2, cs2),
{
}

} // verus!
