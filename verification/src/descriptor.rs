//! Canonicalization of descriptor fields into fixed-width seed material.
//!
//! Each free-form field (name, symbol, locator URI) is truncated to its first
//! 32 bytes; shorter fields pass through unchanged. The truncation is silent:
//! two distinct inputs that share a 32-byte prefix canonicalize identically,
//! and therefore collide in address space. That is the documented policy, not
//! an error path.

use vstd::prelude::*;

verus! {

/// Longest seed component the derivation accepts, in bytes.
pub const MAX_SEED_BYTES: usize = 32;

/// The canonical form of one descriptor field: its first 32 bytes.
pub open spec fn canonical_seed(s: Seq<u8>) -> Seq<u8> {
    if s.len() > MAX_SEED_BYTES {
        s.subrange(0, MAX_SEED_BYTES as int)
    } else {
        s
    }
}

/// A descriptor whose fields are already canonical seed material.
pub struct MintDescriptor {
    pub name: Vec<u8>,
    pub symbol: Vec<u8>,
    pub uri: Vec<u8>,
}

impl MintDescriptor {
    /// Every field fits within the per-component seed limit.
    pub open spec fn wf(self) -> bool {
        &&& self.name@.len() <= MAX_SEED_BYTES
        &&& self.symbol@.len() <= MAX_SEED_BYTES
        &&& self.uri@.len() <= MAX_SEED_BYTES
    }
}

/// Truncates one descriptor field to canonical seed material.
pub fn name_seed(name: &[u8]) -> (r: Vec<u8>)
    ensures
        r@ == canonical_seed(name@),
        r@.len() <= MAX_SEED_BYTES,
{
    let n: usize = if name.len() > MAX_SEED_BYTES {
        MAX_SEED_BYTES
    } else {
        name.len()
    };
    let mut out: Vec<u8> = Vec::new();
    let mut i: usize = 0;
    while i < n
        invariant
            i <= n,
            n <= name@.len(),
            n == (if name@.len() > MAX_SEED_BYTES { MAX_SEED_BYTES as int } else { name@.len() as int }),
            out@ == name@.subrange(0, i as int),
        decreases n - i,
    {
        out.push(name[i]);
        proof {
            assert(out@ =~= name@.subrange(0, i + 1));
        }
        i += 1;
    }
    proof {
        assert(out@ =~= canonical_seed(name@));
    }
    out
}

/// Normalizes the three raw descriptor fields into a canonical descriptor.
pub fn canonicalize(name: &[u8], symbol: &[u8], uri: &[u8]) -> (d: MintDescriptor)
    ensures
        d.name@ == canonical_seed(name@),
        d.symbol@ == canonical_seed(symbol@),
        d.uri@ == canonical_seed(uri@),
        d.wf(),
{
    MintDescriptor {
        name: name_seed(name),
        symbol: name_seed(symbol),
        uri: name_seed(uri),
    }
}

/// Canonicalizing twice yields the same bytes as canonicalizing once.
pub proof fn lemma_canonical_seed_idempotent(s: Seq<u8>)
    ensures
        canonical_seed(canonical_seed(s)) == canonical_seed(s),
{
}

/// Two fields of at least 32 bytes that share their first 32 bytes
/// canonicalize identically, whatever follows the shared prefix.
pub proof fn lemma_canonical_seed_prefix_collision(s1: Seq<u8>, s2: Seq<u8>)
    requires
        s1.len() >= MAX_SEED_BYTES,
        s2.len() >= MAX_SEED_BYTES,
        s1.subrange(0, MAX_SEED_BYTES as int) == s2.subrange(0, MAX_SEED_BYTES as int),
    ensures
        canonical_seed(s1) == canonical_seed(s2),
{
    if s1.len() == MAX_SEED_BYTES {
        assert(canonical_seed(s1) =~= s1.subrange(0, MAX_SEED_BYTES as int));
    }
    if s2.len() == MAX_SEED_BYTES {
        assert(canonical_seed(s2) =~= s2.subrange(0, MAX_SEED_BYTES as int));
    }
}

} // verus!
