//! The protocol's fixed seed prefixes.
//!
//! Each derived address starts from one of these byte strings, so mints,
//! holding accounts, and the namespace-only variant never collide with one
//! another in address space.

use vstd::prelude::*;

verus! {

/// Prefix of a standalone mint address: the bytes of `"nft-mint-seed"`.
pub open spec fn nft_mint_seed() -> Seq<u8> {
    seq![110u8, 102, 116, 45, 109, 105, 110, 116, 45, 115, 101, 101, 100]
}

/// Prefix of a standalone holding-account address: the bytes of
/// `"nft-token-account-seed"`.
pub open spec fn nft_token_account_seed() -> Seq<u8> {
    seq![
        110u8,
        102,
        116,
        45,
        116,
        111,
        107,
        101,
        110,
        45,
        97,
        99,
        99,
        111,
        117,
        110,
        116,
        45,
        115,
        101,
        101,
        100,
    ]
}

/// Prefix of a single-edition mint address: the bytes of `"hero_mint_seed"`.
pub open spec fn hero_mint_seed() -> Seq<u8> {
    seq![104u8, 101, 114, 111, 95, 109, 105, 110, 116, 95, 115, 101, 101, 100]
}

/// Prefix of a single-edition holding-account address: the bytes of
/// `"hero_mint_token_account_seed"`.
pub open spec fn hero_mint_token_account_seed() -> Seq<u8> {
    seq![
        104u8,
        101,
        114,
        111,
        95,
        109,
        105,
        110,
        116,
        95,
        116,
        111,
        107,
        101,
        110,
        95,
        97,
        99,
        99,
        111,
        117,
        110,
        116,
        95,
        115,
        101,
        101,
        100,
    ]
}

/// The standalone mint prefix as bytes.
pub fn nft_mint_seed_bytes() -> (r: Vec<u8>)
    ensures
        r@ == nft_mint_seed(),
{
    let v: Vec<u8> = vec![110, 102, 116, 45, 109, 105, 110, 116, 45, 115, 101, 101, 100];
    proof {
        assert(v@ =~= nft_mint_seed());
    }
    v
}

/// The standalone holding-account prefix as bytes.
pub fn nft_token_account_seed_bytes() -> (r: Vec<u8>)
    ensures
        r@ == nft_token_account_seed(),
{
    let v: Vec<u8> = vec![
        110, 102, 116, 45, 116, 111, 107, 101, 110, 45, 97, 99, 99, 111, 117, 110, 116, 45, 115,
        101, 101, 100,
    ];
    proof {
        assert(v@ =~= nft_token_account_seed());
    }
    v
}

/// The single-edition mint prefix as bytes.
pub fn hero_mint_seed_bytes() -> (r: Vec<u8>)
    ensures
        r@ == hero_mint_seed(),
{
    let v: Vec<u8> = vec![104, 101, 114, 111, 95, 109, 105, 110, 116, 95, 115, 101, 101, 100];
    proof {
        assert(v@ =~= hero_mint_seed());
    }
    v
}

/// The single-edition holding-account prefix as bytes.
pub fn hero_mint_token_account_seed_bytes() -> (r: Vec<u8>)
    ensures
        r@ == hero_mint_token_account_seed(),
{
    let v: Vec<u8> = vec![
        104, 101, 114, 111, 95, 109, 105, 110, 116, 95, 116, 111, 107, 101, 110, 95, 97, 99, 99,
        111, 117, 110, 116, 95, 115, 101, 101, 100,
    ];
    proof {
        assert(v@ =~= hero_mint_token_account_seed());
    }
    v
}

} // verus!
