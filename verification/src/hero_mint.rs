//! The single-edition pipeline.
//!
//! Mint and holding addresses are derived from the protocol namespace and the
//! full canonicalized descriptor. After the single unit is issued and the
//! metadata record attached, the minting authority is revoked for good: the
//! supply is capped at exactly one unit, permanently.

use crate::addr::{dup_bytes, pda_of, Address};
use crate::descriptor::{canonical_seed, canonicalize};
use crate::ledger::{
    find_account, AccountV, HoldingV, Ledger, MetadataV, MintAuthorityV, MintV, PipelineError,
};
use crate::seeds::{
    hero_mint_seed, hero_mint_seed_bytes, hero_mint_token_account_seed,
    hero_mint_token_account_seed_bytes,
};
use vstd::prelude::*;

verus! {

/// Seed components of a single-edition mint address: prefix, namespace, then
/// the canonicalized name, symbol, and uri.
pub open spec fn hero_mint_seeds(
    program_id: Seq<u8>,
    name: Seq<u8>,
    symbol: Seq<u8>,
    uri: Seq<u8>,
) -> Seq<Seq<u8>> {
    seq![
        hero_mint_seed(),
        program_id,
        canonical_seed(name),
        canonical_seed(symbol),
        canonical_seed(uri),
    ]
}

/// Seed components of a single-edition holding-account address.
pub open spec fn hero_holding_seeds(
    program_id: Seq<u8>,
    name: Seq<u8>,
    symbol: Seq<u8>,
    uri: Seq<u8>,
) -> Seq<Seq<u8>> {
    seq![
        hero_mint_token_account_seed(),
        program_id,
        canonical_seed(name),
        canonical_seed(symbol),
        canonical_seed(uri),
    ]
}

/// Why the single-edition pipeline refuses, or `None` when it succeeds.
pub open spec fn hero_error(
    l: Seq<(Seq<u8>, AccountV)>,
    program_id: Seq<u8>,
    metadata: Seq<u8>,
    mint: Seq<u8>,
    holding: Seq<u8>,
    name: Seq<u8>,
    symbol: Seq<u8>,
    uri: Seq<u8>,
) -> Option<PipelineError> {
    let md = pda_of(program_id, hero_mint_seeds(program_id, name, symbol, uri));
    let hd = pda_of(program_id, hero_holding_seeds(program_id, name, symbol, uri));
    if md is None {
        Some(PipelineError::DerivationFailed)
    } else if mint != md.unwrap().0 {
        Some(PipelineError::DerivationMismatch)
    } else if hd is None {
        Some(PipelineError::DerivationFailed)
    } else if holding != hd.unwrap().0 {
        Some(PipelineError::DerivationMismatch)
    } else if find_account(l, mint) is Some {
        Some(PipelineError::AllocationConflict)
    } else if holding == mint || find_account(l, holding) is Some {
        Some(PipelineError::AllocationConflict)
    } else if metadata == mint || metadata == holding || find_account(l, metadata) is Some {
        Some(PipelineError::RegistryRejected)
    } else {
        None
    }
}

/// Single-edition issuance: derive and check both addresses, allocate and
/// initialize the mint and the holding account, issue the one unit, attach
/// an immutable single-edition metadata record, then revoke the authority.
///
/// On success the mint holds exactly one issued unit and its authority is
/// `Revoked`; no later request, with any signature, can change its supply.
pub fn handler(
    ledger: &mut Ledger,
    program_id: &Address,
    user: &Address,
    hero_mint: &Address,
    hero_token_account: &Address,
    hero_metadata_account: &Address,
    name: &[u8],
    symbol: &[u8],
    uri: &[u8],
) -> (r: Result<(), PipelineError>)
    requires
        old(ledger).wf(),
        program_id.wf(),
    ensures
        final(ledger).wf(),
        r is Ok <==> hero_error(
            old(ledger)@,
            program_id@,
            hero_metadata_account@,
            hero_mint@,
            hero_token_account@,
            name@,
            symbol@,
            uri@,
        ) is None,
        (r matches Err(e) ==> {
            &&& final(ledger)@ == old(ledger)@
            &&& Some(e) == hero_error(
                old(ledger)@,
                program_id@,
                hero_metadata_account@,
                hero_mint@,
                hero_token_account@,
                name@,
                symbol@,
                uri@,
            )
        }),
        r is Ok ==> {
            &&& find_account(old(ledger)@, hero_mint@) is None
            &&& find_account(final(ledger)@, hero_mint@) == Some(
                AccountV::Mint(
                    MintV { decimals: 0, authority: MintAuthorityV::Revoked, supply: 1 },
                ),
            )
            &&& find_account(final(ledger)@, hero_token_account@) == Some(
                AccountV::Holding(HoldingV { owner: user@, mint: hero_mint@, balance: 1 }),
            )
            &&& find_account(final(ledger)@, hero_metadata_account@) == Some(
                AccountV::Metadata(
                    MetadataV {
                        mint: hero_mint@,
                        name: canonical_seed(name@),
                        symbol: canonical_seed(symbol@),
                        uri: canonical_seed(uri@),
                        update_authority: user@,
                        is_mutable: false,
                        is_single_edition: true,
                    },
                ),
            )
            &&& forall|k: Seq<u8>|
                k != hero_mint@ && k != hero_token_account@ && k != hero_metadata_account@
                    ==> #[trigger] find_account(final(ledger)@, k) == find_account(
                    old(ledger)@,
                    k,
                )
        },
{
    let d = canonicalize(name, symbol, uri);

    let mut mint_seeds: Vec<Vec<u8>> = Vec::new();
    mint_seeds.push(hero_mint_seed_bytes());
    mint_seeds.push(dup_bytes(&program_id.bytes));
    mint_seeds.push(dup_bytes(&d.name));
    mint_seeds.push(dup_bytes(&d.symbol));
    mint_seeds.push(dup_bytes(&d.uri));
    proof {
        assert(mint_seeds.deep_view() =~~= hero_mint_seeds(program_id@, name@, symbol@, uri@));
    }
    let derived_mint = match crate::addr::derive(program_id, &mint_seeds) {
        None => return Err(PipelineError::DerivationFailed),
        Some((a, _bump)) => a,
    };
    if !derived_mint.matches(hero_mint) {
        return Err(PipelineError::DerivationMismatch);
    }

    let mut holding_seeds: Vec<Vec<u8>> = Vec::new();
    holding_seeds.push(hero_mint_token_account_seed_bytes());
    holding_seeds.push(dup_bytes(&program_id.bytes));
    holding_seeds.push(dup_bytes(&d.name));
    holding_seeds.push(dup_bytes(&d.symbol));
    holding_seeds.push(dup_bytes(&d.uri));
    proof {
        assert(holding_seeds.deep_view() =~~= hero_holding_seeds(
            program_id@,
            name@,
            symbol@,
            uri@,
        ));
    }
    let derived_holding = match crate::addr::derive(program_id, &holding_seeds) {
        None => return Err(PipelineError::DerivationFailed),
        Some((a, _bump)) => a,
    };
    if !derived_holding.matches(hero_token_account) {
        return Err(PipelineError::DerivationMismatch);
    }

    let mut work = ledger.dup();
    match work.allocate(hero_mint) {
        Err(e) => return Err(e),
        Ok(()) => {},
    }
    match work.allocate(hero_token_account) {
        Err(e) => return Err(e),
        Ok(()) => {},
    }
    match work.init_mint(hero_mint, 0, user) {
        Err(e) => return Err(e),
        Ok(()) => {},
    }
    match work.init_holding(hero_token_account, hero_mint, user) {
        Err(e) => return Err(e),
        Ok(()) => {},
    }
    match work.issue(hero_mint, hero_token_account, Some(user), 1) {
        Err(e) => return Err(e),
        Ok(()) => {},
    }
    match work.attach_metadata(hero_metadata_account, hero_mint, &d, user, false, true) {
        Err(e) => return Err(e),
        Ok(()) => {},
    }
    match work.revoke_authority(hero_mint, Some(user)) {
        Err(e) => return Err(e),
        Ok(()) => {},
    }
    *ledger = work;
    Ok(())
}

/// Replay rejection: once the derived mint address is occupied — as it is
/// after any successful run over the same derivation-determining inputs — a
/// second invocation whose caller-supplied addresses pass the derivation
/// check fails with `AllocationConflict` at the mint allocation step, and so
/// leaves the ledger unchanged.
pub proof fn lemma_replay_rejected(
    l: Seq<(Seq<u8>, AccountV)>,
    program_id: Seq<u8>,
    metadata: Seq<u8>,
    mint: Seq<u8>,
    holding: Seq<u8>,
    name: Seq<u8>,
    symbol: Seq<u8>,
    uri: Seq<u8>,
)
    requires
        find_account(l, mint) is Some,
    ensures
        ({
            let md = pda_of(program_id, hero_mint_seeds(program_id, name, symbol, uri));
            let hd = pda_of(program_id, hero_holding_seeds(program_id, name, symbol, uri));
            ({
                &&& md matches Some(p)
                &&& mint == p.0
                &&& hd matches Some(q)
                &&& holding == q.0
            }) ==> hero_error(l, program_id, metadata, mint, holding, name, symbol, uri) == Some(
                PipelineError::AllocationConflict,
            )
        }),
{
}

} // verus!
