//! The issuance pipelines.
//!
//! Each pipeline recomputes the derived addresses from the canonicalized
//! descriptor, refuses caller-supplied addresses that do not match, and then
//! drives the allocate / initialize / issue sequence as one indivisible unit
//! of work: on any failure the ledger is left exactly as it was, and the
//! error names the step that refused.

use crate::addr::{dup_bytes, pda_of, Address};
use crate::descriptor::{canonical_seed, canonicalize};
use crate::ledger::{
    find_account, AccountV, HoldingV, Ledger, MetadataV, MintAuthorityV, MintV, PipelineError,
};
use crate::seeds::{
    nft_mint_seed, nft_mint_seed_bytes, nft_token_account_seed, nft_token_account_seed_bytes,
};
use vstd::prelude::*;

verus! {

/// Seed components of a standalone mint address: prefix, requester, then the
/// canonicalized name and symbol.
pub open spec fn standalone_mint_seeds(user: Seq<u8>, name: Seq<u8>, symbol: Seq<u8>) -> Seq<
    Seq<u8>,
> {
    seq![nft_mint_seed(), user, canonical_seed(name), canonical_seed(symbol)]
}

/// Seed components of a standalone holding-account address.
pub open spec fn standalone_holding_seeds(user: Seq<u8>, name: Seq<u8>, symbol: Seq<u8>) -> Seq<
    Seq<u8>,
> {
    seq![nft_token_account_seed(), user, canonical_seed(name), canonical_seed(symbol)]
}

/// Why the standalone pipeline refuses, or `None` when it succeeds. The
/// derivations are checked before any allocation; a replay of an
/// already-minted descriptor surfaces as `AllocationConflict` on the mint.
pub open spec fn standalone_error(
    l: Seq<(Seq<u8>, AccountV)>,
    program_id: Seq<u8>,
    user: Seq<u8>,
    metadata: Seq<u8>,
    mint: Seq<u8>,
    holding: Seq<u8>,
    name: Seq<u8>,
    symbol: Seq<u8>,
) -> Option<PipelineError> {
    let md = pda_of(program_id, standalone_mint_seeds(user, name, symbol));
    let hd = pda_of(program_id, standalone_holding_seeds(user, name, symbol));
    if md is None {
        Some(PipelineError::DerivationFailed)
    } else if mint != md.unwrap().0 {
        Some(PipelineError::DerivationMismatch)
    } else if hd is None {
        Some(PipelineError::DerivationFailed)
    } else if holding != hd.unwrap().0 {
        Some(PipelineError::DerivationMismatch)
    } else if find_account(l, mint) is Some {
        Some(PipelineError::AllocationConflict)
    } else if holding == mint || find_account(l, holding) is Some {
        Some(PipelineError::AllocationConflict)
    } else if metadata == mint || metadata == holding || find_account(l, metadata) is Some {
        Some(PipelineError::RegistryRejected)
    } else {
        None
    }
}

/// Standalone issuance: mint and holding addresses are derived from the
/// requester and the canonicalized name and symbol, one unit is issued, a
/// mutable metadata record is attached, and the authority stays with the
/// requester for further management.
pub fn initialize(
    ledger: &mut Ledger,
    program_id: &Address,
    user: &Address,
    nft_meta_data_account: &Address,
    nft_mint_account: &Address,
    nft_token_account: &Address,
    name: &[u8],
    symbol: &[u8],
    uri: &[u8],
) -> (r: Result<(), PipelineError>)
    requires
        old(ledger).wf(),
        program_id.wf(),
    ensures
        final(ledger).wf(),
        r is Ok <==> standalone_error(
            old(ledger)@,
            program_id@,
            user@,
            nft_meta_data_account@,
            nft_mint_account@,
            nft_token_account@,
            name@,
            symbol@,
        ) is None,
        (r matches Err(e) ==> {
            &&& final(ledger)@ == old(ledger)@
            &&& Some(e) == standalone_error(
                old(ledger)@,
                program_id@,
                user@,
                nft_meta_data_account@,
                nft_mint_account@,
                nft_token_account@,
                name@,
                symbol@,
            )
        }),
        r is Ok ==> {
            &&& find_account(old(ledger)@, nft_mint_account@) is None
            &&& find_account(final(ledger)@, nft_mint_account@) == Some(
                AccountV::Mint(
                    MintV { decimals: 0, authority: MintAuthorityV::Active(user@), supply: 1 },
                ),
            )
            &&& find_account(final(ledger)@, nft_token_account@) == Some(
                AccountV::Holding(
                    HoldingV { owner: user@, mint: nft_mint_account@, balance: 1 },
                ),
            )
            &&& find_account(final(ledger)@, nft_meta_data_account@) == Some(
                AccountV::Metadata(
                    MetadataV {
                        mint: nft_mint_account@,
                        name: canonical_seed(name@),
                        symbol: canonical_seed(symbol@),
                        uri: canonical_seed(uri@),
                        update_authority: user@,
                        is_mutable: true,
                        is_single_edition: false,
                    },
                ),
            )
            &&& forall|k: Seq<u8>|
                k != nft_mint_account@ && k != nft_token_account@ && k != nft_meta_data_account@
                    ==> #[trigger] find_account(final(ledger)@, k) == find_account(
                    old(ledger)@,
                    k,
                )
        },
{
    let d = canonicalize(name, symbol, uri);

    let mut mint_seeds: Vec<Vec<u8>> = Vec::new();
    mint_seeds.push(nft_mint_seed_bytes());
    mint_seeds.push(dup_bytes(&user.bytes));
    mint_seeds.push(dup_bytes(&d.name));
    mint_seeds.push(dup_bytes(&d.symbol));
    proof {
        assert(mint_seeds.deep_view() =~~= standalone_mint_seeds(user@, name@, symbol@));
    }
    let derived_mint = match crate::addr::derive(program_id, &mint_seeds) {
        None => return Err(PipelineError::DerivationFailed),
        Some((a, _bump)) => a,
    };
    if !derived_mint.matches(nft_mint_account) {
        return Err(PipelineError::DerivationMismatch);
    }

    let mut holding_seeds: Vec<Vec<u8>> = Vec::new();
    holding_seeds.push(nft_token_account_seed_bytes());
    holding_seeds.push(dup_bytes(&user.bytes));
    holding_seeds.push(dup_bytes(&d.name));
    holding_seeds.push(dup_bytes(&d.symbol));
    proof {
        assert(holding_seeds.deep_view() =~~= standalone_holding_seeds(user@, name@, symbol@));
    }
    let derived_holding = match crate::addr::derive(program_id, &holding_seeds) {
        None => return Err(PipelineError::DerivationFailed),
        Some((a, _bump)) => a,
    };
    if !derived_holding.matches(nft_token_account) {
        return Err(PipelineError::DerivationMismatch);
    }

    let mut work = ledger.dup();
    match work.allocate(nft_mint_account) {
        Err(e) => return Err(e),
        Ok(()) => {},
    }
    match work.allocate(nft_token_account) {
        Err(e) => return Err(e),
        Ok(()) => {},
    }
    match work.init_mint(nft_mint_account, 0, user) {
        Err(e) => return Err(e),
        Ok(()) => {},
    }
    match work.init_holding(nft_token_account, nft_mint_account, user) {
        Err(e) => return Err(e),
        Ok(()) => {},
    }
    match work.issue(nft_mint_account, nft_token_account, Some(user), 1) {
        Err(e) => return Err(e),
        Ok(()) => {},
    }
    match work.attach_metadata(nft_meta_data_account, nft_mint_account, &d, user, true, false) {
        Err(e) => return Err(e),
        Ok(()) => {},
    }
    *ledger = work;
    Ok(())
}

/// Single-edition issuance: the entry point delegates to
/// `hero_mint::handler` and promises exactly its contract.
pub fn hero_mint(
    ledger: &mut Ledger,
    program_id: &Address,
    user: &Address,
    hero_mint_account: &Address,
    hero_token_account: &Address,
    hero_metadata_account: &Address,
    name: &[u8],
    symbol: &[u8],
    uri: &[u8],
) -> (r: Result<(), PipelineError>)
    requires
        old(ledger).wf(),
        program_id.wf(),
    ensures
        final(ledger).wf(),
        r is Ok <==> crate::hero_mint::hero_error(
            old(ledger)@,
            program_id@,
            hero_metadata_account@,
            hero_mint_account@,
            hero_token_account@,
            name@,
            symbol@,
            uri@,
        ) is None,
        (r matches Err(e) ==> {
            &&& final(ledger)@ == old(ledger)@
            &&& Some(e) == crate::hero_mint::hero_error(
                old(ledger)@,
                program_id@,
                hero_metadata_account@,
                hero_mint_account@,
                hero_token_account@,
                name@,
                symbol@,
                uri@,
            )
        }),
        r is Ok ==> {
            &&& find_account(old(ledger)@, hero_mint_account@) is None
            &&& find_account(final(ledger)@, hero_mint_account@) == Some(
                AccountV::Mint(
                    MintV { decimals: 0, authority: MintAuthorityV::Revoked, supply: 1 },
                ),
            )
            &&& find_account(final(ledger)@, hero_token_account@) == Some(
                AccountV::Holding(HoldingV { owner: user@, mint: hero_mint_account@, balance: 1 }),
            )
            &&& find_account(final(ledger)@, hero_metadata_account@) == Some(
                AccountV::Metadata(
                    MetadataV {
                        mint: hero_mint_account@,
                        name: canonical_seed(name@),
                        symbol: canonical_seed(symbol@),
                        uri: canonical_seed(uri@),
                        update_authority: user@,
                        is_mutable: false,
                        is_single_edition: true,
                    },
                ),
            )
            &&& forall|k: Seq<u8>|
                k != hero_mint_account@ && k != hero_token_account@ && k != hero_metadata_account@
                    ==> #[trigger] find_account(final(ledger)@, k) == find_account(
                    old(ledger)@,
                    k,
                )
        },
{
    crate::hero_mint::handler(
        ledger,
        program_id,
        user,
        hero_mint_account,
        hero_token_account,
        hero_metadata_account,
        name,
        symbol,
        uri,
    )
}

/// Canonical-association issuance: the entry point delegates to
/// `mint_with_tokenaccount::handler` and promises exactly its contract.
pub fn mint_with_tokenaccount(
    ledger: &mut Ledger,
    program_id: &Address,
    user: &Address,
    hero_mint: &Address,
    hero_token_account: &Address,
    token_program: &Address,
    associated_token_program: &Address,
) -> (r: Result<(), PipelineError>)
    requires
        old(ledger).wf(),
        program_id.wf(),
        associated_token_program.wf(),
    ensures
        final(ledger).wf(),
        r is Ok <==> crate::mint_with_tokenaccount::token_account_error(
            old(ledger)@,
            program_id@,
            user@,
            hero_mint@,
            hero_token_account@,
            token_program@,
            associated_token_program@,
        ) is None,
        (r matches Err(e) ==> {
            &&& final(ledger)@ == old(ledger)@
            &&& Some(e) == crate::mint_with_tokenaccount::token_account_error(
                old(ledger)@,
                program_id@,
                user@,
                hero_mint@,
                hero_token_account@,
                token_program@,
                associated_token_program@,
            )
        }),
        r is Ok ==> {
            &&& find_account(old(ledger)@, hero_mint@) is None
            &&& find_account(final(ledger)@, hero_mint@) == Some(
                AccountV::Mint(
                    MintV { decimals: 0, authority: MintAuthorityV::Active(user@), supply: 1 },
                ),
            )
            &&& find_account(final(ledger)@, hero_token_account@) == Some(
                AccountV::Holding(
                    HoldingV {
                        owner: user@,
                        mint: hero_mint@,
                        balance: (crate::mint_with_tokenaccount::prior_balance(
                            old(ledger)@,
                            hero_token_account@,
                        ) + 1) as u64,
                    },
                ),
            )
            &&& forall|k: Seq<u8>|
                k != hero_mint@ && k != hero_token_account@ ==> #[trigger] find_account(
                    final(ledger)@,
                    k,
                ) == find_account(old(ledger)@, k)
        },
{
    crate::mint_with_tokenaccount::handler(
        ledger,
        program_id,
        user,
        hero_mint,
        hero_token_account,
        token_program,
        associated_token_program,
    )
}

} // verus!
