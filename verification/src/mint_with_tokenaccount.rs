//! The canonical-association pipeline.
//!
//! The mint address is derived from a namespace-only seed, shared by every
//! invocation of this pathway: a second call can only ever observe
//! `AllocationConflict`. The holding account is the requester's canonical
//! associated address for the mint, derived from the requester, the
//! token-ledger program, and the mint, and is reused when it already exists.

use crate::addr::{dup_bytes, pda_of, Address};
use crate::ledger::{
    find_account, Account, AccountV, HoldingV, Ledger, MintAuthorityV, MintV, PipelineError,
};
use crate::seeds::{nft_mint_seed, nft_mint_seed_bytes};
use vstd::prelude::*;

verus! {

/// Seed components of the namespace-only mint address: the fixed prefix and
/// nothing else.
pub open spec fn token_account_mint_seeds() -> Seq<Seq<u8>> {
    seq![nft_mint_seed()]
}

/// Seed components of a canonical associated holding address: the owning
/// identity, the token-ledger program, and the mint.
pub open spec fn associated_holding_seeds(
    user: Seq<u8>,
    token_program: Seq<u8>,
    mint: Seq<u8>,
) -> Seq<Seq<u8>> {
    seq![user, token_program, mint]
}

/// The balance the holding address already carries, or zero when it holds no
/// holding account.
pub open spec fn prior_balance(l: Seq<(Seq<u8>, AccountV)>, holding: Seq<u8>) -> u64 {
    match find_account(l, holding) {
        Some(AccountV::Holding(h)) => h.balance,
        _ => 0,
    }
}

/// Why the canonical-association pipeline refuses, or `None` when it
/// succeeds. An existing holding account is accepted only when it is the
/// requester's account for this very mint.
pub open spec fn token_account_error(
    l: Seq<(Seq<u8>, AccountV)>,
    program_id: Seq<u8>,
    user: Seq<u8>,
    mint: Seq<u8>,
    holding: Seq<u8>,
    token_program: Seq<u8>,
    associated_token_program: Seq<u8>,
) -> Option<PipelineError> {
    let md = pda_of(program_id, token_account_mint_seeds());
    if md is None {
        Some(PipelineError::DerivationFailed)
    } else if mint != md.unwrap().0 {
        Some(PipelineError::DerivationMismatch)
    } else {
        let hd = pda_of(
            associated_token_program,
            associated_holding_seeds(user, token_program, mint),
        );
        if hd is None {
            Some(PipelineError::DerivationFailed)
        } else if holding != hd.unwrap().0 {
            Some(PipelineError::DerivationMismatch)
        } else if find_account(l, mint) is Some {
            Some(PipelineError::AllocationConflict)
        } else if holding == mint {
            Some(PipelineError::AlreadyInitialized)
        } else {
            match find_account(l, holding) {
                None => None,
                Some(AccountV::Holding(h)) => if h.owner == user && h.mint == mint {
                    if h.balance == u64::MAX {
                        Some(PipelineError::SupplyOverflow)
                    } else {
                        None
                    }
                } else {
                    Some(PipelineError::AlreadyInitialized)
                },
                Some(_) => Some(PipelineError::AlreadyInitialized),
            }
        }
    }
}

/// Canonical-association issuance: allocate and initialize the
/// namespace-derived mint, reuse or create the requester's canonical
/// associated holding account, and issue one unit into it. No metadata is
/// attached and the authority stays with the requester.
pub fn handler(
    ledger: &mut Ledger,
    program_id: &Address,
    user: &Address,
    hero_mint: &Address,
    hero_token_account: &Address,
    token_program: &Address,
    associated_token_program: &Address,
) -> (r: Result<(), PipelineError>)
    requires
        old(ledger).wf(),
        program_id.wf(),
        associated_token_program.wf(),
    ensures
        final(ledger).wf(),
        r is Ok <==> token_account_error(
            old(ledger)@,
            program_id@,
            user@,
            hero_mint@,
            hero_token_account@,
            token_program@,
            associated_token_program@,
        ) is None,
        (r matches Err(e) ==> {
            &&& final(ledger)@ == old(ledger)@
            &&& Some(e) == token_account_error(
                old(ledger)@,
                program_id@,
                user@,
                hero_mint@,
                hero_token_account@,
                token_program@,
                associated_token_program@,
            )
        }),
        r is Ok ==> {
            &&& find_account(old(ledger)@, hero_mint@) is None
            &&& find_account(final(ledger)@, hero_mint@) == Some(
                AccountV::Mint(
                    MintV { decimals: 0, authority: MintAuthorityV::Active(user@), supply: 1 },
                ),
            )
            &&& find_account(final(ledger)@, hero_token_account@) == Some(
                AccountV::Holding(
                    HoldingV {
                        owner: user@,
                        mint: hero_mint@,
                        balance: (prior_balance(old(ledger)@, hero_token_account@) + 1) as u64,
                    },
                ),
            )
            &&& forall|k: Seq<u8>|
                k != hero_mint@ && k != hero_token_account@ ==> #[trigger] find_account(
                    final(ledger)@,
                    k,
                ) == find_account(old(ledger)@, k)
        },
{
    let mut mint_seeds: Vec<Vec<u8>> = Vec::new();
    mint_seeds.push(nft_mint_seed_bytes());
    proof {
        assert(mint_seeds.deep_view() =~~= token_account_mint_seeds());
    }
    let derived_mint = match crate::addr::derive(program_id, &mint_seeds) {
        None => return Err(PipelineError::DerivationFailed),
        Some((a, _bump)) => a,
    };
    if !derived_mint.matches(hero_mint) {
        return Err(PipelineError::DerivationMismatch);
    }

    let mut holding_seeds: Vec<Vec<u8>> = Vec::new();
    holding_seeds.push(dup_bytes(&user.bytes));
    holding_seeds.push(dup_bytes(&token_program.bytes));
    holding_seeds.push(dup_bytes(&hero_mint.bytes));
    proof {
        assert(holding_seeds.deep_view() =~~= associated_holding_seeds(
            user@,
            token_program@,
            hero_mint@,
        ));
    }
    let derived_holding = match crate::addr::derive(associated_token_program, &holding_seeds) {
        None => return Err(PipelineError::DerivationFailed),
        Some((a, _bump)) => a,
    };
    if !derived_holding.matches(hero_token_account) {
        return Err(PipelineError::DerivationMismatch);
    }

    let mut work = ledger.dup();
    match work.allocate(hero_mint) {
        Err(e) => return Err(e),
        Ok(()) => {},
    }
    match work.init_mint(hero_mint, 0, user) {
        Err(e) => return Err(e),
        Ok(()) => {},
    }
    let status: u8 = match work.get(hero_token_account) {
        None => 0,
        Some(acct) => match acct {
            Account::Holding { owner, mint: hm, .. } => if owner.matches(user) && hm.matches(
                hero_mint,
            ) {
                1
            } else {
                2
            },
            _ => 2,
        },
    };
    if status == 2 {
        return Err(PipelineError::AlreadyInitialized);
    }
    if status == 0 {
        match work.allocate(hero_token_account) {
            Err(e) => return Err(e),
            Ok(()) => {},
        }
        match work.init_holding(hero_token_account, hero_mint, user) {
            Err(e) => return Err(e),
            Ok(()) => {},
        }
    }
    match work.issue(hero_mint, hero_token_account, Some(user), 1) {
        Err(e) => return Err(e),
        Ok(()) => {},
    }
    *ledger = work;
    Ok(())
}

} // verus!
