use nftmint::addr::Address;
use nftmint::ledger::{Account, Ledger, MintAuthority, PipelineError};

fn addr(n: u8) -> Address {
    Address::from_bytes(vec![n; 32])
}

fn derive(program: &Address, seeds: Vec<Vec<u8>>) -> Address {
    nftmint::addr::derive(program, &seeds).expect("derivation").0
}

fn hero_addresses(
    program: &Address,
    name: &[u8],
    symbol: &[u8],
    uri: &[u8],
) -> (Address, Address) {
    let mint = derive(
        program,
        vec![
            b"hero_mint_seed".to_vec(),
            program.bytes.clone(),
            nftmint::name_seed(name),
            nftmint::name_seed(symbol),
            nftmint::name_seed(uri),
        ],
    );
    let holding = derive(
        program,
        vec![
            b"hero_mint_token_account_seed".to_vec(),
            program.bytes.clone(),
            nftmint::name_seed(name),
            nftmint::name_seed(symbol),
            nftmint::name_seed(uri),
        ],
    );
    (mint, holding)
}

#[test]
fn hero_mint_issues_a_single_capped_edition() {
    // Scenario: descriptor {name: "Hero #1", symbol: "HERO", uri: "ipfs://abc"},
    // fresh namespace.
    let program = addr(11);
    let user = addr(12);
    let meta = addr(13);
    let (mint, holding) = hero_addresses(&program, b"Hero #1", b"HERO", b"ipfs://abc");

    let mut l = Ledger::new();
    let r = nftmint::pipeline::hero_mint(
        &mut l,
        &program,
        &user,
        &mint,
        &holding,
        &meta,
        b"Hero #1",
        b"HERO",
        b"ipfs://abc",
    );
    assert_eq!(r, Ok(()));

    match l.get(&mint) {
        Some(Account::Mint { decimals, authority, supply }) => {
            assert_eq!(*decimals, 0);
            assert_eq!(*supply, 1);
            assert!(matches!(authority, MintAuthority::Revoked));
        },
        _ => panic!("mint account missing"),
    }
    match l.get(&holding) {
        Some(Account::Holding { owner, mint: hm, balance }) => {
            assert_eq!(owner.bytes, user.bytes);
            assert_eq!(hm.bytes, mint.bytes);
            assert_eq!(*balance, 1);
        },
        _ => panic!("holding account missing"),
    }
    match l.get(&meta) {
        Some(Account::Metadata {
            mint: bm,
            name,
            symbol,
            uri,
            update_authority,
            is_mutable,
            is_single_edition,
        }) => {
            assert_eq!(bm.bytes, mint.bytes);
            assert_eq!(name, &b"Hero #1".to_vec());
            assert_eq!(symbol, &b"HERO".to_vec());
            assert_eq!(uri, &b"ipfs://abc".to_vec());
            assert_eq!(update_authority.bytes, user.bytes);
            assert!(!*is_mutable);
            assert!(*is_single_edition);
        },
        _ => panic!("metadata record missing"),
    }

    // No subsequent call, with any signature, can change the issued total.
    assert_eq!(
        l.issue(&mint, &holding, Some(&user), 1),
        Err(PipelineError::AuthoritySignatureInvalid)
    );
    assert_eq!(
        l.revoke_authority(&mint, Some(&user)),
        Err(PipelineError::AuthoritySignatureInvalid)
    );
}

#[test]
fn hero_handler_matches_the_entry_point() {
    let program = addr(41);
    let user = addr(42);
    let meta = addr(43);
    let (mint, holding) = hero_addresses(&program, b"Hero #2", b"HERO", b"ipfs://def");

    let mut l = Ledger::new();
    let r = nftmint::hero_mint::handler(
        &mut l,
        &program,
        &user,
        &mint,
        &holding,
        &meta,
        b"Hero #2",
        b"HERO",
        b"ipfs://def",
    );
    assert_eq!(r, Ok(()));
    assert!(matches!(
        l.get(&mint),
        Some(Account::Mint { supply: 1, authority: MintAuthority::Revoked, .. })
    ));
}

#[test]
fn mint_with_tokenaccount_handler_matches_the_entry_point() {
    let program = addr(51);
    let user = addr(52);
    let token_program = addr(53);
    let ata_program = addr(54);
    let mint = derive(&program, vec![b"nft-mint-seed".to_vec()]);
    let holding = derive(
        &ata_program,
        vec![user.bytes.clone(), token_program.bytes.clone(), mint.bytes.clone()],
    );

    let mut l = Ledger::new();
    let r = nftmint::mint_with_tokenaccount::handler(
        &mut l,
        &program,
        &user,
        &mint,
        &holding,
        &token_program,
        &ata_program,
    );
    assert_eq!(r, Ok(()));
}

#[test]
fn hero_mint_rejects_a_replay() {
    // Scenario: the same descriptor submitted twice fails on the mint
    // allocation and leaves the ledger as after the first run.
    let program = addr(11);
    let user = addr(12);
    let meta = addr(13);
    let (mint, holding) = hero_addresses(&program, b"Hero #1", b"HERO", b"ipfs://abc");

    let mut l = Ledger::new();
    let first = nftmint::pipeline::hero_mint(
        &mut l,
        &program,
        &user,
        &mint,
        &holding,
        &meta,
        b"Hero #1",
        b"HERO",
        b"ipfs://abc",
    );
    assert_eq!(first, Ok(()));
    let entries_after_first = l.entries.len();

    let second = nftmint::pipeline::hero_mint(
        &mut l,
        &program,
        &user,
        &mint,
        &holding,
        &meta,
        b"Hero #1",
        b"HERO",
        b"ipfs://abc",
    );
    assert_eq!(second, Err(PipelineError::AllocationConflict));
    assert_eq!(l.entries.len(), entries_after_first);
    match l.get(&mint) {
        Some(Account::Mint { supply, authority, .. }) => {
            assert_eq!(*supply, 1);
            assert!(matches!(authority, MintAuthority::Revoked));
        },
        _ => panic!("mint account missing"),
    }
}

#[test]
fn hero_mint_rejects_a_mismatched_address_before_any_mutation() {
    let program = addr(11);
    let user = addr(12);
    let meta = addr(13);
    let (_mint, holding) = hero_addresses(&program, b"Hero #1", b"HERO", b"ipfs://abc");
    let wrong_mint = addr(99);

    let mut l = Ledger::new();
    let r = nftmint::pipeline::hero_mint(
        &mut l,
        &program,
        &user,
        &wrong_mint,
        &holding,
        &meta,
        b"Hero #1",
        b"HERO",
        b"ipfs://abc",
    );
    assert_eq!(r, Err(PipelineError::DerivationMismatch));
    assert_eq!(l.entries.len(), 0);
}

#[test]
fn hero_mint_rejects_an_occupied_metadata_address() {
    let program = addr(11);
    let user = addr(12);
    let meta = addr(13);
    let (mint, holding) = hero_addresses(&program, b"Hero #1", b"HERO", b"ipfs://abc");

    let mut l = Ledger::new();
    l.allocate(&meta).expect("pre-occupy the metadata address");
    let r = nftmint::pipeline::hero_mint(
        &mut l,
        &program,
        &user,
        &mint,
        &holding,
        &meta,
        b"Hero #1",
        b"HERO",
        b"ipfs://abc",
    );
    assert_eq!(r, Err(PipelineError::RegistryRejected));
    assert_eq!(l.entries.len(), 1);
}

#[test]
fn initialize_keeps_the_authority_with_the_requester() {
    let program = addr(21);
    let user = addr(22);
    let meta = addr(23);
    let mint = derive(
        &program,
        vec![
            b"nft-mint-seed".to_vec(),
            user.bytes.clone(),
            nftmint::name_seed(b"Common #1"),
            nftmint::name_seed(b"CMN"),
        ],
    );
    let holding = derive(
        &program,
        vec![
            b"nft-token-account-seed".to_vec(),
            user.bytes.clone(),
            nftmint::name_seed(b"Common #1"),
            nftmint::name_seed(b"CMN"),
        ],
    );

    let mut l = Ledger::new();
    let r = nftmint::pipeline::initialize(
        &mut l,
        &program,
        &user,
        &meta,
        &mint,
        &holding,
        b"Common #1",
        b"CMN",
        b"ipfs://xyz",
    );
    assert_eq!(r, Ok(()));
    match l.get(&mint) {
        Some(Account::Mint { decimals, authority, supply }) => {
            assert_eq!(*decimals, 0);
            assert_eq!(*supply, 1);
            match authority {
                MintAuthority::Active(a) => assert_eq!(a.bytes, user.bytes),
                MintAuthority::Revoked => panic!("authority must stay with the requester"),
            }
        },
        _ => panic!("mint account missing"),
    }
    match l.get(&meta) {
        Some(Account::Metadata { is_mutable, is_single_edition, .. }) => {
            assert!(*is_mutable);
            assert!(!*is_single_edition);
        },
        _ => panic!("metadata record missing"),
    }
}

#[test]
fn mint_with_tokenaccount_uses_the_canonical_holding_address() {
    let program = addr(31);
    let user = addr(32);
    let token_program = addr(33);
    let ata_program = addr(34);
    let mint = derive(&program, vec![b"nft-mint-seed".to_vec()]);
    let holding = derive(
        &ata_program,
        vec![user.bytes.clone(), token_program.bytes.clone(), mint.bytes.clone()],
    );

    let mut l = Ledger::new();
    let r = nftmint::pipeline::mint_with_tokenaccount(
        &mut l,
        &program,
        &user,
        &mint,
        &holding,
        &token_program,
        &ata_program,
    );
    assert_eq!(r, Ok(()));
    match l.get(&mint) {
        Some(Account::Mint { supply, authority, .. }) => {
            assert_eq!(*supply, 1);
            assert!(matches!(authority, MintAuthority::Active(_)));
        },
        _ => panic!("mint account missing"),
    }
    match l.get(&holding) {
        Some(Account::Holding { owner, mint: hm, balance }) => {
            assert_eq!(owner.bytes, user.bytes);
            assert_eq!(hm.bytes, mint.bytes);
            assert_eq!(*balance, 1);
        },
        _ => panic!("holding account missing"),
    }

    // The namespace-only mint seed makes every second call collide.
    let again = nftmint::pipeline::mint_with_tokenaccount(
        &mut l,
        &program,
        &user,
        &mint,
        &holding,
        &token_program,
        &ata_program,
    );
    assert_eq!(again, Err(PipelineError::AllocationConflict));
}

#[test]
fn mint_with_tokenaccount_rejects_a_foreign_account_at_the_canonical_address() {
    let program = addr(31);
    let user = addr(32);
    let token_program = addr(33);
    let ata_program = addr(34);
    let mint = derive(&program, vec![b"nft-mint-seed".to_vec()]);
    let holding = derive(
        &ata_program,
        vec![user.bytes.clone(), token_program.bytes.clone(), mint.bytes.clone()],
    );

    let mut l = Ledger::new();
    l.allocate(&holding).expect("pre-occupy the canonical address");
    let r = nftmint::pipeline::mint_with_tokenaccount(
        &mut l,
        &program,
        &user,
        &mint,
        &holding,
        &token_program,
        &ata_program,
    );
    assert_eq!(r, Err(PipelineError::AlreadyInitialized));
    assert_eq!(l.entries.len(), 1);
}
