use nftmint::addr::Address;
use nftmint::descriptor::canonicalize;
use nftmint::ledger::{Account, Ledger, MintAuthority, PipelineError};

fn addr(n: u8) -> Address {
    Address::from_bytes(vec![n; 32])
}

fn mint_with_holding(ledger: &mut Ledger, mint: &Address, holding: &Address, user: &Address) {
    ledger.allocate(mint).expect("allocate mint");
    ledger.allocate(holding).expect("allocate holding");
    ledger.init_mint(mint, 0, user).expect("init mint");
    ledger.init_holding(holding, mint, user).expect("init holding");
}

#[test]
fn allocate_refuses_an_occupied_address() {
    let mut l = Ledger::new();
    let a = addr(1);
    assert_eq!(l.allocate(&a), Ok(()));
    assert_eq!(l.allocate(&a), Err(PipelineError::AllocationConflict));
}

#[test]
fn init_mint_refuses_a_second_initialization() {
    let mut l = Ledger::new();
    let (m, u) = (addr(1), addr(2));
    l.allocate(&m).unwrap();
    assert_eq!(l.init_mint(&m, 0, &u), Ok(()));
    assert_eq!(l.init_mint(&m, 0, &u), Err(PipelineError::AlreadyInitialized));
}

#[test]
fn issue_before_mint_initialization_is_refused() {
    let mut l = Ledger::new();
    let (m, h, u) = (addr(1), addr(2), addr(3));
    l.allocate(&m).unwrap();
    l.allocate(&h).unwrap();
    assert_eq!(
        l.issue(&m, &h, Some(&u), 1),
        Err(PipelineError::UninitializedAccount)
    );
}

#[test]
fn issue_on_an_empty_ledger_is_refused() {
    let mut l = Ledger::new();
    let (m, h, u) = (addr(1), addr(2), addr(3));
    assert_eq!(l.issue(&m, &h, Some(&u), 1), Err(PipelineError::UnknownAccount));
}

#[test]
fn issue_needs_the_authoritys_signature() {
    let mut l = Ledger::new();
    let (m, h, u, other) = (addr(1), addr(2), addr(3), addr(4));
    mint_with_holding(&mut l, &m, &h, &u);
    assert_eq!(l.issue(&m, &h, None, 1), Err(PipelineError::AuthoritySignatureMissing));
    assert_eq!(
        l.issue(&m, &h, Some(&other), 1),
        Err(PipelineError::AuthoritySignatureInvalid)
    );
    assert_eq!(l.issue(&m, &h, Some(&u), 1), Ok(()));
}

#[test]
fn issue_refuses_a_foreign_holding_account() {
    let mut l = Ledger::new();
    let (m1, h1, u) = (addr(1), addr(2), addr(3));
    let (m2, h2) = (addr(4), addr(5));
    mint_with_holding(&mut l, &m1, &h1, &u);
    mint_with_holding(&mut l, &m2, &h2, &u);
    assert_eq!(l.issue(&m1, &h2, Some(&u), 1), Err(PipelineError::MintMismatch));
}

#[test]
fn issue_refuses_a_balance_overflow() {
    let mut l = Ledger::new();
    let (m, h, u) = (addr(1), addr(2), addr(3));
    mint_with_holding(&mut l, &m, &h, &u);
    assert_eq!(l.issue(&m, &h, Some(&u), u64::MAX), Ok(()));
    assert_eq!(l.issue(&m, &h, Some(&u), 1), Err(PipelineError::SupplyOverflow));
}

#[test]
fn revoke_before_issue_is_a_sequencing_violation() {
    let mut l = Ledger::new();
    let (m, h, u) = (addr(1), addr(2), addr(3));
    mint_with_holding(&mut l, &m, &h, &u);
    assert_eq!(
        l.revoke_authority(&m, Some(&u)),
        Err(PipelineError::SequencingViolation)
    );
}

#[test]
fn revocation_is_permanent() {
    let mut l = Ledger::new();
    let (m, h, u) = (addr(1), addr(2), addr(3));
    mint_with_holding(&mut l, &m, &h, &u);
    l.issue(&m, &h, Some(&u), 1).expect("issue");
    assert_eq!(l.revoke_authority(&m, Some(&u)), Ok(()));
    // No signature is accepted afterwards: neither to issue nor to revoke.
    assert_eq!(
        l.issue(&m, &h, Some(&u), 1),
        Err(PipelineError::AuthoritySignatureInvalid)
    );
    assert_eq!(
        l.revoke_authority(&m, Some(&u)),
        Err(PipelineError::AuthoritySignatureInvalid)
    );
    match l.get(&m) {
        Some(Account::Mint { decimals, authority, supply }) => {
            assert_eq!(*decimals, 0);
            assert_eq!(*supply, 1);
            assert!(matches!(authority, MintAuthority::Revoked));
        },
        _ => panic!("mint account missing"),
    }
}

#[test]
fn attach_metadata_refuses_an_occupied_record() {
    let mut l = Ledger::new();
    let (m, h, u, meta) = (addr(1), addr(2), addr(3), addr(4));
    mint_with_holding(&mut l, &m, &h, &u);
    let d = canonicalize(b"Hero #1", b"HERO", b"ipfs://abc");
    assert_eq!(l.attach_metadata(&meta, &m, &d, &u, true, false), Ok(()));
    assert_eq!(
        l.attach_metadata(&meta, &m, &d, &u, true, false),
        Err(PipelineError::RegistryRejected)
    );
}

#[test]
fn attach_metadata_needs_an_initialized_mint() {
    let mut l = Ledger::new();
    let (m, u, meta) = (addr(1), addr(3), addr(4));
    let d = canonicalize(b"Hero #1", b"HERO", b"ipfs://abc");
    assert_eq!(
        l.attach_metadata(&meta, &m, &d, &u, true, false),
        Err(PipelineError::RegistryRejected)
    );
}
