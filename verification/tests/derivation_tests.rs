use nftmint::addr::Address;

fn addr(n: u8) -> Address {
    Address::from_bytes(vec![n; 32])
}

fn seeds(parts: &[&[u8]]) -> Vec<Vec<u8>> {
    parts.iter().map(|p| p.to_vec()).collect()
}

#[test]
fn derivation_is_deterministic_across_calls() {
    let program = addr(7);
    let s = seeds(&[b"hero_mint_seed", &[7u8; 32], b"Hero #1", b"HERO", b"ipfs://abc"]);
    let (a1, b1) = nftmint::addr::derive(&program, &s).expect("derivation");
    let (a2, b2) = nftmint::addr::derive(&program, &s).expect("derivation");
    assert_eq!(a1.bytes, a2.bytes);
    assert_eq!(b1, b2);
    assert_eq!(a1.bytes.len(), 32);
}

#[test]
fn derivation_matches_the_host_scheme() {
    let program = addr(9);
    let s = seeds(&[b"nft-mint-seed", &[3u8; 32], b"abc", b"A"]);
    let (a, bump) = nftmint::addr::derive(&program, &s).expect("derivation");

    let pid = solana_pubkey::Pubkey::new_from_array([9u8; 32]);
    let refs: Vec<&[u8]> = s.iter().map(|x| x.as_slice()).collect();
    let (expected, expected_bump) = solana_pubkey::Pubkey::find_program_address(&refs, &pid);
    assert_eq!(a.bytes, expected.to_bytes().to_vec());
    assert_eq!(bump, expected_bump);
}

#[test]
fn derivation_depends_on_the_seeds() {
    let program = addr(7);
    let s1 = seeds(&[b"hero_mint_seed", &[7u8; 32], b"Hero #1"]);
    let s2 = seeds(&[b"hero_mint_seed", &[7u8; 32], b"Hero #2"]);
    let (a1, _) = nftmint::addr::derive(&program, &s1).expect("derivation");
    let (a2, _) = nftmint::addr::derive(&program, &s2).expect("derivation");
    assert_ne!(a1.bytes, a2.bytes);
}

#[test]
fn name_seed_truncates_to_32_bytes_idempotently() {
    let long: Vec<u8> = (0u8..40).collect();
    let once = nftmint::name_seed(&long);
    let twice = nftmint::name_seed(&once);
    assert_eq!(once.len(), 32);
    assert_eq!(once, (0u8..32).collect::<Vec<u8>>());
    assert_eq!(once, twice);
}

#[test]
fn name_seed_collides_on_a_shared_prefix() {
    let mut n1: Vec<u8> = (0u8..32).collect();
    let mut n2 = n1.clone();
    n1.extend_from_slice(b"-first-tail");
    n2.extend_from_slice(b"-other-tail");
    assert_ne!(n1, n2);
    assert_eq!(nftmint::name_seed(&n1), nftmint::name_seed(&n2));
}

#[test]
fn name_seed_passes_short_fields_through() {
    assert_eq!(nftmint::name_seed(b"HERO"), b"HERO".to_vec());
    assert_eq!(nftmint::name_seed(b""), Vec::<u8>::new());
}

#[test]
fn canonicalize_truncates_each_field() {
    let long: Vec<u8> = (0u8..64).collect();
    let d = nftmint::descriptor::canonicalize(&long, b"HERO", b"ipfs://abc");
    assert_eq!(d.name, (0u8..32).collect::<Vec<u8>>());
    assert_eq!(d.symbol, b"HERO".to_vec());
    assert_eq!(d.uri, b"ipfs://abc".to_vec());
}
