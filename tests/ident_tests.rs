use zephyra::ident::{derive_id, same_id, seal, DomainTag};
use zephyra::registry::generate_transaction_id;

#[test]
fn empty_parts_hash_the_tag_alone() {
    let id = derive_id(&vec![], DomainTag::Transaction);
    let expected: [u8; 32] = [
        75, 245, 18, 47, 52, 69, 84, 197, 59, 222, 46, 187, 140, 210, 183, 227, 209, 96, 10,
        214, 49, 195, 133, 165, 215, 204, 226, 60, 119, 133, 69, 154,
    ];
    assert_eq!(id, expected);
}

#[test]
fn one_part_is_length_prefixed() {
    let id = derive_id(&vec![b"abc".to_vec()], DomainTag::Batch);
    let expected: [u8; 32] = [
        150, 100, 219, 203, 234, 165, 35, 63, 127, 3, 195, 38, 141, 89, 145, 207, 177, 25, 161,
        4, 184, 49, 51, 80, 59, 136, 196, 92, 62, 192, 175, 230,
    ];
    assert_eq!(id, expected);
}

#[test]
fn transaction_id_matches_reference_digest() {
    let id = generate_transaction_id(&[7u8; 32], &[1u8; 32], &[2u8; 32], 1_000_000, 1_700_000_000);
    let expected: [u8; 32] = [
        84, 9, 23, 121, 46, 148, 177, 219, 140, 241, 11, 252, 177, 230, 154, 18, 70, 253, 230,
        122, 177, 84, 253, 60, 9, 82, 133, 142, 37, 85, 149, 77,
    ];
    assert_eq!(id, expected);
}

#[test]
fn derivation_is_deterministic() {
    let parts = vec![vec![1u8, 2, 3], vec![], vec![9u8; 40]];
    assert_eq!(derive_id(&parts, DomainTag::Proof), derive_id(&parts.clone(), DomainTag::Proof));
}

#[test]
fn domain_tags_separate_identifiers() {
    let parts = vec![vec![5u8; 32], 1234u64.to_le_bytes().to_vec()];
    let t = derive_id(&parts, DomainTag::Transaction);
    let b = derive_id(&parts, DomainTag::Batch);
    let p = derive_id(&parts, DomainTag::Proof);
    assert_ne!(t, b);
    assert_ne!(t, p);
    assert_ne!(b, p);
}

#[test]
fn part_boundaries_matter() {
    let ab_c = derive_id(&vec![b"ab".to_vec(), b"c".to_vec()], DomainTag::Session);
    let a_bc = derive_id(&vec![b"a".to_vec(), b"bc".to_vec()], DomainTag::Session);
    assert_ne!(ab_c, a_bc);
}

#[test]
fn seal_starts_with_the_identifier() {
    let parts = vec![vec![3u8; 8]];
    let s = seal(&parts, DomainTag::ExecutionSeal);
    let head = derive_id(&parts, DomainTag::ExecutionSeal);
    let tail = derive_id(&vec![head.to_vec()], DomainTag::ExecutionSeal);
    assert_eq!(&s[..32], &head[..]);
    assert_eq!(&s[32..], &tail[..]);
}

#[test]
fn same_id_compares_every_byte() {
    let a = [4u8; 32];
    let mut b = a;
    assert!(same_id(&a, &b));
    b[31] = 5;
    assert!(!same_id(&a, &b));
}
