
use echo_buffer::Identity;
use solana_program::pubkey::Pubkey;

fn identity(byte: u8) -> Identity {
    Identity { bytes: [byte; 32] }
}

#[test]
fn derive_is_deterministic() {
    let owner = identity(3);
    let namespace = identity(250);
    let first = echo_buffer::derivation::derive(&owner, 42, &namespace).expect("derivation should find a proof byte");
    let second = echo_buffer::derivation::derive(&owner, 42, &namespace).expect("derivation should find a proof byte");
    assert_eq!(first.0.bytes, second.0.bytes);
    assert_eq!(first.1, second.1);
}

#[test]
fn derive_matches_ledger_routine() {
    let owner = identity(9);
    let namespace = identity(17);
    let seed: u64 = 7777;
    let (identifier, proof_byte) =
        echo_buffer::derivation::derive(&owner, seed, &namespace).expect("derivation should find a proof byte");

    let owner_key = Pubkey::new_from_array(owner.bytes);
    let namespace_key = Pubkey::new_from_array(namespace.bytes);
    let (expected_key, expected_bump) = Pubkey::find_program_address(
        &[b"authority", owner_key.as_ref(), &seed.to_le_bytes()],
        &namespace_key,
    );
    assert_eq!(identifier.bytes, expected_key.to_bytes());
    assert_eq!(proof_byte, expected_bump);
}

#[test]
fn derive_transforms_its_inputs() {
    let owner = identity(5);
    let namespace = identity(6);
    let (identifier, _) =
        echo_buffer::derivation::derive(&owner, 1, &namespace).expect("derivation should find a proof byte");
    assert_ne!(identifier.bytes, owner.bytes);
    assert_ne!(identifier.bytes, namespace.bytes);
}

#[test]
fn different_owners_derive_different_identifiers() {
    let namespace = identity(1);
    let (id_a, _) = echo_buffer::derivation::derive(&identity(10), 5, &namespace).expect("derivation should succeed");
    let (id_b, _) = echo_buffer::derivation::derive(&identity(11), 5, &namespace).expect("derivation should succeed");
    assert_ne!(id_a.bytes, id_b.bytes);
}

#[test]
fn identity_eq_compares_bytes() {
    let a = identity(4);
    let mut b = identity(4);
    assert!(echo_buffer::identity::identity_eq(&a, &b));
    b.bytes[31] = 5;
    assert!(!echo_buffer::identity::identity_eq(&a, &b));
}
