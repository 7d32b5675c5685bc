
use echo_buffer::processor::{EchoAction, EchoInstruction};
use echo_buffer::{AuthorizedBufferHeader, EchoError, Identity, Processor};

fn identity(byte: u8) -> Identity {
    Identity { bytes: [byte; 32] }
}

fn system_key() -> Identity {
    Identity {
        bytes: solana_program::system_program::ID.to_bytes(),
    }
}

/// Derive the identifier for `(owner, seed)`, allocate a zeroed record of
/// `capacity` bytes and seal its header, as the storage collaborator and the
/// initialization operation together would.
fn initialized_buffer(owner: &Identity, seed: u64, namespace: &Identity, capacity: usize) -> (Vec<u8>, Identity) {
    let (identifier, proof_byte) = echo_buffer::derivation::derive(owner, seed, namespace).expect("derivation should succeed");
    let mut record = vec![0u8; capacity];
    Processor::write_authorized_header(
        &mut record,
        AuthorizedBufferHeader {
            bump_seed: proof_byte,
            buffer_seed: seed,
        },
    );
    (record, identifier)
}

#[test]
fn echo_writes_prefix_and_keeps_zero_tail() {
    let mut record = vec![0u8; 8];
    let data = vec![1u8, 2, 3];
    assert_eq!(Processor::echo(&mut record, &data), Ok(()));
    assert_eq!(record, vec![1, 2, 3, 0, 0, 0, 0, 0]);
}

#[test]
fn echo_is_one_shot() {
    let mut record = vec![0u8; 8];
    assert_eq!(Processor::echo(&mut record, &vec![1, 2, 3]), Ok(()));
    let before = record.clone();
    assert_eq!(
        Processor::echo(&mut record, &vec![4, 5]),
        Err(EchoError::BufferNotEmpty)
    );
    assert_eq!(record, before);
}

#[test]
fn echo_rejects_unallocated_buffer() {
    let mut record: Vec<u8> = Vec::new();
    assert_eq!(
        Processor::echo(&mut record, &vec![1]),
        Err(EchoError::BufferNotAllocated)
    );
}

#[test]
fn echo_truncates_oversized_payload() {
    let mut record = vec![0u8; 4];
    let data = vec![7u8; 100];
    assert_eq!(Processor::echo(&mut record, &data), Ok(()));
    assert_eq!(record, vec![7, 7, 7, 7]);
}

#[test]
fn validate_initialize_accepts_derived_identifier() {
    let namespace = identity(20);
    let owner = identity(21);
    let (identifier, proof_byte) = echo_buffer::derivation::derive(&owner, 55, &namespace).expect("derivation should succeed");
    let r = Processor::validate_initialize_authorized_buffer(
        &namespace,
        &owner,
        true,
        &system_key(),
        &identifier,
        55,
    );
    assert_eq!(r, Ok(proof_byte));
}

#[test]
fn validate_initialize_requires_signature() {
    let namespace = identity(20);
    let owner = identity(21);
    let (identifier, _) = echo_buffer::derivation::derive(&owner, 55, &namespace).expect("derivation should succeed");
    let r = Processor::validate_initialize_authorized_buffer(
        &namespace,
        &owner,
        false,
        &system_key(),
        &identifier,
        55,
    );
    assert_eq!(r, Err(EchoError::MissingAuthorizationProof));
}

#[test]
fn validate_initialize_rejects_wrong_system_key() {
    let namespace = identity(20);
    let owner = identity(21);
    let (identifier, _) = echo_buffer::derivation::derive(&owner, 55, &namespace).expect("derivation should succeed");
    let r = Processor::validate_initialize_authorized_buffer(
        &namespace,
        &owner,
        true,
        &identity(99),
        &identifier,
        55,
    );
    assert_eq!(r, Err(EchoError::InvalidInput));
}

#[test]
fn validate_initialize_rejects_mismatched_identifier() {
    let namespace = identity(20);
    let owner = identity(21);
    let r = Processor::validate_initialize_authorized_buffer(
        &namespace,
        &owner,
        true,
        &system_key(),
        &identity(77),
        55,
    );
    assert_eq!(r, Err(EchoError::AddressMismatch));
}

#[test]
fn header_round_trip() {
    let header = AuthorizedBufferHeader {
        bump_seed: 254,
        buffer_seed: 0x1122_3344_5566_7788,
    };
    let mut record = vec![0u8; 12];
    Processor::write_authorized_header(&mut record, header);
    assert_eq!(record[0], 254);
    assert_eq!(&record[1..9], &0x1122_3344_5566_7788u64.to_le_bytes());
    assert_eq!(&record[9..], &[0, 0, 0]);
    let read = AuthorizedBufferHeader::read_from(&record);
    assert_eq!(read, header);
}

#[test]
fn authorized_echo_rewrites_payload() {
    let namespace = identity(30);
    let owner = identity(31);
    let (mut record, identifier) = initialized_buffer(&owner, 7, &namespace, 13);
    let r = Processor::authorized_echo(&mut record, &namespace, &owner, true, &identifier, &vec![9, 9]);
    assert_eq!(r, Ok(()));
    assert_eq!(&record[9..], &[9, 9, 0, 0]);
}

#[test]
fn authorized_rewrite_clears_stale_payload() {
    let namespace = identity(30);
    let owner = identity(31);
    let (mut record, identifier) = initialized_buffer(&owner, 7, &namespace, 13);
    assert_eq!(
        Processor::authorized_echo(&mut record, &namespace, &owner, true, &identifier, &vec![9, 9]),
        Ok(())
    );
    assert_eq!(&record[9..], &[9, 9, 0, 0]);
    assert_eq!(
        Processor::authorized_echo(&mut record, &namespace, &owner, true, &identifier, &vec![5]),
        Ok(())
    );
    assert_eq!(&record[9..], &[5, 0, 0, 0]);
}

#[test]
fn authorized_echo_rejects_other_identity() {
    let namespace = identity(30);
    let owner = identity(31);
    let intruder = identity(32);
    let (mut record, identifier) = initialized_buffer(&owner, 7, &namespace, 13);
    let before = record.clone();
    let r = Processor::authorized_echo(&mut record, &namespace, &intruder, true, &identifier, &vec![1]);
    assert_eq!(r, Err(EchoError::AddressMismatch));
    assert_eq!(record, before);
}

#[test]
fn authorized_echo_requires_signature() {
    let namespace = identity(30);
    let owner = identity(31);
    let (mut record, identifier) = initialized_buffer(&owner, 7, &namespace, 13);
    let before = record.clone();
    let r = Processor::authorized_echo(&mut record, &namespace, &owner, false, &identifier, &vec![1]);
    assert_eq!(r, Err(EchoError::MissingAuthorizationProof));
    assert_eq!(record, before);
}

#[test]
fn authorized_echo_keeps_header_bytes() {
    let namespace = identity(40);
    let owner = identity(41);
    let (mut record, identifier) = initialized_buffer(&owner, 42, &namespace, 20);
    let header_before = record[..9].to_vec();
    for payload in [vec![], vec![1u8], vec![255u8; 20], vec![0u8; 11]] {
        assert_eq!(
            Processor::authorized_echo(&mut record, &namespace, &owner, true, &identifier, &payload),
            Ok(())
        );
        assert_eq!(&record[..9], &header_before[..]);
    }
    let read = AuthorizedBufferHeader::read_from(&record);
    assert_eq!(read.buffer_seed, 42);
}

#[test]
fn authorized_echo_truncates_oversized_payloads() {
    let namespace = identity(50);
    let owner = identity(51);
    let (mut record, identifier) = initialized_buffer(&owner, 3, &namespace, 13);
    // A small linear-congruential walk stands in for random oversized payloads.
    let mut x: u64 = 0x2545_f491_4f6c_dd1d;
    for _ in 0..16 {
        x = x.wrapping_mul(6364136223846793005).wrapping_add(1442695040888963407);
        let extra = (x % 64) as usize;
        let payload: Vec<u8> = (0..(4 + 1 + extra)).map(|i| (i as u8).wrapping_add(1)).collect();
        assert_eq!(
            Processor::authorized_echo(&mut record, &namespace, &owner, true, &identifier, &payload),
            Ok(())
        );
        assert_eq!(record.len(), 13);
        assert_eq!(&record[9..], &payload[..4]);
    }
}

#[test]
fn vending_machine_stubs_refuse() {
    assert_eq!(
        Processor::initialize_vending_machine_echo(10, 64),
        Err(EchoError::NotImplemented)
    );
    assert_eq!(
        Processor::vending_machine_echo(&vec![1, 2]),
        Err(EchoError::NotImplemented)
    );
}

#[test]
fn assert_with_msg_surfaces_the_error() {
    assert_eq!(
        echo_buffer::processor::assert_with_msg(true, EchoError::InvalidInput, "fine"),
        Ok(())
    );
    assert_eq!(
        echo_buffer::processor::assert_with_msg(false, EchoError::InvalidInput, "bad"),
        Err(EchoError::InvalidInput)
    );
}

#[test]
fn process_instruction_echo_arm() {
    let namespace = identity(60);
    let mut record = vec![0u8; 5];
    let r = Processor::process_instruction(
        &namespace,
        &mut record,
        &identity(0),
        &identity(0),
        false,
        &identity(0),
        &EchoInstruction::Echo { data: vec![8, 6] },
    );
    assert!(matches!(r, Ok(EchoAction::Done)));
    assert_eq!(record, vec![8, 6, 0, 0, 0]);
}

#[test]
fn process_instruction_initialize_arm_decides_allocation() {
    let namespace = identity(61);
    let owner = identity(62);
    let (identifier, proof_byte) = echo_buffer::derivation::derive(&owner, 123, &namespace).expect("derivation should succeed");
    let mut record: Vec<u8> = Vec::new();
    let r = Processor::process_instruction(
        &namespace,
        &mut record,
        &identifier,
        &owner,
        true,
        &system_key(),
        &EchoInstruction::InitializeAuthorizedEcho {
            buffer_seed: 123,
            buffer_size: 64,
        },
    );
    assert!(record.is_empty());
    match r {
        Ok(EchoAction::Allocate {
            identifier: target,
            buffer_size,
            header,
        }) => {
            assert_eq!(target.bytes, identifier.bytes);
            assert_eq!(buffer_size, 64);
            assert_eq!(header.bump_seed, proof_byte);
            assert_eq!(header.buffer_seed, 123);
        }
        other => panic!("expected an allocation action, got {:?}", other),
    }
}

#[test]
fn process_instruction_authorized_echo_arm() {
    let namespace = identity(63);
    let owner = identity(64);
    let (mut record, identifier) = initialized_buffer(&owner, 9, &namespace, 11);
    let r = Processor::process_instruction(
        &namespace,
        &mut record,
        &identifier,
        &owner,
        true,
        &system_key(),
        &EchoInstruction::AuthorizedEcho { data: vec![4] },
    );
    assert!(matches!(r, Ok(EchoAction::Done)));
    assert_eq!(&record[9..], &[4, 0]);
}

#[test]
fn process_instruction_vending_arms_touch_nothing() {
    let namespace = identity(65);
    let mut record = vec![0u8; 4];
    let before = record.clone();
    let r = Processor::process_instruction(
        &namespace,
        &mut record,
        &identity(0),
        &identity(0),
        true,
        &system_key(),
        &EchoInstruction::InitializeVendingMachineEcho {
            price: 5,
            buffer_size: 32,
        },
    );
    assert!(matches!(r, Err(EchoError::NotImplemented)));
    assert_eq!(record, before);
    let r = Processor::process_instruction(
        &namespace,
        &mut record,
        &identity(0),
        &identity(0),
        true,
        &system_key(),
        &EchoInstruction::VendingMachineEcho { data: vec![1] },
    );
    assert!(matches!(r, Err(EchoError::NotImplemented)));
    assert_eq!(record, before);
}
