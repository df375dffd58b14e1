use raxc::agent_memory::{entry_key, AgentMemoryError, AgentMemoryEvent, RaxcAgentMemory};
use raxc::primitives::{Address, B256, U256};

fn alice() -> Address {
    Address::from_bytes([0x11u8; 20])
}

fn agent() -> Address {
    Address::from_bytes([0x22u8; 20])
}

fn setup() -> RaxcAgentMemory {
    let mut contract = RaxcAgentMemory::new();
    contract.set_block_timestamp(1_000_000);
    contract.set_sender(alice());
    contract
}

fn keccak(data: &[u8]) -> B256 {
    B256::from_bytes(alloy_primitives::keccak256(data).0)
}

fn lib_mint_scenario() {
    let mut contract = setup();
    let token_id = contract.mint(alice(), agent()).expect("mint failed");
    assert_eq!(token_id, U256::zero());
    assert_eq!(contract.owner_of(U256::zero()), alice());
    assert_eq!(contract.get_agent_address(U256::zero()), agent());
    assert_eq!(contract.memory_count(U256::zero()), U256::zero());
}

#[test]
fn lib_test_mint() {
    lib_mint_scenario();
}

#[test]
fn agent_memory_test_mint() {
    lib_mint_scenario();
}

fn push_by_agent_scenario() {
    let mut contract = setup();
    let token_id = contract.mint(alice(), agent()).expect("mint failed");
    contract.set_sender(agent());
    let json = b"{\"vuln\":\"Reentrancy\"}".to_vec();
    contract
        .push_memory(token_id, json.clone(), "Audit: DeFiVault".to_string())
        .expect("push_memory failed");
    assert_eq!(contract.memory_count(token_id), U256::from_u64(1));
    let data = contract.get_memory_data(token_id, U256::zero()).unwrap();
    assert_eq!(data, json);
}

#[test]
fn lib_test_push_memory_by_agent() {
    push_by_agent_scenario();
}

#[test]
fn agent_memory_test_push_memory_by_agent() {
    push_by_agent_scenario();
}

fn verify_memory_scenario() {
    let mut contract = setup();
    let token_id = contract.mint(alice(), agent()).expect("mint failed");
    contract.set_sender(agent());
    let json = b"{\"risk\":\"Critical\"}".to_vec();
    contract.push_memory(token_id, json.clone(), "desc".to_string()).expect("push failed");
    assert!(contract.verify_memory(token_id, U256::zero(), json.clone()));
    assert!(!contract.verify_memory(token_id, U256::zero(), b"tampered".to_vec()));
}

#[test]
fn lib_test_verify_memory() {
    verify_memory_scenario();
}

#[test]
fn agent_memory_test_verify_memory() {
    verify_memory_scenario();
}

fn unauthorized_scenario() {
    let mut contract = setup();
    let token_id = contract.mint(alice(), agent()).expect("mint failed");
    contract.set_sender(Address::from_bytes([0x99u8; 20]));
    let result = contract.push_memory(token_id, b"data".to_vec(), "d".to_string());
    assert!(result.is_err());
}

#[test]
fn lib_test_unauthorized_push_fails() {
    unauthorized_scenario();
}

#[test]
fn agent_memory_test_unauthorized_push_fails() {
    unauthorized_scenario();
}

fn multiple_entries_scenario() {
    let mut contract = setup();
    let token_id = contract.mint(alice(), agent()).expect("mint failed");
    contract.set_sender(agent());
    for i in 0..3u8 {
        let json = format!("{{\"entry\":{}}}", i).into_bytes();
        contract.push_memory(token_id, json, format!("entry {}", i)).expect("push failed");
    }
    assert_eq!(contract.memory_count(token_id), U256::from_u64(3));
}

#[test]
fn lib_test_multiple_entries() {
    multiple_entries_scenario();
}

#[test]
fn agent_memory_test_multiple_entries() {
    multiple_entries_scenario();
}

#[test]
fn mint_to_zero_owner_is_refused() {
    let mut contract = setup();
    assert_eq!(contract.mint(Address::zero(), agent()), Err(AgentMemoryError::InvalidOwner));
    assert_eq!(contract.total_supply(), U256::zero());
    assert_eq!(AgentMemoryError::InvalidOwner.message(), "invalid owner");
}

#[test]
fn mint_issues_sequential_ids() {
    let mut contract = setup();
    assert_eq!(contract.mint(alice(), agent()), Ok(U256::from_u64(0)));
    assert_eq!(contract.mint(agent(), alice()), Ok(U256::from_u64(1)));
    assert_eq!(contract.total_supply(), U256::from_u64(2));
    assert_eq!(contract.owner_of(U256::from_u64(1)), agent());
    assert_eq!(contract.owner_of(U256::from_u64(7)), Address::zero());
    assert_eq!(contract.get_agent_address(U256::from_u64(7)), Address::zero());
    assert_eq!(contract.memory_count(U256::from_u64(7)), U256::zero());
}

#[test]
fn push_errors_follow_the_checks_in_order() {
    let mut contract = setup();
    let token_id = contract.mint(alice(), agent()).unwrap();
    assert_eq!(
        contract.push_memory(U256::from_u64(5), b"x".to_vec(), "d".to_string()),
        Err(AgentMemoryError::TokenNotFound)
    );
    assert_eq!(
        contract.push_memory(token_id, Vec::new(), "d".to_string()),
        Err(AgentMemoryError::EmptyMemory)
    );
    contract.set_sender(Address::from_bytes([0x33u8; 20]));
    assert_eq!(
        contract.push_memory(token_id, Vec::new(), "d".to_string()),
        Err(AgentMemoryError::NotAuthorized)
    );
    assert_eq!(contract.memory_count(token_id), U256::zero());
    assert_eq!(contract.events().len(), 1);
}

#[test]
fn owner_can_push_too() {
    let mut contract = setup();
    let token_id = contract.mint(alice(), agent()).unwrap();
    contract.push_memory(token_id, b"owner entry".to_vec(), "by owner".to_string()).unwrap();
    assert_eq!(contract.memory_count(token_id), U256::from_u64(1));
}

#[test]
fn entry_reads_check_bounds() {
    let mut contract = setup();
    let token_id = contract.mint(alice(), agent()).unwrap();
    assert_eq!(
        contract.get_memory_data(token_id, U256::zero()),
        Err(AgentMemoryError::IndexOutOfBounds)
    );
    assert_eq!(
        contract.get_memory_hash(U256::from_u64(9), U256::zero()),
        Err(AgentMemoryError::TokenNotFound)
    );
    assert!(!contract.verify_memory(token_id, U256::zero(), Vec::new()));
    let big = U256::from_limbs([0, 0, 0, 1]);
    assert_eq!(
        contract.get_memory_timestamp(big, U256::zero()),
        Err(AgentMemoryError::TokenNotFound)
    );
}

#[test]
fn stored_hash_and_timestamp_are_those_of_the_push() {
    let mut contract = setup();
    let token_id = contract.mint(alice(), agent()).unwrap();
    let data = b"{\"risk\":\"High\"}".to_vec();
    contract.push_memory(token_id, data.clone(), "d".to_string()).unwrap();
    let hash = contract.get_memory_hash(token_id, U256::zero()).unwrap();
    assert_eq!(hash, keccak(&data));
    assert_ne!(hash.bytes[..data.len().min(32)], data[..data.len().min(32)]);
    assert_eq!(
        contract.get_memory_timestamp(token_id, U256::zero()),
        Ok(U256::from_u64(1_000_000))
    );
    match &contract.events()[1] {
        AgentMemoryEvent::MemoryPushed { token_id: t, entry_index, content_hash, timestamp } => {
            assert_eq!(*t, token_id);
            assert_eq!(*entry_index, U256::zero());
            assert_eq!(*content_hash, keccak(&data));
            assert_eq!(*timestamp, U256::from_u64(1_000_000));
        }
        other => panic!("unexpected event {:?}", other),
    }
}

#[test]
fn keccak_of_empty_input_is_the_known_digest() {
    let mut contract = setup();
    let token_id = contract.mint(alice(), agent()).unwrap();
    contract.push_memory(token_id, b"x".to_vec(), "d".to_string()).unwrap();
    let expected: [u8; 32] = [
        0xc5, 0xd2, 0x46, 0x01, 0x86, 0xf7, 0x23, 0x3c, 0x92, 0x7e, 0x7d, 0xb2, 0xdc, 0xc7, 0x03,
        0xc0, 0xe5, 0x00, 0xb6, 0x53, 0xca, 0x82, 0x27, 0x3b, 0x7b, 0xfa, 0xd8, 0x04, 0x5d, 0x85,
        0xa4, 0x70,
    ];
    assert_eq!(keccak(b""), B256::from_bytes(expected));
    assert!(!contract.verify_memory(token_id, U256::zero(), Vec::new()));
}

#[test]
fn set_agent_address_only_by_owner() {
    let mut contract = setup();
    let token_id = contract.mint(alice(), agent()).unwrap();
    let other = Address::from_bytes([0x44u8; 20]);
    contract.set_sender(agent());
    assert_eq!(contract.set_agent_address(token_id, other), Err(AgentMemoryError::NotTokenOwner));
    assert_eq!(
        contract.set_agent_address(U256::from_u64(3), other),
        Err(AgentMemoryError::TokenNotFound)
    );
    contract.set_sender(alice());
    contract.set_agent_address(token_id, other).unwrap();
    assert_eq!(contract.get_agent_address(token_id), other);
    assert_eq!(contract.owner_of(token_id), alice());
    contract.set_sender(agent());
    assert!(contract.push_memory(token_id, b"late".to_vec(), "d".to_string()).is_err());
    contract.set_sender(other);
    assert!(contract.push_memory(token_id, b"new agent".to_vec(), "d".to_string()).is_ok());
}

#[test]
fn entry_key_of_zero_pair_is_hash_of_64_zero_bytes() {
    let expected: [u8; 32] = [
        0xad, 0x32, 0x28, 0xb6, 0x76, 0xf7, 0xd3, 0xcd, 0x42, 0x84, 0xa5, 0x44, 0x3f, 0x17, 0xf1,
        0x96, 0x2b, 0x36, 0xe4, 0x91, 0xb3, 0x0a, 0x40, 0xb2, 0x40, 0x58, 0x49, 0xe5, 0x97, 0xba,
        0x5f, 0xb5,
    ];
    let k = entry_key(U256::zero(), U256::zero());
    let expected_value = alloy_primitives::U256::from_be_bytes(expected);
    assert_eq!(k.as_limbs(), *expected_value.as_limbs());
}

#[test]
fn entry_key_separates_token_and_index() {
    let a = entry_key(U256::from_u64(1), U256::from_u64(2));
    let b = entry_key(U256::from_u64(2), U256::from_u64(1));
    assert_ne!(a, b);
    let mut buf = [0u8; 64];
    buf[31] = 1;
    buf[63] = 2;
    let expected = alloy_primitives::U256::from_be_bytes(alloy_primitives::keccak256(buf).0);
    assert_eq!(a.as_limbs(), *expected.as_limbs());
}

#[test]
fn earlier_entries_survive_later_pushes() {
    let mut contract = setup();
    let first = contract.mint(alice(), agent()).unwrap();
    let second = contract.mint(agent(), agent()).unwrap();
    contract.push_memory(first, b"one".to_vec(), "a".to_string()).unwrap();
    contract.set_block_timestamp(2_000_000);
    contract.push_memory(first, b"two".to_vec(), "b".to_string()).unwrap();
    contract.set_sender(agent());
    contract.push_memory(second, b"three".to_vec(), "c".to_string()).unwrap();
    assert_eq!(contract.get_memory_data(first, U256::zero()).unwrap(), b"one".to_vec());
    assert_eq!(contract.get_memory_data(first, U256::from_u64(1)).unwrap(), b"two".to_vec());
    assert_eq!(contract.get_memory_timestamp(first, U256::zero()), Ok(U256::from_u64(1_000_000)));
    assert_eq!(contract.get_memory_timestamp(first, U256::from_u64(1)), Ok(U256::from_u64(2_000_000)));
    assert_eq!(contract.memory_count(second), U256::from_u64(1));
    assert!(contract.verify_memory(first, U256::zero(), b"one".to_vec()));
    assert!(!contract.verify_memory(first, U256::from_u64(1), b"one".to_vec()));
    assert_eq!(contract.events().len(), 5);
    match &contract.events()[0] {
        AgentMemoryEvent::AgentMinted { token_id, owner, agent: a } => {
            assert_eq!(*token_id, first);
            assert_eq!(*owner, alice());
            assert_eq!(*a, agent());
        }
        other => panic!("unexpected event {:?}", other),
    }
}

#[test]
fn memory_round_trip_with_inline_bytes() {
    let mut contract = setup();
    let original: Vec<u8> = (0u16..700).map(|i| (i * 7 % 256) as u8).collect();
    let token_id = contract.mint(alice(), agent()).expect("mint failed");
    contract.set_sender(agent());
    contract
        .push_memory(token_id, original.clone(), "RAXC Audit: DeFiVault 2026-06-01".to_string())
        .expect("push_memory failed");
    assert!(contract.verify_memory(token_id, U256::zero(), original.clone()));
    contract.push_memory(token_id, b"later".to_vec(), "later".to_string()).unwrap();
    contract.mint(agent(), alice()).unwrap();
    let downloaded = contract.get_memory_data(token_id, U256::zero()).expect("get_memory_data failed");
    assert_eq!(downloaded, original);
}
