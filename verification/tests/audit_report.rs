use raxc::audit_report::{AuditReportError, AuditReportEvent, RaxcAuditReport};
use raxc::primitives::{Address, B256, U256};

fn setup() -> RaxcAuditReport {
    let mut contract = RaxcAuditReport::new();
    contract.set_block_timestamp(1_000_000);
    contract.set_sender(Address::from_bytes([0xAAu8; 20]));
    contract
}

fn keccak(data: &[u8]) -> B256 {
    B256::from_bytes(alloy_primitives::keccak256(data).0)
}

fn create_scenario() {
    let mut contract = setup();
    let task_id = contract.create_audit("DeFiVault".to_string()).expect("create_audit failed");
    assert_eq!(task_id, U256::zero());
    assert_eq!(contract.record_count(), U256::from_u64(1));
    assert!(!contract.is_finalized(task_id));
}

#[test]
fn lib_test_create_audit() {
    create_scenario();
}

#[test]
fn audit_report_test_create_audit() {
    create_scenario();
}

fn finalize_scenario() {
    let mut contract = setup();
    let task_id = contract.create_audit("DeFiVault".to_string()).expect("create_audit failed");
    let report = b"# Audit Report\n**Vulnerability:** Reentrancy".to_vec();
    contract
        .finalize_audit(task_id, 4, 87, "Reentrancy".to_string(), report.clone())
        .expect("finalize_audit failed");
    assert!(contract.is_finalized(task_id));
    assert_eq!(contract.get_risk_level(task_id), 4);
    assert_eq!(contract.get_confidence(task_id), 87);
    assert_eq!(contract.get_report(task_id).unwrap(), report);
}

#[test]
fn lib_test_finalize_audit() {
    finalize_scenario();
}

#[test]
fn audit_report_test_finalize_audit() {
    finalize_scenario();
}

fn verify_scenario() {
    let mut contract = setup();
    let task_id = contract.create_audit("TokenPool".to_string()).expect("create_audit failed");
    let report = b"# Report".to_vec();
    contract
        .finalize_audit(task_id, 3, 75, "Flash Loan".to_string(), report.clone())
        .expect("finalize failed");
    assert!(contract.verify_report(task_id, report.clone()));
    assert!(!contract.verify_report(task_id, b"tampered".to_vec()));
}

#[test]
fn lib_test_verify_report() {
    verify_scenario();
}

#[test]
fn audit_report_test_verify_report() {
    verify_scenario();
}

fn double_finalize_scenario() {
    let mut contract = setup();
    let task_id = contract.create_audit("Vault".to_string()).expect("create failed");
    let report = b"report".to_vec();
    contract
        .finalize_audit(task_id, 1, 50, "None".to_string(), report.clone())
        .expect("first finalize failed");
    let result = contract.finalize_audit(task_id, 1, 50, "None".to_string(), report);
    assert!(result.is_err());
}

#[test]
fn lib_test_double_finalize_fails() {
    double_finalize_scenario();
}

#[test]
fn audit_report_test_double_finalize_fails() {
    double_finalize_scenario();
}

fn invalid_confidence_scenario() {
    let mut contract = setup();
    let task_id = contract.create_audit("Vault".to_string()).expect("create failed");
    let result = contract.finalize_audit(task_id, 1, 101, "None".to_string(), b"r".to_vec());
    assert!(result.is_err());
}

#[test]
fn lib_test_invalid_confidence() {
    invalid_confidence_scenario();
}

#[test]
fn audit_report_test_invalid_confidence() {
    invalid_confidence_scenario();
}

#[test]
fn finalize_errors_and_messages() {
    let mut contract = setup();
    assert_eq!(
        contract.finalize_audit(U256::from_u64(0), 1, 50, "x".to_string(), Vec::new()),
        Err(AuditReportError::TaskNotFound)
    );
    let task_id = contract.create_audit("Vault".to_string()).unwrap();
    assert_eq!(
        contract.finalize_audit(task_id, 1, 101, "x".to_string(), Vec::new()),
        Err(AuditReportError::InvalidConfidence)
    );
    assert!(!contract.is_finalized(task_id));
    contract.finalize_audit(task_id, 2, 100, "x".to_string(), Vec::new()).unwrap();
    assert_eq!(
        contract.finalize_audit(task_id, 2, 100, "x".to_string(), Vec::new()),
        Err(AuditReportError::AlreadyFinalized)
    );
    assert_eq!(AuditReportError::InvalidConfidence.message(), "confidence must be 0-100");
    assert_eq!(AuditReportError::TaskNotFound.message(), "task not found");
    assert_eq!(AuditReportError::AlreadyFinalized.message(), "already finalized");
}

#[test]
fn task_created_at_time_zero_can_be_finalised() {
    let mut contract = RaxcAuditReport::new();
    let task_id = contract.create_audit("Vault".to_string()).unwrap();
    assert_eq!(contract.created_at(task_id), U256::zero());
    assert_eq!(contract.get_report(task_id), Ok(Vec::new()));
    assert_eq!(contract.finalize_audit(task_id, 1, 1, "x".to_string(), b"r".to_vec()), Ok(()));
    assert!(contract.is_finalized(task_id));
}

#[test]
fn finalise_at_time_zero_is_final() {
    let mut contract = setup();
    let task_id = contract.create_audit("Vault".to_string()).unwrap();
    contract.set_block_timestamp(0);
    contract.finalize_audit(task_id, 1, 10, "a".to_string(), b"first".to_vec()).unwrap();
    assert!(contract.is_finalized(task_id));
    assert_eq!(contract.completed_at(task_id), U256::zero());
    assert_eq!(
        contract.finalize_audit(task_id, 2, 20, "b".to_string(), b"second".to_vec()),
        Err(AuditReportError::AlreadyFinalized)
    );
    assert_eq!(contract.get_report(task_id).unwrap(), b"first".to_vec());
    assert_eq!(contract.get_confidence(task_id), 10);
    assert_eq!(contract.get_risk_level(task_id), 1);
}

#[test]
fn report_round_trip_with_inline_bytes() {
    let mut contract = setup();
    let report: Vec<u8> = (0u16..600).map(|i| (i % 251) as u8).collect();
    let task_id = contract.create_audit("DeFiVault".to_string()).unwrap();
    contract.finalize_audit(task_id, 4, 87, "Reentrancy".to_string(), report.clone()).unwrap();
    assert!(contract.verify_report(task_id, report.clone()));
    let downloaded = contract.get_report(task_id).expect("get_report failed");
    assert_eq!(downloaded, report);
    let other = contract.create_audit("Other".to_string()).unwrap();
    assert_eq!(contract.get_report(task_id).unwrap(), report);
    assert_eq!(contract.get_report(other), Ok(Vec::new()));
}

#[test]
fn getters_of_unknown_task_are_zero() {
    let contract = setup();
    let t = U256::from_u64(4);
    assert_eq!(contract.get_requester(t), Address::zero());
    assert_eq!(contract.get_risk_level(t), 0);
    assert_eq!(contract.get_confidence(t), 0);
    assert_eq!(contract.get_report_hash(t), B256::zero());
    assert_eq!(contract.created_at(t), U256::zero());
    assert_eq!(contract.completed_at(t), U256::zero());
    assert!(!contract.is_finalized(t));
    assert_eq!(contract.record_count(), U256::zero());
}

#[test]
fn report_hash_requester_and_times_are_recorded() {
    let mut contract = setup();
    let task_id = contract.create_audit("TokenPool".to_string()).unwrap();
    assert_eq!(contract.get_requester(task_id), Address::from_bytes([0xAAu8; 20]));
    assert_eq!(contract.created_at(task_id), U256::from_u64(1_000_000));
    assert_eq!(contract.get_report(task_id).unwrap(), Vec::<u8>::new());
    contract.set_block_timestamp(1_000_500);
    let report = b"# Report body".to_vec();
    contract.finalize_audit(task_id, 3, 75, "Flash Loan".to_string(), report.clone()).unwrap();
    assert_eq!(contract.get_report_hash(task_id), keccak(&report));
    assert_eq!(contract.completed_at(task_id), U256::from_u64(1_000_500));
    match &contract.events()[1] {
        AuditReportEvent::AuditFinalized { task_id: t, risk_level, confidence, report_hash, timestamp } => {
            assert_eq!(*t, task_id);
            assert_eq!(*risk_level, 3);
            assert_eq!(*confidence, 75);
            assert_eq!(*report_hash, keccak(&report));
            assert_eq!(*timestamp, U256::from_u64(1_000_500));
        }
        other => panic!("unexpected event {:?}", other),
    }
    match &contract.events()[0] {
        AuditReportEvent::AuditCreated { contract_name, .. } => assert_eq!(contract_name, "TokenPool"),
        other => panic!("unexpected event {:?}", other),
    }
}
