use audit_ledger::auth::{User, UserDirectory, UserRole};
use audit_ledger::blockchain_proof::{
    create_proof, create_proof_summary, generate_verification_token, verify_chain,
    verify_chain_link, verify_proof, verify_token, BlockchainProof,
};
use audit_ledger::error::LedgerError;
use audit_ledger::ledger::{log_activity, Ledger};
use audit_ledger::principal::Principal;
use audit_ledger::verification::{
    get_blockchain_proof, verify_activity_log, verify_blockchain_chain, verify_entry,
};

fn principal_of(n: u8) -> Principal {
    Principal::from_slice(&[n, n, n]).unwrap()
}

fn user(n: u8, role: UserRole) -> User {
    User {
        principal: principal_of(n),
        role,
        name: "user".to_string(),
        email: "user@example.org".to_string(),
        created_at: 1,
        language_preference: "en".to_string(),
        profile_completed: true,
    }
}

fn directory() -> UserDirectory {
    let mut users = UserDirectory::new();
    users.put_user(user(1, UserRole::Staff));
    users
}

fn ledger_of(n: u64) -> Ledger {
    let mut ledger = Ledger::new();
    for i in 0..n {
        log_activity(
            &mut ledger,
            principal_of(1),
            "UPDATE".to_string(),
            "client".to_string(),
            "7".to_string(),
            format!("step {}", i),
            None,
            1000 + i,
        );
    }
    ledger
}

fn tampered<F: FnOnce(&mut Vec<audit_ledger::entry::ActivityLogEntry>)>(ledger: Ledger, f: F) -> Ledger {
    let (mut entries, next_id) = ledger.into_parts();
    f(&mut entries);
    Ledger::from_entries(entries, next_id).unwrap()
}

#[test]
fn untouched_entries_verify() {
    let ledger = ledger_of(3);
    let users = directory();
    for id in 1..=3u64 {
        let verdict = verify_activity_log(&ledger, &users, &principal_of(1), id, 42).unwrap();
        assert!(verdict.is_valid);
        assert!(verdict.chain_integrity);
        assert_eq!(verdict.entry_id, id);
        assert_eq!(verdict.verification_timestamp, 42);
        assert_eq!(verdict.timestamp, 999 + id);
        assert_eq!(verdict.block_height, id - 1);
        assert_eq!(verdict.data_hash, ledger.get(id).unwrap().data_hash);
        assert_eq!(
            verdict.message,
            "Entry verified successfully - blockchain integrity confirmed"
        );
    }
}

#[test]
fn changed_details_are_detected_as_a_data_hash_mismatch() {
    let ledger = tampered(ledger_of(3), |entries| {
        entries[1].details = "something else".to_string();
    });
    let users = directory();
    let verdict = verify_activity_log(&ledger, &users, &principal_of(1), 2, 0).unwrap();
    assert!(!verdict.is_valid);
    assert!(!verdict.chain_integrity);
    assert_eq!(
        verdict.message,
        "Data hash mismatch - entry data may have been tampered with"
    );
    assert_ne!(verdict.data_hash, ledger.get(2).unwrap().data_hash);
    assert!(verify_activity_log(&ledger, &users, &principal_of(1), 1, 0).unwrap().is_valid);
    assert!(verify_activity_log(&ledger, &users, &principal_of(1), 3, 0).unwrap().is_valid);
}

#[test]
fn changed_action_resource_or_id_are_detected() {
    let users = directory();
    let by_action = tampered(ledger_of(2), |entries| {
        entries[0].action = "DELETE".to_string();
    });
    assert!(!verify_activity_log(&by_action, &users, &principal_of(1), 1, 0).unwrap().is_valid);
    let by_resource = tampered(ledger_of(2), |entries| {
        entries[0].resource_id = "8".to_string();
    });
    assert!(!verify_activity_log(&by_resource, &users, &principal_of(1), 1, 0).unwrap().is_valid);
    let by_actor = tampered(ledger_of(2), |entries| {
        entries[0].principal = principal_of(9);
    });
    assert!(!verify_activity_log(&by_actor, &users, &principal_of(1), 1, 0).unwrap().is_valid);
}

#[test]
fn a_changed_signature_is_detected_as_such_and_breaks_the_chain() {
    let ledger = tampered(ledger_of(3), |entries| {
        entries[1].signature = "forged".to_string();
    });
    let users = directory();
    let verdict = verify_activity_log(&ledger, &users, &principal_of(1), 2, 0).unwrap();
    assert!(!verdict.is_valid);
    assert_eq!(
        verdict.message,
        "Signature verification failed - entry may have been modified"
    );
    assert_eq!(verify_blockchain_chain(&ledger, &users, &principal_of(1)), Ok(false));
}

#[test]
fn a_changed_timestamp_fails_the_signature_check() {
    let ledger = tampered(ledger_of(2), |entries| {
        entries[0].timestamp = 5;
    });
    let users = directory();
    let verdict = verify_entry(ledger.get(1).unwrap(), 0);
    assert!(!verdict.is_valid);
    assert_eq!(
        verdict.message,
        "Signature verification failed - entry may have been modified"
    );
    assert!(verify_activity_log(&ledger, &users, &principal_of(1), 2, 0).unwrap().is_valid);
}

#[test]
fn an_appended_chain_verifies() {
    let users = directory();
    assert_eq!(verify_blockchain_chain(&ledger_of(0), &users, &principal_of(1)), Ok(true));
    assert_eq!(verify_blockchain_chain(&ledger_of(1), &users, &principal_of(1)), Ok(true));
    assert_eq!(verify_blockchain_chain(&ledger_of(12), &users, &principal_of(1)), Ok(true));
}

#[test]
fn a_gap_in_the_heights_breaks_the_chain() {
    let users = directory();
    let ledger = tampered(ledger_of(4), |entries| {
        entries[3].block_height = 7;
    });
    assert_eq!(verify_blockchain_chain(&ledger, &users, &principal_of(1)), Ok(false));
    let ledger = tampered(ledger_of(4), |entries| {
        entries[2].previous_hash = "nothing".to_string();
    });
    assert_eq!(verify_blockchain_chain(&ledger, &users, &principal_of(1)), Ok(false));
}

#[test]
fn verification_is_for_known_users_and_existing_entries() {
    let ledger = ledger_of(2);
    let users = directory();
    assert_eq!(
        verify_activity_log(&ledger, &users, &principal_of(5), 1, 0).err(),
        Some(LedgerError::UserNotFound)
    );
    assert_eq!(
        verify_activity_log(&ledger, &users, &principal_of(1), 3, 0).err(),
        Some(LedgerError::EntryNotFound)
    );
    assert_eq!(
        verify_blockchain_chain(&ledger, &users, &principal_of(5)),
        Err(LedgerError::UserNotFound)
    );
}

#[test]
fn the_proof_of_an_entry_repeats_its_chain_fields() {
    let ledger = ledger_of(2);
    let proof = get_blockchain_proof(&ledger, 2).unwrap();
    let entry = ledger.get(2).unwrap();
    assert_eq!(proof.entry_id, 2);
    assert_eq!(proof.data_hash, entry.data_hash);
    assert_eq!(proof.timestamp, 1001);
    assert_eq!(proof.block_height, 1);
    assert_eq!(proof.signature, entry.signature);
    assert_eq!(proof.previous_hash, entry.previous_hash);
    assert_eq!(get_blockchain_proof(&ledger, 9).err(), Some(LedgerError::EntryNotFound));
}

fn link(height: u64, previous: &str, signature: &str, timestamp: u64) -> BlockchainProof {
    BlockchainProof {
        entry_id: height + 1,
        data_hash: "d".to_string(),
        timestamp,
        block_height: height,
        signature: signature.to_string(),
        previous_hash: previous.to_string(),
    }
}

#[test]
fn a_link_needs_the_signature_and_the_next_height() {
    let first = link(0, "0000000000000000", "s0", 1);
    assert!(verify_chain_link(&link(1, "s0", "s1", 2), &first));
    assert!(!verify_chain_link(&link(2, "s0", "s1", 2), &first));
    assert!(!verify_chain_link(&link(1, "sX", "s1", 2), &first));
    assert!(!verify_chain_link(&first, &first));
    let top = link(u64::MAX, "a", "b", 1);
    assert!(!verify_chain_link(&link(0, "b", "c", 2), &top));
}

#[test]
fn proofs_are_checked_in_the_order_of_their_heights() {
    let a = link(0, "0000000000000000", "s0", 30);
    let b = link(1, "s0", "s1", 10);
    let c = link(2, "s1", "s2", 20);
    assert!(verify_chain(&vec![a.clone(), b.clone(), c.clone()]));
    assert!(verify_chain(&vec![c.clone(), a.clone(), b.clone()]));
    assert!(verify_chain(&Vec::new()));
    assert!(!verify_chain(&vec![a.clone(), c.clone()]));
    assert!(!verify_chain(&vec![a.clone(), b.clone(), b.clone()]));
}

#[test]
fn the_summary_counts_spans_and_checks() {
    let a = link(0, "0000000000000000", "s0", 30);
    let b = link(1, "s0", "s1", 10);
    let c = link(2, "s1", "s2", 20);
    let summary = create_proof_summary(&vec![a, b, c], "abcde-canister");
    assert_eq!(summary.total_entries, 3);
    assert_eq!(summary.earliest_timestamp, 10);
    assert_eq!(summary.latest_timestamp, 30);
    assert!(summary.chain_valid);
    assert_eq!(summary.verification_url, "https://abcde-canister.ic0.app/verify");
    let empty = create_proof_summary(&Vec::new(), "x");
    assert_eq!(empty.total_entries, 0);
    assert_eq!(empty.earliest_timestamp, 0);
    assert_eq!(empty.latest_timestamp, 0);
    assert!(empty.chain_valid);
    assert_eq!(empty.verification_url, "https://x.ic0.app/verify");
}

#[test]
fn a_created_proof_has_the_expected_hashes_and_verifies() {
    let proof = create_proof(5, "payload", "0000000000000000".to_string(), 0, 77);
    assert_eq!(proof.entry_id, 5);
    assert_eq!(proof.timestamp, 77);
    assert_eq!(proof.block_height, 0);
    assert_eq!(
        proof.data_hash,
        "239f59ed55e737c77147cf55ad0c1b030b6d7ee748a7426952f9b852d5a935e5"
    );
    assert_eq!(
        proof.signature,
        "4fa3cdccdb4b59377290684e071003e0950a72c7a9eb9de75cece86e1fc65679"
    );
    let verdict = verify_proof(&proof, "payload", 99);
    assert!(verdict.is_valid);
    assert_eq!(verdict.message, "Proof verified successfully");
    assert_eq!(verdict.verification_timestamp, 99);
    assert_eq!(verdict.entry_id, 5);
}

#[test]
fn a_proof_held_against_other_data_fails_on_the_data_hash() {
    let proof = create_proof(5, "payload", "0000000000000000".to_string(), 0, 77);
    let verdict = verify_proof(&proof, "other payload", 99);
    assert!(!verdict.is_valid);
    assert_eq!(verdict.message, "Data hash mismatch - data may have been tampered with");
    let mut forged = proof.clone();
    forged.timestamp = 78;
    let verdict = verify_proof(&forged, "payload", 99);
    assert!(!verdict.is_valid);
    assert_eq!(verdict.message, "Signature verification failed");
}

#[test]
fn a_token_verifies_for_its_entry_and_proof_only() {
    let proof = create_proof(5, "payload", "0000000000000000".to_string(), 0, 77);
    let token = generate_verification_token(5, &proof);
    assert_eq!(token, "35446ed1f592bed1c953df02963cf3a32d693c0b3636d81b0e89f5564bfaa04f");
    assert!(verify_token(&token, 5, &proof));
    assert!(!verify_token(&token, 6, &proof));
    assert!(!verify_token("something", 5, &proof));
}
