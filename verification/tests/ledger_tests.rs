use audit_ledger::entry::ActivityLogEntry;
use audit_ledger::ledger::{genesis_sentinel, log_activity, next_activity_log_id, Ledger};
use audit_ledger::principal::Principal;

fn actor() -> Principal {
    Principal::from_slice(&[1, 2, 3]).unwrap()
}

fn append(ledger: &mut Ledger, action: &str, details: &str, timestamp: u64) -> ActivityLogEntry {
    assert!(ledger.can_append());
    log_activity(
        ledger,
        actor(),
        action.to_string(),
        "client".to_string(),
        "7".to_string(),
        details.to_string(),
        None,
        timestamp,
    )
}

#[test]
fn first_append_is_the_genesis_entry() {
    let mut ledger = Ledger::new();
    assert!(ledger.is_empty());
    let entry = append(&mut ledger, "CREATE", "created client 7", 1000);
    assert_eq!(entry.id, 1);
    assert_eq!(entry.block_height, 0);
    assert_eq!(entry.previous_hash, "0000000000000000");
    assert_eq!(entry.previous_hash, genesis_sentinel());
    assert_eq!(
        entry.data_hash,
        "81e1f3d50b7dd0b77693a23c1043bef847203479cb29c8a00cdad2319aae3c8b"
    );
    assert_eq!(
        entry.signature,
        "95e090f7282b95c7f7d20d573e142b4c3d023038e353ff29733ef621914d9302"
    );
    assert_eq!(ledger.len(), 1);
    assert_eq!(ledger.peek_next_id(), 2);
}

#[test]
fn second_append_links_to_the_first() {
    let mut ledger = Ledger::new();
    let first = append(&mut ledger, "CREATE", "created client 7", 1000);
    let second = append(&mut ledger, "UPDATE", "renamed", 2000);
    assert_eq!(second.id, 2);
    assert_eq!(second.block_height, 1);
    assert_eq!(second.previous_hash, first.signature);
    assert_eq!(
        second.data_hash,
        "1be5085e18735e076fe9e5fe9ccc2e427bc6de01c94efe1280f4747e6e786786"
    );
    assert_eq!(
        second.signature,
        "6ec2b9d92c962e59522a061bfc89f626ef22a7e2043209dee0cfef11c7ac1f9f"
    );
}

#[test]
fn every_append_links_to_the_one_before() {
    let mut ledger = Ledger::new();
    for i in 0..20u64 {
        append(&mut ledger, "UPDATE", "step", 100 + i);
    }
    let entries = ledger.entries();
    assert_eq!(entries.len(), 20);
    for i in 1..entries.len() {
        assert_eq!(entries[i].previous_hash, entries[i - 1].signature);
        assert_eq!(entries[i].block_height, entries[i - 1].block_height + 1);
        assert_eq!(entries[i].id, entries[i - 1].id + 1);
    }
}

#[test]
fn append_keeps_the_snapshot() {
    let mut ledger = Ledger::new();
    let entry = log_activity(
        &mut ledger,
        actor(),
        "CREATE".to_string(),
        "client".to_string(),
        "7".to_string(),
        "with state".to_string(),
        Some(vec![1, 2, 3]),
        5,
    );
    assert_eq!(entry.snapshot, Some(vec![1, 2, 3]));
    assert_eq!(ledger.get(entry.id).unwrap().snapshot, Some(vec![1, 2, 3]));
    assert_eq!(ledger.get(entry.id).unwrap().timestamp, 5);
    assert!(ledger.get(99).is_none());
}

#[test]
fn ids_are_never_handed_out_twice() {
    let mut ledger = Ledger::new();
    assert_eq!(next_activity_log_id(&mut ledger), 1);
    assert_eq!(next_activity_log_id(&mut ledger), 2);
    let entry = append(&mut ledger, "CREATE", "x", 1);
    assert_eq!(entry.id, 3);
    assert_eq!(ledger.peek_next_id(), 4);
}

#[test]
fn tail_is_the_last_entry_of_greatest_height() {
    let mut ledger = Ledger::new();
    assert!(ledger.get_previous_entry().is_none());
    append(&mut ledger, "A", "a", 1);
    append(&mut ledger, "B", "b", 2);
    append(&mut ledger, "C", "c", 3);
    assert_eq!(ledger.get_previous_entry().unwrap().id, 3);
    let (mut entries, next_id) = ledger.into_parts();
    entries[0].block_height = 9;
    entries[1].block_height = 9;
    let ledger = Ledger::from_entries(entries, next_id).unwrap();
    assert_eq!(ledger.get_previous_entry().unwrap().id, 2);
}

#[test]
fn a_ledger_is_rebuilt_only_from_entries_in_id_order() {
    let mut ledger = Ledger::new();
    append(&mut ledger, "A", "a", 1);
    append(&mut ledger, "B", "b", 2);
    let (entries, next_id) = ledger.into_parts();
    assert_eq!(next_id, 3);
    assert!(Ledger::from_entries(entries.clone(), 3).is_some());
    assert!(Ledger::from_entries(entries.clone(), 2).is_none());
    let mut swapped = entries.clone();
    swapped.swap(0, 1);
    assert!(Ledger::from_entries(swapped, 3).is_none());
    let mut twice = entries.clone();
    twice[1].id = 1;
    assert!(Ledger::from_entries(twice, 3).is_none());
    assert!(Ledger::from_entries(Vec::new(), 0).is_some());
}

#[test]
fn a_full_counter_leaves_no_room() {
    let ledger = Ledger::from_entries(Vec::new(), u64::MAX).unwrap();
    assert!(!ledger.can_append());
    let mut ledger = Ledger::new();
    append(&mut ledger, "A", "a", 1);
    let (mut entries, next_id) = ledger.into_parts();
    entries[0].block_height = u64::MAX;
    let ledger = Ledger::from_entries(entries, next_id).unwrap();
    assert!(!ledger.can_append());
}
