use audit_ledger::auth::{User, UserDirectory, UserRole};
use audit_ledger::counters::{next_client_id, next_org_id, IdCounters};
use audit_ledger::error::LedgerError;
use audit_ledger::ledger::{log_activity, Ledger};
use audit_ledger::organizations::{add_entity_to_organization, remove_entity_from_organization};
use audit_ledger::principal::Principal;
use audit_ledger::records::{
    AccountType, Client, DoubleBits, EngagementMilestone, MilestoneStatus, Organization,
    TrialBalanceAccount,
};
use audit_ledger::revert::{plan_revert, revert_activity_entry};
use audit_ledger::snapshot::{snapshot_kind, Snapshot, SnapshotKind};
use audit_ledger::store::{apply_snapshot, restore_batch, ResourceStore};
use audit_ledger::table::Table;
use audit_ledger::verification::verify_blockchain_chain;

fn principal_of(n: u8) -> Principal {
    Principal::from_slice(&[n]).unwrap()
}

fn user(n: u8, role: UserRole) -> User {
    User {
        principal: principal_of(n),
        role,
        name: String::new(),
        email: String::new(),
        created_at: 1,
        language_preference: "en".to_string(),
        profile_completed: true,
    }
}

fn directory() -> UserDirectory {
    let mut users = UserDirectory::new();
    users.put_user(user(1, UserRole::Partner));
    users.put_user(user(2, UserRole::Manager));
    users.put_user(user(3, UserRole::Admin));
    users
}

fn client(id: u64, name: &str) -> Client {
    Client {
        id,
        name: name.to_string(),
        name_ar: None,
        contact_email: "c@example.org".to_string(),
        contact_phone: "1".to_string(),
        address: "somewhere".to_string(),
        tax_registration_number: None,
        commercial_registration: None,
        industry_code: None,
        organization_id: None,
        entity_id: None,
        created_at: 1,
        created_by: principal_of(1),
    }
}

fn milestone(id: u64, engagement_id: u64, name: &str) -> EngagementMilestone {
    EngagementMilestone {
        id,
        engagement_id,
        name: name.to_string(),
        description: String::new(),
        due_date: 10,
        status: MilestoneStatus::NotStarted,
        assigned_to: None,
        estimated_hours: DoubleBits { bits: 0 },
        actual_hours: DoubleBits { bits: 0 },
        completed_date: None,
        completed_by: None,
        dependencies: Vec::new(),
        created_at: 1,
        created_by: principal_of(1),
    }
}

fn account(id: u64, trial_balance_id: u64, number: &str) -> TrialBalanceAccount {
    TrialBalanceAccount {
        id,
        trial_balance_id,
        account_number: number.to_string(),
        account_name: String::new(),
        account_type: AccountType::Asset,
        debit_balance: 0,
        credit_balance: 0,
        fs_line_item: None,
        notes: String::new(),
        is_reconciled: false,
        created_at: 1,
        created_by: principal_of(1),
    }
}

fn sorted_keys<T>(table: &Table<T>) -> Vec<u64> {
    let mut keys: Vec<u64> = (0..table.len()).map(|i| table.key_at(i)).collect();
    keys.sort();
    keys
}

fn record(
    ledger: &mut Ledger,
    action: &str,
    resource_type: &str,
    resource_id: &str,
    snapshot: Option<Vec<u8>>,
) -> u64 {
    log_activity(
        ledger,
        principal_of(1),
        action.to_string(),
        resource_type.to_string(),
        resource_id.to_string(),
        "did it".to_string(),
        snapshot,
        1000,
    )
    .id
}

#[test]
fn a_revert_puts_the_recorded_state_back_and_extends_the_chain() {
    let users = directory();
    let mut ledger = Ledger::new();
    let mut store = ResourceStore::new();
    store.clients.insert(7, client(7, "before"));
    let a = record(&mut ledger, "update_client", "client", "7", Some(vec![10, 20, 30]));
    store.clients.insert(7, client(7, "changed later"));
    record(&mut ledger, "update_client", "client", "7", None);
    let tail_signature = ledger.get_previous_entry().unwrap().signature.clone();

    let plan = plan_revert(&ledger, &users, &principal_of(1), a).unwrap();
    assert_eq!(plan.kind, SnapshotKind::Client);
    assert_eq!(plan.snapshot, vec![10, 20, 30]);
    assert_eq!(plan.entry_id, a);

    let entry = revert_activity_entry(
        &mut ledger,
        &mut store,
        &users,
        &principal_of(1),
        a,
        Some(Snapshot::Client(client(7, "before"))),
        Some(vec![10, 20, 30]),
        5000,
    )
    .unwrap();
    assert_eq!(store.clients.get(7).unwrap().name, "before");
    assert_eq!(store.clients.len(), 1);
    assert_eq!(entry.action, "revert_update_client");
    assert!(entry.action.starts_with("revert_"));
    assert_eq!(entry.resource_type, "client");
    assert_eq!(entry.resource_id, "7");
    assert_eq!(entry.details, "Reverted client 7 to activity entry 1");
    assert_eq!(entry.snapshot, Some(vec![10, 20, 30]));
    assert_eq!(entry.previous_hash, tail_signature);
    assert_eq!(entry.block_height, 2);
    assert_eq!(entry.timestamp, 5000);
    assert_eq!(entry.id, 3);
    assert_eq!(ledger.len(), 3);
    assert_eq!(ledger.get(a).unwrap().action, "update_client");
    assert_eq!(verify_blockchain_chain(&ledger, &users, &principal_of(1)), Ok(true));
}

#[test]
fn a_revert_can_be_reverted() {
    let users = directory();
    let mut ledger = Ledger::new();
    let mut store = ResourceStore::new();
    let a = record(&mut ledger, "update_client", "client", "7", Some(vec![1]));
    let first = revert_activity_entry(
        &mut ledger,
        &mut store,
        &users,
        &principal_of(3),
        a,
        Some(Snapshot::Client(client(7, "one"))),
        Some(vec![2]),
        10,
    )
    .unwrap();
    let second = revert_activity_entry(
        &mut ledger,
        &mut store,
        &users,
        &principal_of(3),
        first.id,
        Some(Snapshot::Client(client(7, "two"))),
        Some(vec![3]),
        20,
    )
    .unwrap();
    assert_eq!(second.action, "revert_revert_update_client");
    assert_eq!(store.clients.get(7).unwrap().name, "two");
}

#[test]
fn an_unregistered_resource_type_is_refused_and_nothing_changes() {
    let users = directory();
    let mut ledger = Ledger::new();
    let mut store = ResourceStore::new();
    store.clients.insert(7, client(7, "as it is"));
    let a = record(&mut ledger, "update", "invoice", "7", Some(vec![1]));
    assert_eq!(
        plan_revert(&ledger, &users, &principal_of(1), a).err(),
        Some(LedgerError::UnsupportedRevert)
    );
    let outcome = revert_activity_entry(
        &mut ledger,
        &mut store,
        &users,
        &principal_of(1),
        a,
        Some(Snapshot::Client(client(7, "other"))),
        None,
        10,
    );
    assert_eq!(outcome.err(), Some(LedgerError::UnsupportedRevert));
    assert_eq!(ledger.len(), 1);
    assert_eq!(ledger.peek_next_id(), 2);
    assert_eq!(store.clients.get(7).unwrap().name, "as it is");
    assert_eq!(store.clients.len(), 1);
}

#[test]
fn each_refusal_has_its_input() {
    let users = directory();
    let mut ledger = Ledger::new();
    let mut store = ResourceStore::new();
    let with_state = record(&mut ledger, "update_client", "client", "7", Some(vec![1]));
    let without_state = record(&mut ledger, "update_client", "client", "7", None);
    let mut attempt = |caller: u8, id: u64, decoded: Option<Snapshot>| {
        revert_activity_entry(
            &mut ledger,
            &mut store,
            &users,
            &principal_of(caller),
            id,
            decoded,
            None,
            10,
        )
        .err()
    };
    let decoded = || Some(Snapshot::Client(client(7, "x")));
    assert_eq!(attempt(9, with_state, decoded()), Some(LedgerError::UserNotFound));
    assert_eq!(attempt(2, with_state, decoded()), Some(LedgerError::RevertDenied));
    assert_eq!(attempt(1, 77, decoded()), Some(LedgerError::EntryNotFound));
    assert_eq!(attempt(1, without_state, decoded()), Some(LedgerError::NoSnapshot));
    assert_eq!(
        attempt(1, with_state, None),
        Some(LedgerError::CorruptSnapshot(SnapshotKind::Client))
    );
    assert_eq!(
        attempt(1, with_state, Some(Snapshot::EngagementMilestones(Vec::new()))),
        Some(LedgerError::CorruptSnapshot(SnapshotKind::Client))
    );
    assert_eq!(ledger.len(), 2);
    assert!(store.clients.is_empty());
}

#[test]
fn refusals_are_reported_in_words() {
    assert_eq!(LedgerError::UserNotFound.message(), "User not found");
    assert_eq!(LedgerError::EntryNotFound.message(), "Activity log entry not found");
    assert_eq!(
        LedgerError::ViewDenied.message(),
        "Insufficient permissions to view activity log"
    );
    assert_eq!(
        LedgerError::RevertDenied.message(),
        "Insufficient permissions to revert activity"
    );
    assert_eq!(LedgerError::NoSnapshot.message(), "No snapshot available for this activity");
    assert_eq!(
        LedgerError::UnsupportedRevert.message(),
        "Revert not supported for this activity type"
    );
    assert_eq!(
        LedgerError::CorruptSnapshot(SnapshotKind::Client).message(),
        "Failed to decode client snapshot"
    );
    assert_eq!(
        LedgerError::CorruptSnapshot(SnapshotKind::AdjustingEntry).message(),
        "Failed to decode AJE snapshot"
    );
    assert_eq!(
        LedgerError::CorruptSnapshot(SnapshotKind::EngagementMilestones).message(),
        "Failed to decode milestone snapshot"
    );
    assert_eq!(LedgerError::OrganizationNotFound.message(), "Organization not found");
}

#[test]
fn resource_type_and_action_decide_the_kind() {
    let cases = [
        ("client", "anything", SnapshotKind::Client),
        ("organization", "update", SnapshotKind::Organization),
        ("entity", "", SnapshotKind::Entity),
        ("engagement", "create_engagement_from_template", SnapshotKind::EngagementMilestones),
        ("engagement", "apply_template_to_engagement", SnapshotKind::EngagementChecklist),
        ("engagement", "update_engagement", SnapshotKind::Engagement),
        ("trial_balance", "import_trial_balance_csv", SnapshotKind::TrialBalanceAccounts),
        ("trial_balance", "create", SnapshotKind::TrialBalance),
        ("trial_balance_account", "import_trial_balance_csv", SnapshotKind::TrialBalanceAccount),
        ("engagement_template", "x", SnapshotKind::EngagementTemplate),
        ("engagement_milestone", "x", SnapshotKind::EngagementMilestone),
        ("engagement_budget", "x", SnapshotKind::EngagementBudget),
        ("time_entry", "x", SnapshotKind::TimeEntry),
        ("client_acceptance", "x", SnapshotKind::ClientAcceptance),
        ("engagement_letter", "x", SnapshotKind::EngagementLetter),
        ("conflict_check", "x", SnapshotKind::ConflictCheck),
        ("aje", "x", SnapshotKind::AdjustingEntry),
        ("document_request", "x", SnapshotKind::DocumentRequest),
        ("document", "x", SnapshotKind::Document),
        ("working_paper", "x", SnapshotKind::WorkingPaper),
        ("template", "x", SnapshotKind::AuditTemplate),
        ("dataset", "x", SnapshotKind::Dataset),
    ];
    for (resource_type, action, kind) in cases {
        assert_eq!(snapshot_kind(resource_type, action), Some(kind));
    }
    assert_eq!(snapshot_kind("user", "create"), None);
    assert_eq!(snapshot_kind("Client", "create"), None);
    assert_eq!(snapshot_kind("", "create_engagement_from_template"), None);
    assert_eq!(Snapshot::Client(client(1, "a")).kind(), SnapshotKind::Client);
    assert_eq!(Snapshot::TrialBalanceAccounts(Vec::new()).kind(), SnapshotKind::TrialBalanceAccounts);
}

#[test]
fn a_batch_replaces_all_records_of_its_parent() {
    let mut store = ResourceStore::new();
    store.engagement_milestones.insert(1, milestone(1, 50, "old one"));
    store.engagement_milestones.insert(2, milestone(2, 50, "old two"));
    store.engagement_milestones.insert(3, milestone(3, 60, "other engagement"));
    apply_snapshot(
        &mut store,
        Snapshot::EngagementMilestones(vec![milestone(2, 50, "new two"), milestone(4, 50, "new four")]),
    );
    assert_eq!(sorted_keys(&store.engagement_milestones), vec![2, 3, 4]);
    assert_eq!(store.engagement_milestones.get(2).unwrap().name, "new two");
    assert_eq!(store.engagement_milestones.get(3).unwrap().name, "other engagement");
    assert_eq!(store.engagement_milestones.get(4).unwrap().name, "new four");
}

#[test]
fn an_empty_batch_changes_nothing() {
    let mut store = ResourceStore::new();
    store.trial_balance_accounts.insert(1, account(1, 5, "100"));
    apply_snapshot(&mut store, Snapshot::TrialBalanceAccounts(Vec::new()));
    assert_eq!(store.trial_balance_accounts.len(), 1);
    restore_batch(&mut store.trial_balance_accounts, Vec::new());
    assert_eq!(store.trial_balance_accounts.len(), 1);
}

#[test]
fn the_later_of_two_members_with_one_id_stays() {
    let mut store = ResourceStore::new();
    store.trial_balance_accounts.insert(1, account(1, 5, "old"));
    store.trial_balance_accounts.insert(9, account(9, 6, "kept"));
    restore_batch(
        &mut store.trial_balance_accounts,
        vec![account(3, 5, "first"), account(3, 5, "second"), account(4, 7, "stray")],
    );
    assert_eq!(sorted_keys(&store.trial_balance_accounts), vec![3, 4, 9]);
    assert_eq!(store.trial_balance_accounts.get(3).unwrap().account_number, "second");
}

#[test]
fn a_single_record_replaces_only_itself() {
    let mut store = ResourceStore::new();
    store.trial_balance_accounts.insert(1, account(1, 5, "old"));
    store.trial_balance_accounts.insert(2, account(2, 5, "sibling"));
    apply_snapshot(&mut store, Snapshot::TrialBalanceAccount(account(1, 5, "new")));
    assert_eq!(store.trial_balance_accounts.get(1).unwrap().account_number, "new");
    assert_eq!(store.trial_balance_accounts.get(2).unwrap().account_number, "sibling");
    assert!(store.clients.is_empty());
}

#[test]
fn a_batch_revert_is_recorded_under_the_resource_of_the_reverted_entry() {
    let users = directory();
    let mut ledger = Ledger::new();
    let mut store = ResourceStore::new();
    store.engagement_milestones.insert(1, milestone(1, 50, "to go"));
    let a = record(
        &mut ledger,
        "create_engagement_from_template",
        "engagement",
        "50",
        Some(vec![9]),
    );
    let entry = revert_activity_entry(
        &mut ledger,
        &mut store,
        &users,
        &principal_of(1),
        a,
        Some(Snapshot::EngagementMilestones(vec![milestone(8, 50, "restored")])),
        Some(vec![9]),
        10,
    )
    .unwrap();
    assert_eq!(entry.resource_id, "50");
    assert_eq!(entry.action, "revert_create_engagement_from_template");
    assert!(store.engagement_milestones.get(1).is_none());
    assert_eq!(store.engagement_milestones.get(8).unwrap().name, "restored");
}

#[test]
fn a_table_finds_rows_by_their_keys() {
    let mut table: Table<&str> = Table::new();
    assert!(table.is_empty());
    table.insert(30, "thirty");
    table.insert(10, "ten");
    table.insert(20, "twenty");
    assert_eq!(table.len(), 3);
    assert_eq!(table.get(10), Some(&"ten"));
    assert_eq!(table.get(20), Some(&"twenty"));
    assert_eq!(table.get(40), None);
    assert_eq!(table.position_of(30), Some(0));
    assert_eq!(table.position_of(20), Some(2));
    table.insert(10, "TEN");
    assert_eq!(table.len(), 3);
    assert_eq!(table.get(10), Some(&"TEN"));
    assert_eq!(table.all_rows(), &vec!["thirty", "TEN", "twenty"]);
    assert_eq!(table.remove(30), Some("thirty"));
    assert_eq!(table.remove(30), None);
    assert!(!table.contains_key(30));
    assert!(table.contains_key(20));
    assert_eq!(table.get(20), Some(&"twenty"));
    assert_eq!(table.get(10), Some(&"TEN"));
    assert_eq!(sorted_keys(&table), vec![10, 20]);
    assert_eq!(*table.row_at(table.position_of(20).unwrap()), "twenty");
    assert_eq!(table.remove(20), Some("twenty"));
    assert_eq!(table.remove(10), Some("TEN"));
    assert!(table.is_empty());
    table.insert(5, "five");
    assert_eq!(table.get(5), Some(&"five"));
}

#[test]
fn a_table_is_built_from_rows_with_distinct_keys() {
    let table = Table::from_rows(vec![3, 1, 2], vec!["c", "a", "b"]).unwrap();
    assert_eq!(table.get(1), Some(&"a"));
    assert_eq!(table.get(3), Some(&"c"));
    assert_eq!(table.key_at(0), 3);
    assert_eq!(table.into_rows(), vec!["c", "a", "b"]);
    assert!(Table::from_rows(vec![3, 1, 3], vec!["c", "a", "b"]).is_none());
    assert!(Table::<u8>::from_rows(Vec::new(), Vec::new()).is_some());
}

#[test]
fn a_table_keeps_many_rows() {
    let mut table: Table<u64> = Table::new();
    for k in 0..2000u64 {
        table.insert(k * 7 % 2003, k);
    }
    assert_eq!(table.len(), 2000);
    for k in 0..2000u64 {
        assert_eq!(table.get(k * 7 % 2003), Some(&k));
    }
    for k in 0..1000u64 {
        assert_eq!(table.remove(k * 7 % 2003), Some(k));
    }
    assert_eq!(table.len(), 1000);
    for k in 1000..2000u64 {
        assert_eq!(table.get(k * 7 % 2003), Some(&k));
    }
    assert_eq!(table.get(0), None);
}

#[test]
fn counters_hand_out_ascending_ids() {
    let mut counters = IdCounters::new();
    assert_eq!(next_org_id(&mut counters), 1);
    assert_eq!(next_org_id(&mut counters), 2);
    assert_eq!(next_client_id(&mut counters), 1);
    assert_eq!(counters.org, 3);
    assert_eq!(counters.client, 2);
    assert_eq!(counters.entity, 1);
}

fn organization(id: u64, entity_ids: Vec<u64>) -> Organization {
    Organization {
        id,
        name: "firm".to_string(),
        description: "d".to_string(),
        created_at: 1,
        created_by: principal_of(1),
        entity_ids,
    }
}

#[test]
fn an_entity_is_listed_once() {
    let mut store = ResourceStore::new();
    store.organizations.insert(1, organization(1, vec![5]));
    assert_eq!(add_entity_to_organization(&mut store, 1, 6), Ok(()));
    assert_eq!(add_entity_to_organization(&mut store, 1, 6), Ok(()));
    assert_eq!(add_entity_to_organization(&mut store, 1, 5), Ok(()));
    assert_eq!(store.organizations.get(1).unwrap().entity_ids, vec![5, 6]);
    assert_eq!(store.organizations.get(1).unwrap().name, "firm");
    assert_eq!(
        add_entity_to_organization(&mut store, 2, 6),
        Err(LedgerError::OrganizationNotFound)
    );
}

#[test]
fn an_entity_is_taken_off_the_list() {
    let mut store = ResourceStore::new();
    store.organizations.insert(1, organization(1, vec![5, 6, 5, 7]));
    assert_eq!(remove_entity_from_organization(&mut store, 1, 5), Ok(()));
    assert_eq!(store.organizations.get(1).unwrap().entity_ids, vec![6, 7]);
    assert_eq!(remove_entity_from_organization(&mut store, 1, 9), Ok(()));
    assert_eq!(store.organizations.get(1).unwrap().entity_ids, vec![6, 7]);
    assert_eq!(
        remove_entity_from_organization(&mut store, 3, 5),
        Err(LedgerError::OrganizationNotFound)
    );
}
