use audit_ledger::auth::{
    can_create_engagement, can_create_entity, can_create_organization, can_create_working_paper,
    can_delete_organization, can_edit_engagement, can_edit_entity, can_edit_organization,
    can_import_data, can_manage_users, can_upload_document, can_view_activity_log, is_admin,
    is_client_user, is_manager_or_above, is_partner_or_above, is_senior_or_above,
    is_staff_or_above, User, UserDirectory, UserRole,
};
use audit_ledger::error::LedgerError;
use audit_ledger::ledger::{log_activity, Ledger};
use audit_ledger::order::sort_positions;
use audit_ledger::principal::Principal;
use audit_ledger::query::{
    collect_page, get_activity_logs, get_resource_activity_logs, get_user_activity_logs, LogFilter,
};

fn principal_of(n: u8) -> Principal {
    Principal::from_slice(&[n]).unwrap()
}

fn user(n: u8, role: UserRole) -> User {
    User {
        principal: principal_of(n),
        role,
        name: format!("user {}", n),
        email: String::new(),
        created_at: 1,
        language_preference: "en".to_string(),
        profile_completed: false,
    }
}

fn directory() -> UserDirectory {
    let mut users = UserDirectory::new();
    users.put_user(user(1, UserRole::Staff));
    users.put_user(user(2, UserRole::ClientUser));
    users
}

fn record(ledger: &mut Ledger, actor: u8, resource_type: &str, resource_id: &str, timestamp: u64) {
    log_activity(
        ledger,
        principal_of(actor),
        "UPDATE".to_string(),
        resource_type.to_string(),
        resource_id.to_string(),
        String::new(),
        None,
        timestamp,
    );
}

fn ledger_with_timestamps(timestamps: &[u64]) -> Ledger {
    let mut ledger = Ledger::new();
    for t in timestamps {
        record(&mut ledger, 1, "client", "7", *t);
    }
    ledger
}

fn timestamps_of(logs: &[audit_ledger::entry::ActivityLogEntry]) -> Vec<u64> {
    logs.iter().map(|e| e.timestamp).collect()
}

fn ids_of(logs: &[audit_ledger::entry::ActivityLogEntry]) -> Vec<u64> {
    logs.iter().map(|e| e.id).collect()
}

#[test]
fn the_two_newest_of_four_come_newest_first() {
    let ledger = ledger_with_timestamps(&[5, 1, 9, 3]);
    let logs = get_activity_logs(&ledger, &directory(), &principal_of(1), Some(2)).unwrap();
    assert_eq!(timestamps_of(&logs), vec![9, 5]);
}

#[test]
fn without_a_limit_all_come_newest_first() {
    let ledger = ledger_with_timestamps(&[5, 1, 9, 3]);
    let logs = get_activity_logs(&ledger, &directory(), &principal_of(1), None).unwrap();
    assert_eq!(timestamps_of(&logs), vec![9, 5, 3, 1]);
    let logs = get_activity_logs(&ledger, &directory(), &principal_of(1), Some(0)).unwrap();
    assert!(logs.is_empty());
    let logs = get_activity_logs(&ledger, &directory(), &principal_of(1), Some(60)).unwrap();
    assert_eq!(logs.len(), 4);
}

#[test]
fn the_default_limit_is_one_hundred() {
    let timestamps: Vec<u64> = (0..150).collect();
    let ledger = ledger_with_timestamps(&timestamps);
    let logs = get_activity_logs(&ledger, &directory(), &principal_of(1), None).unwrap();
    assert_eq!(logs.len(), 100);
    assert_eq!(logs[0].timestamp, 149);
    assert_eq!(logs[99].timestamp, 50);
}

#[test]
fn a_late_entry_with_a_new_timestamp_is_not_cut_off() {
    let ledger = ledger_with_timestamps(&[1, 2, 3, 4, 100]);
    let logs = get_activity_logs(&ledger, &directory(), &principal_of(1), Some(1)).unwrap();
    assert_eq!(ids_of(&logs), vec![5]);
}

#[test]
fn entries_of_one_timestamp_keep_their_order() {
    let ledger = ledger_with_timestamps(&[4, 7, 4, 7, 4]);
    let logs = get_activity_logs(&ledger, &directory(), &principal_of(1), None).unwrap();
    assert_eq!(ids_of(&logs), vec![2, 4, 1, 3, 5]);
}

#[test]
fn an_unknown_caller_is_refused() {
    let ledger = ledger_with_timestamps(&[1]);
    let users = directory();
    assert_eq!(
        get_activity_logs(&ledger, &users, &principal_of(9), None).err(),
        Some(LedgerError::UserNotFound)
    );
    assert_eq!(
        get_user_activity_logs(&ledger, &users, &principal_of(9), &principal_of(9), None).err(),
        Some(LedgerError::UserNotFound)
    );
    assert_eq!(
        get_resource_activity_logs(&ledger, &users, &principal_of(9), "client", "7", None).err(),
        Some(LedgerError::UserNotFound)
    );
}

#[test]
fn entries_of_one_actor_are_selected() {
    let mut ledger = Ledger::new();
    record(&mut ledger, 1, "client", "7", 10);
    record(&mut ledger, 2, "client", "7", 30);
    record(&mut ledger, 1, "entity", "3", 20);
    let users = directory();
    let logs =
        get_user_activity_logs(&ledger, &users, &principal_of(2), &principal_of(1), None).unwrap();
    assert_eq!(ids_of(&logs), vec![3, 1]);
    let logs =
        get_user_activity_logs(&ledger, &users, &principal_of(2), &principal_of(2), Some(5))
            .unwrap();
    assert_eq!(ids_of(&logs), vec![2]);
    let logs =
        get_user_activity_logs(&ledger, &users, &principal_of(1), &principal_of(8), None).unwrap();
    assert!(logs.is_empty());
}

#[test]
fn entries_of_one_resource_are_selected() {
    let mut ledger = Ledger::new();
    record(&mut ledger, 1, "client", "7", 10);
    record(&mut ledger, 2, "client", "8", 30);
    record(&mut ledger, 1, "entity", "7", 20);
    record(&mut ledger, 2, "client", "7", 40);
    let users = directory();
    let logs =
        get_resource_activity_logs(&ledger, &users, &principal_of(1), "client", "7", None).unwrap();
    assert_eq!(ids_of(&logs), vec![4, 1]);
    let logs =
        get_resource_activity_logs(&ledger, &users, &principal_of(1), "client", "7", Some(1))
            .unwrap();
    assert_eq!(ids_of(&logs), vec![4]);
    let logs =
        get_resource_activity_logs(&ledger, &users, &principal_of(1), "client", "9", None).unwrap();
    assert!(logs.is_empty());
}

#[test]
fn a_page_is_collected_without_a_permission_check() {
    let ledger = ledger_with_timestamps(&[3, 1, 2]);
    let logs = collect_page(&ledger, &LogFilter::All, Some(2));
    assert_eq!(timestamps_of(&logs), vec![3, 2]);
    let logs = collect_page(&ledger, &LogFilter::ByResource("client", "7"), None);
    assert_eq!(timestamps_of(&logs), vec![3, 2, 1]);
}

#[test]
fn positions_are_sorted_stably() {
    assert_eq!(sort_positions(&vec![5, 1, 9, 3], true), vec![2, 0, 3, 1]);
    assert_eq!(sort_positions(&vec![5, 1, 9, 3], false), vec![1, 3, 0, 2]);
    assert_eq!(sort_positions(&vec![2, 2, 1, 2], false), vec![2, 0, 1, 3]);
    assert_eq!(sort_positions(&vec![2, 2, 1, 2], true), vec![0, 1, 3, 2]);
    assert_eq!(sort_positions(&Vec::new(), true), Vec::<usize>::new());
}

#[test]
fn the_directory_holds_one_user_per_principal() {
    let mut users = directory();
    assert_eq!(users.len(), 2);
    assert_eq!(users.get_user(&principal_of(1)).unwrap().role, UserRole::Staff);
    users.put_user(user(1, UserRole::Partner));
    assert_eq!(users.len(), 2);
    assert_eq!(users.get_user(&principal_of(1)).unwrap().role, UserRole::Partner);
    assert_eq!(users.get_user(&principal_of(2)).unwrap().role, UserRole::ClientUser);
    assert!(users.get_user(&principal_of(3)).is_none());
}

#[test]
fn roles_grant_what_their_rank_allows() {
    let admin = user(1, UserRole::Admin);
    let partner = user(1, UserRole::Partner);
    let manager = user(1, UserRole::Manager);
    let senior = user(1, UserRole::Senior);
    let staff = user(1, UserRole::Staff);
    let client = user(1, UserRole::ClientUser);
    assert!(is_admin(&admin) && !is_admin(&partner));
    assert!(is_partner_or_above(&partner) && !is_partner_or_above(&manager));
    assert!(is_manager_or_above(&manager) && !is_manager_or_above(&senior));
    assert!(is_senior_or_above(&senior) && !is_senior_or_above(&staff));
    assert!(is_staff_or_above(&staff) && !is_staff_or_above(&client));
    assert!(is_client_user(&client) && !is_client_user(&staff));
    assert!(can_create_organization(&manager) && !can_create_organization(&senior));
    assert!(can_edit_organization(&admin) && !can_edit_organization(&staff));
    assert!(can_delete_organization(&partner) && !can_delete_organization(&manager));
    assert!(can_create_entity(&manager) && !can_create_entity(&client));
    assert!(can_edit_entity(&partner) && !can_edit_entity(&senior));
    assert!(can_create_engagement(&senior) && !can_create_engagement(&staff));
    assert!(can_edit_engagement(&manager) && !can_edit_engagement(&client));
    assert!(can_import_data(&staff) && !can_import_data(&client));
    assert!(can_create_working_paper(&staff) && !can_create_working_paper(&client));
    assert!(can_upload_document(&staff) && can_upload_document(&client));
    assert!(can_manage_users(&admin) && !can_manage_users(&partner));
    assert!(can_view_activity_log(&client) && can_view_activity_log(&admin));
}
