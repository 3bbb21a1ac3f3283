use audit_ledger::acceptance::{calculate_overall_risk, determine_acceptance_decision};
use audit_ledger::auth::{get_or_create_user, upsert_user, User, UserDirectory, UserRole};
use audit_ledger::documents::{chunk_data, CHUNK_SIZE};
use audit_ledger::principal::Principal;
use audit_ledger::records::{
    AcceptanceDecision, ClientAcceptanceQuestionnaire, ColumnMetadata, ColumnType, DoubleBits,
    PIIDetection, RiskLevel, SheetData,
};
use audit_ledger::working_papers::{
    find_column_index, find_column_index_opt, get_value_or_default, ColumnError,
};

fn questionnaire(risks: [RiskLevel; 5]) -> ClientAcceptanceQuestionnaire {
    ClientAcceptanceQuestionnaire {
        management_integrity_risk: risks[0],
        financial_stability_risk: risks[1],
        industry_risk: risks[2],
        regulatory_complexity_risk: risks[3],
        fee_collection_risk: risks[4],
        independence_threats: false,
        conflicts_of_interest: false,
        resources_available: true,
        technical_expertise_available: true,
        notes: String::new(),
    }
}

fn user(role: UserRole) -> User {
    User {
        principal: Principal::anonymous(),
        role,
        name: String::new(),
        email: String::new(),
        created_at: 0,
        language_preference: "en".to_string(),
        profile_completed: true,
    }
}

use RiskLevel::{High, Low, Medium, Unacceptable};

#[test]
fn one_unacceptable_risk_makes_the_client_unacceptable() {
    assert_eq!(calculate_overall_risk(&questionnaire([Low, Low, Unacceptable, Low, Low])), Unacceptable);
    assert_eq!(calculate_overall_risk(&questionnaire([High, High, High, High, Unacceptable])), Unacceptable);
}

#[test]
fn three_high_risks_make_the_client_high() {
    assert_eq!(calculate_overall_risk(&questionnaire([High, High, High, Low, Low])), High);
    assert_eq!(calculate_overall_risk(&questionnaire([High, Medium, High, Medium, High])), High);
}

#[test]
fn one_high_or_three_medium_risks_make_the_client_medium() {
    assert_eq!(calculate_overall_risk(&questionnaire([High, Low, Low, Low, Low])), Medium);
    assert_eq!(calculate_overall_risk(&questionnaire([High, High, Low, Low, Low])), Medium);
    assert_eq!(calculate_overall_risk(&questionnaire([Medium, Medium, Medium, Low, Low])), Medium);
}

#[test]
fn fewer_risks_leave_the_client_low() {
    assert_eq!(calculate_overall_risk(&questionnaire([Low, Low, Low, Low, Low])), Low);
    assert_eq!(calculate_overall_risk(&questionnaire([Medium, Medium, Low, Low, Low])), Low);
}

#[test]
fn conflicts_and_threats_reject() {
    let mut q = questionnaire([Low; 5]);
    q.conflicts_of_interest = true;
    assert_eq!(determine_acceptance_decision(&q, &Low, &user(UserRole::Partner)), AcceptanceDecision::Rejected);
    let mut q = questionnaire([Low; 5]);
    q.independence_threats = true;
    assert_eq!(determine_acceptance_decision(&q, &Medium, &user(UserRole::Partner)), AcceptanceDecision::Rejected);
    assert_eq!(determine_acceptance_decision(&q, &Low, &user(UserRole::Staff)), AcceptanceDecision::Accepted);
}

#[test]
fn missing_resources_go_to_a_partner() {
    let mut q = questionnaire([Low; 5]);
    q.resources_available = false;
    assert_eq!(
        determine_acceptance_decision(&q, &Low, &user(UserRole::Admin)),
        AcceptanceDecision::RequiresPartnerReview
    );
    let mut q = questionnaire([Low; 5]);
    q.technical_expertise_available = false;
    assert_eq!(
        determine_acceptance_decision(&q, &Unacceptable, &user(UserRole::Staff)),
        AcceptanceDecision::RequiresPartnerReview
    );
}

#[test]
fn the_risk_decides_the_rest() {
    let q = questionnaire([Low; 5]);
    assert_eq!(determine_acceptance_decision(&q, &Unacceptable, &user(UserRole::Partner)), AcceptanceDecision::Rejected);
    assert_eq!(determine_acceptance_decision(&q, &High, &user(UserRole::Partner)), AcceptanceDecision::Accepted);
    assert_eq!(determine_acceptance_decision(&q, &High, &user(UserRole::Admin)), AcceptanceDecision::Accepted);
    assert_eq!(
        determine_acceptance_decision(&q, &High, &user(UserRole::Manager)),
        AcceptanceDecision::RequiresPartnerReview
    );
    assert_eq!(determine_acceptance_decision(&q, &Medium, &user(UserRole::Staff)), AcceptanceDecision::Accepted);
    assert_eq!(determine_acceptance_decision(&q, &Low, &user(UserRole::ClientUser)), AcceptanceDecision::Accepted);
}

#[test]
fn data_is_cut_into_chunks_of_a_million_bytes() {
    assert_eq!(CHUNK_SIZE, 1_000_000);
    assert!(chunk_data(&[]).is_empty());
    assert_eq!(chunk_data(&[1, 2, 3]), vec![vec![1, 2, 3]]);
    let exact = vec![7u8; 1_000_000];
    assert_eq!(chunk_data(&exact), vec![exact.clone()]);
    let mut longer = vec![7u8; 2_000_001];
    longer[1_000_000] = 8;
    longer[2_000_000] = 9;
    let chunks = chunk_data(&longer);
    assert_eq!(chunks.len(), 3);
    assert_eq!(chunks[0].len(), 1_000_000);
    assert_eq!(chunks[1].len(), 1_000_000);
    assert_eq!(chunks[1][0], 8);
    assert_eq!(chunks[2], vec![9]);
    assert_eq!(chunks.concat(), longer);
}

fn column(name: &str) -> ColumnMetadata {
    ColumnMetadata {
        name: name.to_string(),
        original_name: name.to_string(),
        detected_type: ColumnType::Text,
        null_percent: DoubleBits { bits: 0 },
        unique_count: 0,
        min_value: String::new(),
        max_value: String::new(),
        sample_values: Vec::new(),
        pii_detection: PIIDetection {
            has_names: false,
            has_emails: false,
            has_phone_numbers: false,
            has_national_ids: false,
        },
    }
}

fn sheet() -> SheetData {
    SheetData {
        name: "sheet".to_string(),
        columns: vec![column("number"), column("name"), column("debit"), column("name")],
        row_count: 0,
        data: Vec::new(),
    }
}

#[test]
fn a_required_column_is_found_or_reported() {
    assert!(matches!(find_column_index(&sheet(), &Some("debit".to_string())), Ok(2)));
    assert!(matches!(find_column_index(&sheet(), &Some("name".to_string())), Ok(1)));
    match find_column_index(&sheet(), &None) {
        Err(e) => {
            assert!(matches!(e, ColumnError::MappingRequired));
            assert_eq!(e.message(), "Column mapping is required");
        }
        Ok(_) => panic!("found a column without a name"),
    }
    match find_column_index(&sheet(), &Some("credit".to_string())) {
        Err(e) => assert_eq!(e.message(), "Column 'credit' not found"),
        Ok(_) => panic!("found a column that is not there"),
    }
}

#[test]
fn an_optional_column_is_found_or_not() {
    assert_eq!(find_column_index_opt(&sheet(), &Some("number".to_string())), Some(0));
    assert_eq!(find_column_index_opt(&sheet(), &Some("Number".to_string())), None);
    assert_eq!(find_column_index_opt(&sheet(), &None), None);
}

#[test]
fn a_missing_cell_reads_as_empty() {
    let row = vec!["a".to_string(), "b".to_string()];
    assert_eq!(get_value_or_default(&row, Some(1)), "b");
    assert_eq!(get_value_or_default(&row, Some(2)), "");
    assert_eq!(get_value_or_default(&row, None), "");
}

#[test]
fn the_first_user_becomes_administrator() {
    let mut users = UserDirectory::new();
    let a = Principal::from_slice(&[1]).unwrap();
    let b = Principal::from_slice(&[2]).unwrap();
    let first = get_or_create_user(&mut users, &a, 10);
    assert_eq!(first.role, UserRole::Admin);
    assert_eq!(first.name, "New User");
    assert_eq!(first.email, "");
    assert_eq!(first.language_preference, "en");
    assert_eq!(first.created_at, 10);
    assert!(!first.profile_completed);
    let second = get_or_create_user(&mut users, &b, 20);
    assert_eq!(second.role, UserRole::Staff);
    let again = get_or_create_user(&mut users, &a, 30);
    assert_eq!(again.role, UserRole::Admin);
    assert_eq!(again.created_at, 10);
    assert_eq!(users.len(), 2);
    assert_eq!(users.users().len(), 2);
}

#[test]
fn an_upsert_replaces_the_profile() {
    let mut users = UserDirectory::new();
    let a = Principal::from_slice(&[1]).unwrap();
    get_or_create_user(&mut users, &a, 10);
    let stored = upsert_user(
        &mut users,
        &a,
        UserRole::Senior,
        "Ada".to_string(),
        "ada@example.org".to_string(),
        "ar".to_string(),
        50,
    );
    assert_eq!(stored.role, UserRole::Senior);
    assert_eq!(users.len(), 1);
    let found = users.get_user(&a).unwrap();
    assert_eq!(found.name, "Ada");
    assert_eq!(found.email, "ada@example.org");
    assert_eq!(found.language_preference, "ar");
    assert_eq!(found.created_at, 50);
}
