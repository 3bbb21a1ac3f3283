use crate::principal::Principal;
use vstd::prelude::*;

verus! {

/// A double-precision number, held by the 64 bits of its IEEE 754 form.
#[derive(Clone, Copy, Debug, PartialEq, Eq, Structural)]
pub struct DoubleBits {
    pub bits: u64,
}

/// A firm or group that entities belong to.
#[derive(Clone, Debug)]
pub struct Organization {
    pub id: u64,
    pub name: String,
    pub description: String,
    pub created_at: u64,
    pub created_by: Principal,
    pub entity_ids: Vec<u64>,
}

/// The reporting standard that the statements of an entity follow.
#[derive(Clone, Debug)]
pub enum XBRLTaxonomy {
    EAS,
    IFRS,
    GCC,
    Custom(String),
}

/// A legal entity of an organization.
#[derive(Clone, Debug)]
pub struct Entity {
    pub id: u64,
    pub organization_id: u64,
    pub name: String,
    pub description: String,
    pub taxonomy: Option<XBRLTaxonomy>,
    pub taxonomy_config: String,
    pub created_at: u64,
    pub created_by: Principal,
}

/// A client of the firm.
#[derive(Clone, Debug)]
pub struct Client {
    pub id: u64,
    pub name: String,
    pub name_ar: Option<String>,
    pub contact_email: String,
    pub contact_phone: String,
    pub address: String,
    pub tax_registration_number: Option<String>,
    pub commercial_registration: Option<String>,
    pub industry_code: Option<String>,
    pub organization_id: Option<u64>,
    pub entity_id: Option<u64>,
    pub created_at: u64,
    pub created_by: Principal,
}

/// What an engagement is for.
#[derive(Clone, Debug)]
pub enum EngagementLink {
    Organization(u64),
    Entity(u64),
    Client(u64),
}

/// One audit engagement.
#[derive(Clone, Debug)]
pub struct Engagement {
    pub id: u64,
    pub name: String,
    pub description: String,
    pub link: EngagementLink,
    pub start_date: u64,
    pub end_date: u64,
    pub status: String,
    pub created_at: u64,
    pub created_by: Principal,
}

/// The kind of data that a column of an imported sheet holds.
#[derive(Clone, Copy, Debug, PartialEq, Eq, Structural)]
pub enum ColumnType {
    Numeric,
    Text,
    Date,
    Boolean,
    Currency,
}

/// Which kinds of personal data were seen in a column.
#[derive(Clone, Debug)]
pub struct PIIDetection {
    pub has_names: bool,
    pub has_emails: bool,
    pub has_phone_numbers: bool,
    pub has_national_ids: bool,
}

/// What the import found out about one column.
#[derive(Clone, Debug)]
pub struct ColumnMetadata {
    pub name: String,
    pub original_name: String,
    pub detected_type: ColumnType,
    pub null_percent: DoubleBits,
    pub unique_count: u64,
    pub min_value: String,
    pub max_value: String,
    pub sample_values: Vec<String>,
    pub pii_detection: PIIDetection,
}

/// One sheet of an imported workbook: rows of cells as text.
#[derive(Clone, Debug)]
pub struct SheetData {
    pub name: String,
    pub columns: Vec<ColumnMetadata>,
    pub row_count: u64,
    pub data: Vec<Vec<String>>,
}

/// A workbook that was imported.
#[derive(Clone, Debug)]
pub struct ImportedDataset {
    pub id: u64,
    pub name: String,
    pub engagement_id: Option<u64>,
    pub file_name: String,
    pub file_size: u64,
    pub sheets: Vec<SheetData>,
    pub version: u32,
    pub created_at: u64,
    pub created_by: Principal,
}

/// Which column of a dataset holds which field of an account.
#[derive(Clone, Debug)]
pub struct ColumnMapping {
    pub account_number: Option<String>,
    pub account_name: Option<String>,
    pub currency: Option<String>,
    pub opening_debit: Option<String>,
    pub opening_credit: Option<String>,
    pub period_debit: Option<String>,
    pub period_credit: Option<String>,
    pub ytd_debit: Option<String>,
    pub ytd_credit: Option<String>,
    pub entity: Option<String>,
    pub department: Option<String>,
    pub project: Option<String>,
    pub notes: Option<String>,
}

/// One account as a working paper reads it from a dataset.
#[derive(Clone, Debug)]
pub struct AccountData {
    pub account_number: String,
    pub account_name: String,
    pub currency: String,
    pub opening_debit: DoubleBits,
    pub opening_credit: DoubleBits,
    pub period_debit: DoubleBits,
    pub period_credit: DoubleBits,
    pub ytd_debit: DoubleBits,
    pub ytd_credit: DoubleBits,
    pub entity: String,
    pub department: String,
    pub project: String,
    pub notes: String,
}

/// The accounts of a working paper with their totals.
#[derive(Clone, Debug)]
pub struct Leadsheet {
    pub accounts: Vec<AccountData>,
    pub opening_balance: DoubleBits,
    pub adjustments: DoubleBits,
    pub closing_balance: DoubleBits,
    pub created_at: u64,
}

/// A named ratio with the formula it came from.
#[derive(Clone, Debug)]
pub struct FinancialRatio {
    pub name: String,
    pub value: DoubleBits,
    pub formula: String,
}

/// The change of a value from one period to the next.
#[derive(Clone, Debug)]
pub struct TrendAnalysis {
    pub period_name: String,
    pub current_value: DoubleBits,
    pub prior_value: DoubleBits,
    pub change: DoubleBits,
    pub change_percent: DoubleBits,
}

/// The distance of an actual value from the expected one.
#[derive(Clone, Debug)]
pub struct VarianceAnalysis {
    pub item_name: String,
    pub actual: DoubleBits,
    pub expected: DoubleBits,
    pub variance: DoubleBits,
    pub variance_percent: DoubleBits,
}

/// A working paper over a dataset of an engagement.
#[derive(Clone, Debug)]
pub struct WorkingPaper {
    pub id: u64,
    pub engagement_id: u64,
    pub dataset_id: u64,
    pub name: String,
    pub column_mapping: ColumnMapping,
    pub leadsheet: Option<Leadsheet>,
    pub ratios: Vec<FinancialRatio>,
    pub trend_analysis: Vec<TrendAnalysis>,
    pub variance_analysis: Vec<VarianceAnalysis>,
    pub linked_document_ids: Vec<u64>,
    pub created_at: u64,
    pub created_by: Principal,
}

/// An uploaded file, held in chunks.
#[derive(Clone, Debug)]
pub struct Document {
    pub id: u64,
    pub name: String,
    pub file_type: String,
    pub file_size: u64,
    pub organization_id: Option<u64>,
    pub entity_id: Option<u64>,
    pub category: String,
    pub data_chunks: Vec<Vec<u8>>,
    pub created_at: u64,
    pub created_by: Principal,
    pub access_principals: Vec<Principal>,
}

/// A trial balance of an engagement.
#[derive(Clone, Debug)]
pub struct TrialBalance {
    pub id: u64,
    pub engagement_id: u64,
    pub period_end_date: String,
    pub description: String,
    pub currency: String,
    pub is_adjusted: bool,
    pub created_at: u64,
    pub created_by: Principal,
    pub last_modified_at: u64,
    pub last_modified_by: Principal,
}

/// The side of the balance sheet or income statement an account is on.
#[derive(Clone, Copy, Debug, PartialEq, Eq, Structural)]
pub enum AccountType {
    Asset,
    Liability,
    Equity,
    Revenue,
    Expense,
}

/// One account of a trial balance. Balances are in cents.
#[derive(Clone, Debug)]
pub struct TrialBalanceAccount {
    pub id: u64,
    pub trial_balance_id: u64,
    pub account_number: String,
    pub account_name: String,
    pub account_type: AccountType,
    pub debit_balance: i64,
    pub credit_balance: i64,
    pub fs_line_item: Option<String>,
    pub notes: String,
    pub is_reconciled: bool,
    pub created_at: u64,
    pub created_by: Principal,
}

/// How far an adjusting journal entry has come.
#[derive(Clone, Copy, Debug, PartialEq, Eq, Structural)]
pub enum AjeStatus {
    Draft,
    Proposed,
    Reviewed,
    Approved,
    Rejected,
    Posted,
}

/// An adjusting journal entry.
#[derive(Clone, Debug)]
pub struct AdjustingJournalEntry {
    pub id: u64,
    pub engagement_id: u64,
    pub trial_balance_id: u64,
    pub aje_number: String,
    pub description: String,
    pub status: AjeStatus,
    pub amount: i64,
    pub created_at: u64,
    pub created_by: Principal,
    pub reviewed_at: Option<u64>,
    pub reviewed_by: Option<Principal>,
    pub approved_at: Option<u64>,
    pub approved_by: Option<Principal>,
    pub blockchain_hash: String,
    pub blockchain_signature: String,
}

/// One line of an adjusting journal entry.
#[derive(Clone, Debug)]
pub struct AjeLineItem {
    pub id: u64,
    pub aje_id: u64,
    pub account_id: u64,
    pub account_name: String,
    pub account_number: String,
    pub debit_amount: i64,
    pub credit_amount: i64,
    pub description: String,
}

/// The part of the financial statements a line belongs to.
#[derive(Clone, Copy, Debug, PartialEq, Eq, Structural)]
pub enum FSCategory {
    Asset,
    Liability,
    Equity,
    Revenue,
    Expense,
}

/// A line of a taxonomy.
#[derive(Clone, Debug)]
pub struct FSLineItem {
    pub code: String,
    pub name: String,
    pub category: FSCategory,
    pub subcategory: String,
    pub order: u64,
    pub is_subtotal: bool,
    pub parent: Option<String>,
}

/// A line of a financial statement with its amount in cents.
#[derive(Clone, Debug)]
pub struct FSLine {
    pub line_item: FSLineItem,
    pub amount: i64,
    pub mapped_accounts: Vec<u64>,
}

/// A note to a financial statement.
#[derive(Clone, Debug)]
pub struct FSNote {
    pub note_number: u64,
    pub title: String,
    pub content: String,
    pub created_at: u64,
    pub created_by: Principal,
}

/// A financial statement generated from a trial balance.
#[derive(Clone, Debug)]
pub struct FinancialStatement {
    pub id: u64,
    pub engagement_id: u64,
    pub trial_balance_id: u64,
    pub taxonomy: XBRLTaxonomy,
    pub period_end_date: String,
    pub lines: Vec<FSLine>,
    pub notes: Vec<FSNote>,
    pub created_at: u64,
    pub created_by: Principal,
    pub last_modified: u64,
}

/// How risky a client is in one respect.
#[derive(Clone, Copy, Debug, PartialEq, Eq, Structural)]
pub enum RiskLevel {
    Low,
    Medium,
    High,
    Unacceptable,
}

/// The outcome of a client acceptance.
#[derive(Clone, Copy, Debug, PartialEq, Eq, Structural)]
pub enum AcceptanceDecision {
    Accepted,
    Rejected,
    RequiresPartnerReview,
    Pending,
}

/// The answers that a client acceptance rests on.
#[derive(Clone, Debug)]
pub struct ClientAcceptanceQuestionnaire {
    pub management_integrity_risk: RiskLevel,
    pub financial_stability_risk: RiskLevel,
    pub industry_risk: RiskLevel,
    pub regulatory_complexity_risk: RiskLevel,
    pub fee_collection_risk: RiskLevel,
    pub independence_threats: bool,
    pub conflicts_of_interest: bool,
    pub resources_available: bool,
    pub technical_expertise_available: bool,
    pub notes: String,
}

/// The assessment of whether to take on a client.
#[derive(Clone, Debug)]
pub struct ClientAcceptance {
    pub id: u64,
    pub client_id: u64,
    pub questionnaire: ClientAcceptanceQuestionnaire,
    pub overall_risk: RiskLevel,
    pub decision: AcceptanceDecision,
    pub decision_rationale: String,
    pub reviewed_by: Principal,
    pub reviewed_at: u64,
    pub partner_approved_by: Option<Principal>,
    pub partner_approved_at: Option<u64>,
    pub created_at: u64,
    pub created_by: Principal,
}

/// The kind of service an engagement delivers.
#[derive(Clone, Debug)]
pub enum EngagementType {
    Audit,
    Review,
    Compilation,
    TaxPreparation,
    Consulting,
    Other(String),
}

/// How far an engagement letter has come.
#[derive(Clone, Copy, Debug, PartialEq, Eq, Structural)]
pub enum EngagementLetterStatus {
    Draft,
    SentToClient,
    Signed,
    Declined,
}

/// The letter that fixes the terms of an engagement.
#[derive(Clone, Debug)]
pub struct EngagementLetter {
    pub id: u64,
    pub engagement_id: Option<u64>,
    pub client_id: u64,
    pub engagement_type: EngagementType,
    pub scope_of_services: String,
    pub management_responsibilities: String,
    pub auditor_responsibilities: String,
    pub limitations_of_engagement: String,
    pub fee_structure: String,
    pub estimated_completion_date: String,
    pub special_terms: String,
    pub status: EngagementLetterStatus,
    pub sent_date: Option<u64>,
    pub signed_date: Option<u64>,
    pub signed_by_client_name: Option<String>,
    pub created_at: u64,
    pub created_by: Principal,
    pub last_modified_at: u64,
}

/// A check for conflicts of interest with a client.
#[derive(Clone, Debug)]
pub struct ConflictCheck {
    pub id: u64,
    pub client_id: u64,
    pub related_parties: Vec<String>,
    pub conflicts_found: bool,
    pub conflict_details: Vec<String>,
    pub resolution_notes: String,
    pub cleared: bool,
    pub cleared_by: Option<Principal>,
    pub cleared_at: Option<u64>,
    pub created_at: u64,
    pub created_by: Principal,
}

/// A template from which engagements are set up.
#[derive(Clone, Debug)]
pub struct EngagementSetupTemplate {
    pub id: u64,
    pub name: String,
    pub engagement_type: EngagementType,
    pub description: String,
    pub default_procedures: Vec<String>,
    pub required_documents: Vec<String>,
    pub default_milestones: Vec<MilestoneTemplate>,
    pub estimated_hours: DoubleBits,
    pub is_default: bool,
    pub created_at: u64,
    pub created_by: Principal,
}

/// A milestone of a setup template.
#[derive(Clone, Debug)]
pub struct MilestoneTemplate {
    pub name: String,
    pub description: String,
    pub days_from_start: u64,
    pub estimated_hours: DoubleBits,
}

/// How far a milestone has come.
#[derive(Clone, Copy, Debug, PartialEq, Eq, Structural)]
pub enum MilestoneStatus {
    NotStarted,
    InProgress,
    Completed,
    Blocked,
    Cancelled,
}

/// A milestone of an engagement.
#[derive(Clone, Debug)]
pub struct EngagementMilestone {
    pub id: u64,
    pub engagement_id: u64,
    pub name: String,
    pub description: String,
    pub due_date: u64,
    pub status: MilestoneStatus,
    pub assigned_to: Option<Principal>,
    pub estimated_hours: DoubleBits,
    pub actual_hours: DoubleBits,
    pub completed_date: Option<u64>,
    pub completed_by: Option<Principal>,
    pub dependencies: Vec<u64>,
    pub created_at: u64,
    pub created_by: Principal,
}

/// The budget of an engagement in hours and fees.
#[derive(Clone, Debug)]
pub struct EngagementBudget {
    pub id: u64,
    pub engagement_id: u64,
    pub total_budgeted_hours: DoubleBits,
    pub total_actual_hours: DoubleBits,
    pub partner_hours: DoubleBits,
    pub manager_hours: DoubleBits,
    pub senior_hours: DoubleBits,
    pub staff_hours: DoubleBits,
    pub partner_rate: DoubleBits,
    pub manager_rate: DoubleBits,
    pub senior_rate: DoubleBits,
    pub staff_rate: DoubleBits,
    pub total_budgeted_fee: DoubleBits,
    pub total_actual_fee: DoubleBits,
    pub created_at: u64,
    pub created_by: Principal,
    pub last_updated_at: u64,
}

/// Hours that a user booked on an engagement.
#[derive(Clone, Debug)]
pub struct TimeEntry {
    pub id: u64,
    pub engagement_id: u64,
    pub milestone_id: Option<u64>,
    pub user: Principal,
    pub date: u64,
    pub hours: DoubleBits,
    pub description: String,
    pub billable: bool,
    pub created_at: u64,
}

/// The kind of engagement an audit template is for.
#[derive(Clone, Copy, Debug, PartialEq, Eq, Structural)]
pub enum TemplateType {
    Audit,
    Review,
    Compilation,
    TaxPreparation,
    Custom,
}

/// How far an item of a checklist has come.
#[derive(Clone, Copy, Debug, PartialEq, Eq, Structural)]
pub enum ChecklistItemStatus {
    NotStarted,
    InProgress,
    Completed,
    NotApplicable,
}

/// An item of an audit template.
#[derive(Clone, Debug)]
pub struct ChecklistItem {
    pub id: String,
    pub title: String,
    pub description: String,
    pub section: String,
    pub order: u32,
    pub is_required: bool,
    pub reference: Option<String>,
    pub estimated_hours: Option<DoubleBits>,
}

/// A checklist template.
#[derive(Clone, Debug)]
pub struct AuditTemplate {
    pub id: u64,
    pub name: String,
    pub description: String,
    pub template_type: TemplateType,
    pub checklist_items: Vec<ChecklistItem>,
    pub is_default: bool,
    pub is_public: bool,
    pub created_by: Principal,
    pub created_at: u64,
    pub updated_at: u64,
    pub firm_id: Option<u64>,
}

/// A template applied to one engagement.
#[derive(Clone, Debug)]
pub struct EngagementChecklist {
    pub id: u64,
    pub engagement_id: u64,
    pub template_id: u64,
    pub name: String,
    pub items: Vec<ChecklistItemInstance>,
    pub created_at: u64,
    pub created_by: Principal,
}

/// An item of the checklist of an engagement.
#[derive(Clone, Debug)]
pub struct ChecklistItemInstance {
    pub item_id: String,
    pub title: String,
    pub description: String,
    pub section: String,
    pub order: u32,
    pub status: ChecklistItemStatus,
    pub assigned_to: Option<Principal>,
    pub completed_by: Option<Principal>,
    pub completed_at: Option<u64>,
    pub notes: String,
    pub actual_hours: Option<DoubleBits>,
}

/// A document that the firm asks a client for.
#[derive(Clone, Debug)]
pub struct DocumentRequest {
    pub id: u64,
    pub engagement_id: u64,
    pub title: String,
    pub description: String,
    pub requested_by: Principal,
    pub requested_from_principal: Option<Principal>,
    pub due_date: Option<u64>,
    pub status: DocumentRequestStatus,
    pub created_at: u64,
    pub fulfilled_at: Option<u64>,
    pub fulfilled_document_id: Option<u64>,
    pub category: String,
    pub is_required: bool,
}

/// How far a document request has come.
#[derive(Clone, Copy, Debug, PartialEq, Eq, Structural)]
pub enum DocumentRequestStatus {
    Pending,
    Uploaded,
    Approved,
    Rejected,
    Cancelled,
}

} // verus!
