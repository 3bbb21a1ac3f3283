use crate::hash::same_text;
use crate::records::{
    AdjustingJournalEntry, AuditTemplate, Client, ClientAcceptance, ConflictCheck, Document, DocumentRequest, Engagement, EngagementBudget, EngagementChecklist, EngagementLetter, EngagementMilestone, EngagementSetupTemplate, Entity, ImportedDataset, Organization, TimeEntry, TrialBalance, TrialBalanceAccount, WorkingPaper,
};
use vstd::prelude::*;
use vstd::string::StringExecFns;

verus! {

/// The kinds of recorded state that a revert knows how to put back. The
/// list is closed: a resource type that is to become revertible gets a
/// variant here and a row in `kind_of`.
#[derive(Clone, Copy, Debug, PartialEq, Eq, Structural)]
pub enum SnapshotKind {
    Client,
    Organization,
    Entity,
    /// All milestones of one parent, recorded by `create_engagement_from_template`.
    EngagementMilestones,
    EngagementChecklist,
    Engagement,
    /// All trial balance accounts of one parent, recorded by `import_trial_balance_csv`.
    TrialBalanceAccounts,
    TrialBalance,
    TrialBalanceAccount,
    EngagementTemplate,
    EngagementMilestone,
    EngagementBudget,
    TimeEntry,
    ClientAcceptance,
    EngagementLetter,
    ConflictCheck,
    AdjustingEntry,
    DocumentRequest,
    Document,
    WorkingPaper,
    AuditTemplate,
    Dataset,
}

/// The kind of state that an entry with the given resource type and action
/// records, or `None` where no revert is registered for them.
pub open spec fn kind_of(resource_type: Seq<char>, action: Seq<char>) -> Option<SnapshotKind> {
    if resource_type == "client"@ {
        Some(SnapshotKind::Client)
    } else if resource_type == "organization"@ {
        Some(SnapshotKind::Organization)
    } else if resource_type == "entity"@ {
        Some(SnapshotKind::Entity)
    } else if resource_type == "engagement"@ {
        if action == "create_engagement_from_template"@ {
            Some(SnapshotKind::EngagementMilestones)
        } else if action == "apply_template_to_engagement"@ {
            Some(SnapshotKind::EngagementChecklist)
        } else {
            Some(SnapshotKind::Engagement)
        }
    } else if resource_type == "trial_balance"@ {
        if action == "import_trial_balance_csv"@ {
            Some(SnapshotKind::TrialBalanceAccounts)
        } else {
            Some(SnapshotKind::TrialBalance)
        }
    } else if resource_type == "trial_balance_account"@ {
        Some(SnapshotKind::TrialBalanceAccount)
    } else if resource_type == "engagement_template"@ {
        Some(SnapshotKind::EngagementTemplate)
    } else if resource_type == "engagement_milestone"@ {
        Some(SnapshotKind::EngagementMilestone)
    } else if resource_type == "engagement_budget"@ {
        Some(SnapshotKind::EngagementBudget)
    } else if resource_type == "time_entry"@ {
        Some(SnapshotKind::TimeEntry)
    } else if resource_type == "client_acceptance"@ {
        Some(SnapshotKind::ClientAcceptance)
    } else if resource_type == "engagement_letter"@ {
        Some(SnapshotKind::EngagementLetter)
    } else if resource_type == "conflict_check"@ {
        Some(SnapshotKind::ConflictCheck)
    } else if resource_type == "aje"@ {
        Some(SnapshotKind::AdjustingEntry)
    } else if resource_type == "document_request"@ {
        Some(SnapshotKind::DocumentRequest)
    } else if resource_type == "document"@ {
        Some(SnapshotKind::Document)
    } else if resource_type == "working_paper"@ {
        Some(SnapshotKind::WorkingPaper)
    } else if resource_type == "template"@ {
        Some(SnapshotKind::AuditTemplate)
    } else if resource_type == "dataset"@ {
        Some(SnapshotKind::Dataset)
    } else {
        None
    }
}

/// Looks up the kind of state that an entry with the given resource type
/// and action records.
pub fn snapshot_kind(resource_type: &str, action: &str) -> (kind: Option<SnapshotKind>)
    ensures
        kind == kind_of(resource_type@, action@),
{
    if same_text(resource_type, "client") {
        Some(SnapshotKind::Client)
    } else if same_text(resource_type, "organization") {
        Some(SnapshotKind::Organization)
    } else if same_text(resource_type, "entity") {
        Some(SnapshotKind::Entity)
    } else if same_text(resource_type, "engagement") {
        if same_text(action, "create_engagement_from_template") {
            Some(SnapshotKind::EngagementMilestones)
        } else if same_text(action, "apply_template_to_engagement") {
            Some(SnapshotKind::EngagementChecklist)
        } else {
            Some(SnapshotKind::Engagement)
        }
    } else if same_text(resource_type, "trial_balance") {
        if same_text(action, "import_trial_balance_csv") {
            Some(SnapshotKind::TrialBalanceAccounts)
        } else {
            Some(SnapshotKind::TrialBalance)
        }
    } else if same_text(resource_type, "trial_balance_account") {
        Some(SnapshotKind::TrialBalanceAccount)
    } else if same_text(resource_type, "engagement_template") {
        Some(SnapshotKind::EngagementTemplate)
    } else if same_text(resource_type, "engagement_milestone") {
        Some(SnapshotKind::EngagementMilestone)
    } else if same_text(resource_type, "engagement_budget") {
        Some(SnapshotKind::EngagementBudget)
    } else if same_text(resource_type, "time_entry") {
        Some(SnapshotKind::TimeEntry)
    } else if same_text(resource_type, "client_acceptance") {
        Some(SnapshotKind::ClientAcceptance)
    } else if same_text(resource_type, "engagement_letter") {
        Some(SnapshotKind::EngagementLetter)
    } else if same_text(resource_type, "conflict_check") {
        Some(SnapshotKind::ConflictCheck)
    } else if same_text(resource_type, "aje") {
        Some(SnapshotKind::AdjustingEntry)
    } else if same_text(resource_type, "document_request") {
        Some(SnapshotKind::DocumentRequest)
    } else if same_text(resource_type, "document") {
        Some(SnapshotKind::Document)
    } else if same_text(resource_type, "working_paper") {
        Some(SnapshotKind::WorkingPaper)
    } else if same_text(resource_type, "template") {
        Some(SnapshotKind::AuditTemplate)
    } else if same_text(resource_type, "dataset") {
        Some(SnapshotKind::Dataset)
    } else {
        None
    }
}

/// What a snapshot of the kind is called in messages.
pub open spec fn kind_label(kind: SnapshotKind) -> Seq<char> {
    match kind {
        SnapshotKind::Client => "client"@,
        SnapshotKind::Organization => "organization"@,
        SnapshotKind::Entity => "entity"@,
        SnapshotKind::EngagementMilestones => "milestone"@,
        SnapshotKind::EngagementChecklist => "engagement checklist"@,
        SnapshotKind::Engagement => "engagement"@,
        SnapshotKind::TrialBalanceAccounts => "trial balance account"@,
        SnapshotKind::TrialBalance => "trial balance"@,
        SnapshotKind::TrialBalanceAccount => "trial balance account"@,
        SnapshotKind::EngagementTemplate => "engagement template"@,
        SnapshotKind::EngagementMilestone => "engagement milestone"@,
        SnapshotKind::EngagementBudget => "engagement budget"@,
        SnapshotKind::TimeEntry => "time entry"@,
        SnapshotKind::ClientAcceptance => "client acceptance"@,
        SnapshotKind::EngagementLetter => "engagement letter"@,
        SnapshotKind::ConflictCheck => "conflict check"@,
        SnapshotKind::AdjustingEntry => "AJE"@,
        SnapshotKind::DocumentRequest => "document request"@,
        SnapshotKind::Document => "document"@,
        SnapshotKind::WorkingPaper => "working paper"@,
        SnapshotKind::AuditTemplate => "template"@,
        SnapshotKind::Dataset => "dataset"@,
    }
}

impl SnapshotKind {
    /// What a snapshot of the kind is called in messages.
    pub fn label(&self) -> (text: &'static str)
        ensures
            text@ == kind_label(*self),
    {
        match self {
            SnapshotKind::Client => "client",
            SnapshotKind::Organization => "organization",
            SnapshotKind::Entity => "entity",
            SnapshotKind::EngagementMilestones => "milestone",
            SnapshotKind::EngagementChecklist => "engagement checklist",
            SnapshotKind::Engagement => "engagement",
            SnapshotKind::TrialBalanceAccounts => "trial balance account",
            SnapshotKind::TrialBalance => "trial balance",
            SnapshotKind::TrialBalanceAccount => "trial balance account",
            SnapshotKind::EngagementTemplate => "engagement template",
            SnapshotKind::EngagementMilestone => "engagement milestone",
            SnapshotKind::EngagementBudget => "engagement budget",
            SnapshotKind::TimeEntry => "time entry",
            SnapshotKind::ClientAcceptance => "client acceptance",
            SnapshotKind::EngagementLetter => "engagement letter",
            SnapshotKind::ConflictCheck => "conflict check",
            SnapshotKind::AdjustingEntry => "AJE",
            SnapshotKind::DocumentRequest => "document request",
            SnapshotKind::Document => "document",
            SnapshotKind::WorkingPaper => "working paper",
            SnapshotKind::AuditTemplate => "template",
            SnapshotKind::Dataset => "dataset",
        }
    }
}

/// Recorded state, decoded: one variant per kind, each with the value of
/// the type that the kind calls for.
#[derive(Clone, Debug)]
pub enum Snapshot {
    Client(Client),
    Organization(Organization),
    Entity(Entity),
    EngagementMilestones(Vec<EngagementMilestone>),
    EngagementChecklist(EngagementChecklist),
    Engagement(Engagement),
    TrialBalanceAccounts(Vec<TrialBalanceAccount>),
    TrialBalance(TrialBalance),
    TrialBalanceAccount(TrialBalanceAccount),
    EngagementTemplate(EngagementSetupTemplate),
    EngagementMilestone(EngagementMilestone),
    EngagementBudget(EngagementBudget),
    TimeEntry(TimeEntry),
    ClientAcceptance(ClientAcceptance),
    EngagementLetter(EngagementLetter),
    ConflictCheck(ConflictCheck),
    AdjustingEntry(AdjustingJournalEntry),
    DocumentRequest(DocumentRequest),
    Document(Document),
    WorkingPaper(WorkingPaper),
    AuditTemplate(AuditTemplate),
    Dataset(ImportedDataset),
}

/// The kind that a decoded snapshot is of.
pub open spec fn kind_of_snapshot(snapshot: Snapshot) -> SnapshotKind {
    match snapshot {
        Snapshot::Client(_) => SnapshotKind::Client,
        Snapshot::Organization(_) => SnapshotKind::Organization,
        Snapshot::Entity(_) => SnapshotKind::Entity,
        Snapshot::EngagementMilestones(_) => SnapshotKind::EngagementMilestones,
        Snapshot::EngagementChecklist(_) => SnapshotKind::EngagementChecklist,
        Snapshot::Engagement(_) => SnapshotKind::Engagement,
        Snapshot::TrialBalanceAccounts(_) => SnapshotKind::TrialBalanceAccounts,
        Snapshot::TrialBalance(_) => SnapshotKind::TrialBalance,
        Snapshot::TrialBalanceAccount(_) => SnapshotKind::TrialBalanceAccount,
        Snapshot::EngagementTemplate(_) => SnapshotKind::EngagementTemplate,
        Snapshot::EngagementMilestone(_) => SnapshotKind::EngagementMilestone,
        Snapshot::EngagementBudget(_) => SnapshotKind::EngagementBudget,
        Snapshot::TimeEntry(_) => SnapshotKind::TimeEntry,
        Snapshot::ClientAcceptance(_) => SnapshotKind::ClientAcceptance,
        Snapshot::EngagementLetter(_) => SnapshotKind::EngagementLetter,
        Snapshot::ConflictCheck(_) => SnapshotKind::ConflictCheck,
        Snapshot::AdjustingEntry(_) => SnapshotKind::AdjustingEntry,
        Snapshot::DocumentRequest(_) => SnapshotKind::DocumentRequest,
        Snapshot::Document(_) => SnapshotKind::Document,
        Snapshot::WorkingPaper(_) => SnapshotKind::WorkingPaper,
        Snapshot::AuditTemplate(_) => SnapshotKind::AuditTemplate,
        Snapshot::Dataset(_) => SnapshotKind::Dataset,
    }
}

impl Snapshot {
    /// The kind that the snapshot is of.
    pub fn kind(&self) -> (kind: SnapshotKind)
        ensures
            kind == kind_of_snapshot(*self),
    {
        match self {
            Snapshot::Client(_) => SnapshotKind::Client,
            Snapshot::Organization(_) => SnapshotKind::Organization,
            Snapshot::Entity(_) => SnapshotKind::Entity,
            Snapshot::EngagementMilestones(_) => SnapshotKind::EngagementMilestones,
            Snapshot::EngagementChecklist(_) => SnapshotKind::EngagementChecklist,
            Snapshot::Engagement(_) => SnapshotKind::Engagement,
            Snapshot::TrialBalanceAccounts(_) => SnapshotKind::TrialBalanceAccounts,
            Snapshot::TrialBalance(_) => SnapshotKind::TrialBalance,
            Snapshot::TrialBalanceAccount(_) => SnapshotKind::TrialBalanceAccount,
            Snapshot::EngagementTemplate(_) => SnapshotKind::EngagementTemplate,
            Snapshot::EngagementMilestone(_) => SnapshotKind::EngagementMilestone,
            Snapshot::EngagementBudget(_) => SnapshotKind::EngagementBudget,
            Snapshot::TimeEntry(_) => SnapshotKind::TimeEntry,
            Snapshot::ClientAcceptance(_) => SnapshotKind::ClientAcceptance,
            Snapshot::EngagementLetter(_) => SnapshotKind::EngagementLetter,
            Snapshot::ConflictCheck(_) => SnapshotKind::ConflictCheck,
            Snapshot::AdjustingEntry(_) => SnapshotKind::AdjustingEntry,
            Snapshot::DocumentRequest(_) => SnapshotKind::DocumentRequest,
            Snapshot::Document(_) => SnapshotKind::Document,
            Snapshot::WorkingPaper(_) => SnapshotKind::WorkingPaper,
            Snapshot::AuditTemplate(_) => SnapshotKind::AuditTemplate,
            Snapshot::Dataset(_) => SnapshotKind::Dataset,
        }
    }
}

} // verus!
