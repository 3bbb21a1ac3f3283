use crate::records::{
    AdjustingJournalEntry, AjeLineItem, AuditTemplate, Client, ClientAcceptance, ConflictCheck,
    Document, DocumentRequest, Engagement, EngagementBudget, EngagementChecklist,
    EngagementLetter, EngagementMilestone, EngagementSetupTemplate, Entity, FinancialStatement,
    ImportedDataset, Organization, TimeEntry, TrialBalance, TrialBalanceAccount, WorkingPaper,
};
use crate::snapshot::Snapshot;
use crate::table::Table;
use vstd::prelude::*;

verus! {

/// A record that is written and put back together with the other records
/// of its parent.
pub trait BatchMember: Sized {
    /// The key under which the record is stored.
    spec fn key(&self) -> u64;

    /// The parent whose records form one batch.
    spec fn parent(&self) -> u64;

    /// The key under which the record is stored.
    fn member_key(&self) -> (key: u64)
        ensures
            key == self.key(),
    ;

    /// The parent whose records form one batch.
    fn member_parent(&self) -> (parent: u64)
        ensures
            parent == self.parent(),
    ;
}

impl BatchMember for EngagementMilestone {
    open spec fn key(&self) -> u64 {
        self.id
    }

    open spec fn parent(&self) -> u64 {
        self.engagement_id
    }

    fn member_key(&self) -> (key: u64) {
        self.id
    }

    fn member_parent(&self) -> (parent: u64) {
        self.engagement_id
    }
}

impl BatchMember for TrialBalanceAccount {
    open spec fn key(&self) -> u64 {
        self.id
    }

    open spec fn parent(&self) -> u64 {
        self.trial_balance_id
    }

    fn member_key(&self) -> (key: u64) {
        self.id
    }

    fn member_parent(&self) -> (parent: u64) {
        self.trial_balance_id
    }
}

/// The table without the records of the given parent.
pub open spec fn without_parent<T: BatchMember>(table: Map<u64, T>, parent: u64) -> Map<u64, T> {
    table.remove_keys(Set::new(|k: u64| table.contains_key(k) && table[k].parent() == parent))
}

/// The table after each of the records was stored under its key, one after
/// the other.
pub open spec fn with_all<T: BatchMember>(table: Map<u64, T>, members: Seq<T>) -> Map<u64, T>
    decreases members.len(),
{
    if members.len() == 0 {
        table
    } else {
        with_all(table, members.drop_last()).insert(members.last().key(), members.last())
    }
}

/// The table after a batch was put back: the records that the parent of the
/// first member had are gone, and the members of the batch are stored. An
/// empty batch changes nothing.
pub open spec fn batch_restored<T: BatchMember>(table: Map<u64, T>, members: Seq<T>) -> Map<u64, T> {
    if members.len() == 0 {
        table
    } else {
        with_all(without_parent(table, members[0].parent()), members)
    }
}

/// Puts a batch back into its table.
pub fn restore_batch<T: BatchMember>(table: &mut Table<T>, members: Vec<T>)
    requires
        old(table).wf(),
    ensures
        final(table).wf(),
        final(table)@ == batch_restored(old(table)@, members@),
{
    if members.len() == 0 {
        return;
    }
    let ghost initial = table@;
    let ghost batch = members@;
    let parent = members[0].member_parent();
    let mut doomed: Vec<u64> = Vec::new();
    let mut i: usize = 0;
    proof {
        table.lemma_wf();
    }
    while i < table.len()
        invariant
            i <= table.keys().len(),
            table.keys().len() == table.rows().len(),
            initial == table@,
            forall|j: int|
                0 <= j < table.keys().len() ==> initial.contains_key(#[trigger] table.keys()[j])
                    && initial[table.keys()[j]] == table.rows()[j],
            forall|j: int|
                0 <= j < doomed@.len() ==> initial.contains_key(#[trigger] doomed@[j])
                    && initial[doomed@[j]].parent() == parent,
            forall|j: int|
                0 <= j < i && table.rows()[j].parent() == parent ==> doomed@.contains(
                    #[trigger] table.keys()[j],
                ),
        decreases table.keys().len() - i,
    {
        if table.row_at(i).member_parent() == parent {
            let ghost before = doomed@;
            let key = table.key_at(i);
            doomed.push(key);
            proof {
                assert(doomed@[before.len() as int] == key);
                assert forall|j: int|
                    0 <= j < i + 1 && table.rows()[j].parent() == parent implies doomed@.contains(
                    #[trigger] table.keys()[j],
                ) by {
                    if j < i {
                        let at = choose|at: int|
                            0 <= at < before.len() && before[at] == table.keys()[j];
                        assert(doomed@[at] == table.keys()[j]);
                    }
                }
            }
        }
        i += 1;
    }
    proof {
        assert forall|k: u64|
            initial.contains_key(k) && initial[k].parent() == parent implies doomed@.contains(
            k,
        ) by {
            let at = table.slot_of(k);
            assert(table.keys()[at] == k);
        }
    }
    let mut d: usize = 0;
    while d < doomed.len()
        invariant
            d <= doomed@.len(),
            table.wf(),
            table@ == initial.remove_keys(doomed@.take(d as int).to_set()),
        decreases doomed@.len() - d,
    {
        table.remove(doomed[d]);
        proof {
            let seen = doomed@.take(d as int);
            let more = doomed@.take(d + 1);
            assert(more =~= seen.push(doomed@[d as int]));
            assert(more.to_set() =~= seen.to_set().insert(doomed@[d as int])) by {
                assert forall|x: u64| more.to_set().contains(x) implies seen.to_set().insert(
                    doomed@[d as int],
                ).contains(x) by {
                    let j = choose|j: int| 0 <= j < more.len() && more[j] == x;
                    if j < seen.len() {
                        assert(seen[j] == x);
                    }
                }
                assert forall|x: u64|
                    seen.to_set().insert(doomed@[d as int]).contains(
                        x,
                    ) implies more.to_set().contains(x) by {
                    if seen.contains(x) {
                        let j = choose|j: int| 0 <= j < seen.len() && seen[j] == x;
                        assert(more[j] == x);
                    } else {
                        assert(more[d as int] == x);
                    }
                }
            }
            assert(table@ =~= initial.remove_keys(more.to_set()));
        }
        d += 1;
    }
    proof {
        assert(doomed@.take(d as int) =~= doomed@);
        assert(table@ =~= without_parent(initial, parent)) by {
            assert forall|k: u64| doomed@.to_set().contains(k) implies initial.contains_key(k)
                && initial[k].parent() == parent by {
                let j = choose|j: int| 0 <= j < doomed@.len() && doomed@[j] == k;
                assert(initial.contains_key(doomed@[j]));
            }
        }
    }
    let ghost cleared = table@;
    let mut pending = members;
    let mut staged: Vec<T> = Vec::new();
    while pending.len() > 0
        invariant
            pending@.len() + staged@.len() == batch.len(),
            pending@ == batch.take(pending@.len() as int),
            forall|j: int|
                0 <= j < staged@.len() ==> staged@[j] == batch[batch.len() - 1 - j],
        decreases pending@.len(),
    {
        let ghost n = pending@.len();
        let member = pending.pop().unwrap();
        staged.push(member);
        assert(pending@ =~= batch.take(n - 1));
    }
    assert(batch.take(0) =~= Seq::<T>::empty());
    let ghost mut done: int = 0;
    while staged.len() > 0
        invariant
            0 <= done,
            done + staged@.len() == batch.len(),
            forall|j: int|
                0 <= j < staged@.len() ==> staged@[j] == batch[batch.len() - 1 - j],
            table.wf(),
            table@ == with_all(cleared, batch.take(done)),
        decreases staged@.len(),
    {
        let ghost top = staged@.len() - 1;
        assert(staged@[top] == batch[batch.len() - 1 - top]);
        let member = staged.pop().unwrap();
        proof {
            let more = batch.take(done + 1);
            assert(more.drop_last() =~= batch.take(done));
            assert(more.last() == member);
        }
        let key = member.member_key();
        table.insert(key, member);
        proof {
            done = done + 1;
        }
    }
    assert(batch.take(done) =~= batch);
}

/// The business records that a revert can reach, one table per kind of
/// record, each keyed by the id of the record.
pub struct ResourceStore {
    pub organizations: Table<Organization>,
    pub entities: Table<Entity>,
    pub clients: Table<Client>,
    pub engagements: Table<Engagement>,
    pub datasets: Table<ImportedDataset>,
    pub working_papers: Table<WorkingPaper>,
    pub documents: Table<Document>,
    pub client_portal_requests: Table<DocumentRequest>,
    pub audit_templates: Table<AuditTemplate>,
    pub engagement_checklists: Table<EngagementChecklist>,
    pub trial_balances: Table<TrialBalance>,
    pub trial_balance_accounts: Table<TrialBalanceAccount>,
    pub adjusting_entries: Table<AdjustingJournalEntry>,
    pub aje_line_items: Table<AjeLineItem>,
    pub financial_statements: Table<FinancialStatement>,
    pub client_acceptances: Table<ClientAcceptance>,
    pub engagement_letters: Table<EngagementLetter>,
    pub conflict_checks: Table<ConflictCheck>,
    pub engagement_templates: Table<EngagementSetupTemplate>,
    pub engagement_milestones: Table<EngagementMilestone>,
    pub engagement_budgets: Table<EngagementBudget>,
    pub time_entries: Table<TimeEntry>,
}

/// The tables of the store as mathematical maps.
pub struct StoreView {
    pub organizations: Map<u64, Organization>,
    pub entities: Map<u64, Entity>,
    pub clients: Map<u64, Client>,
    pub engagements: Map<u64, Engagement>,
    pub datasets: Map<u64, ImportedDataset>,
    pub working_papers: Map<u64, WorkingPaper>,
    pub documents: Map<u64, Document>,
    pub client_portal_requests: Map<u64, DocumentRequest>,
    pub audit_templates: Map<u64, AuditTemplate>,
    pub engagement_checklists: Map<u64, EngagementChecklist>,
    pub trial_balances: Map<u64, TrialBalance>,
    pub trial_balance_accounts: Map<u64, TrialBalanceAccount>,
    pub adjusting_entries: Map<u64, AdjustingJournalEntry>,
    pub aje_line_items: Map<u64, AjeLineItem>,
    pub financial_statements: Map<u64, FinancialStatement>,
    pub client_acceptances: Map<u64, ClientAcceptance>,
    pub engagement_letters: Map<u64, EngagementLetter>,
    pub conflict_checks: Map<u64, ConflictCheck>,
    pub engagement_templates: Map<u64, EngagementSetupTemplate>,
    pub engagement_milestones: Map<u64, EngagementMilestone>,
    pub engagement_budgets: Map<u64, EngagementBudget>,
    pub time_entries: Map<u64, TimeEntry>,
}

impl View for ResourceStore {
    type V = StoreView;

    open spec fn view(&self) -> StoreView {
        StoreView {
            organizations: self.organizations@,
            entities: self.entities@,
            clients: self.clients@,
            engagements: self.engagements@,
            datasets: self.datasets@,
            working_papers: self.working_papers@,
            documents: self.documents@,
            client_portal_requests: self.client_portal_requests@,
            audit_templates: self.audit_templates@,
            engagement_checklists: self.engagement_checklists@,
            trial_balances: self.trial_balances@,
            trial_balance_accounts: self.trial_balance_accounts@,
            adjusting_entries: self.adjusting_entries@,
            aje_line_items: self.aje_line_items@,
            financial_statements: self.financial_statements@,
            client_acceptances: self.client_acceptances@,
            engagement_letters: self.engagement_letters@,
            conflict_checks: self.conflict_checks@,
            engagement_templates: self.engagement_templates@,
            engagement_milestones: self.engagement_milestones@,
            engagement_budgets: self.engagement_budgets@,
            time_entries: self.time_entries@,
        }
    }
}

/// The store after a snapshot was put back. A single record replaces what
/// is stored under its own id, or is added; a batch replaces all records of
/// its parent. No other table and no other record changes.
pub open spec fn restored(store: StoreView, snapshot: Snapshot) -> StoreView {
    match snapshot {
        Snapshot::Client(record) => StoreView {
            clients: store.clients.insert(record.id, record),
            ..store
        },
        Snapshot::Organization(record) => StoreView {
            organizations: store.organizations.insert(record.id, record),
            ..store
        },
        Snapshot::Entity(record) => StoreView {
            entities: store.entities.insert(record.id, record),
            ..store
        },
        Snapshot::EngagementMilestones(members) => StoreView {
            engagement_milestones: batch_restored(store.engagement_milestones, members@),
            ..store
        },
        Snapshot::EngagementChecklist(record) => StoreView {
            engagement_checklists: store.engagement_checklists.insert(record.id, record),
            ..store
        },
        Snapshot::Engagement(record) => StoreView {
            engagements: store.engagements.insert(record.id, record),
            ..store
        },
        Snapshot::TrialBalanceAccounts(members) => StoreView {
            trial_balance_accounts: batch_restored(store.trial_balance_accounts, members@),
            ..store
        },
        Snapshot::TrialBalance(record) => StoreView {
            trial_balances: store.trial_balances.insert(record.id, record),
            ..store
        },
        Snapshot::TrialBalanceAccount(record) => StoreView {
            trial_balance_accounts: store.trial_balance_accounts.insert(record.id, record),
            ..store
        },
        Snapshot::EngagementTemplate(record) => StoreView {
            engagement_templates: store.engagement_templates.insert(record.id, record),
            ..store
        },
        Snapshot::EngagementMilestone(record) => StoreView {
            engagement_milestones: store.engagement_milestones.insert(record.id, record),
            ..store
        },
        Snapshot::EngagementBudget(record) => StoreView {
            engagement_budgets: store.engagement_budgets.insert(record.id, record),
            ..store
        },
        Snapshot::TimeEntry(record) => StoreView {
            time_entries: store.time_entries.insert(record.id, record),
            ..store
        },
        Snapshot::ClientAcceptance(record) => StoreView {
            client_acceptances: store.client_acceptances.insert(record.id, record),
            ..store
        },
        Snapshot::EngagementLetter(record) => StoreView {
            engagement_letters: store.engagement_letters.insert(record.id, record),
            ..store
        },
        Snapshot::ConflictCheck(record) => StoreView {
            conflict_checks: store.conflict_checks.insert(record.id, record),
            ..store
        },
        Snapshot::AdjustingEntry(record) => StoreView {
            adjusting_entries: store.adjusting_entries.insert(record.id, record),
            ..store
        },
        Snapshot::DocumentRequest(record) => StoreView {
            client_portal_requests: store.client_portal_requests.insert(record.id, record),
            ..store
        },
        Snapshot::Document(record) => StoreView {
            documents: store.documents.insert(record.id, record),
            ..store
        },
        Snapshot::WorkingPaper(record) => StoreView {
            working_papers: store.working_papers.insert(record.id, record),
            ..store
        },
        Snapshot::AuditTemplate(record) => StoreView {
            audit_templates: store.audit_templates.insert(record.id, record),
            ..store
        },
        Snapshot::Dataset(record) => StoreView {
            datasets: store.datasets.insert(record.id, record),
            ..store
        },
    }
}

impl ResourceStore {
    /// Every table of the store is well formed.
    pub open spec fn wf(&self) -> bool {
        &&& self.organizations.wf()
        &&& self.entities.wf()
        &&& self.clients.wf()
        &&& self.engagements.wf()
        &&& self.datasets.wf()
        &&& self.working_papers.wf()
        &&& self.documents.wf()
        &&& self.client_portal_requests.wf()
        &&& self.audit_templates.wf()
        &&& self.engagement_checklists.wf()
        &&& self.trial_balances.wf()
        &&& self.trial_balance_accounts.wf()
        &&& self.adjusting_entries.wf()
        &&& self.aje_line_items.wf()
        &&& self.financial_statements.wf()
        &&& self.client_acceptances.wf()
        &&& self.engagement_letters.wf()
        &&& self.conflict_checks.wf()
        &&& self.engagement_templates.wf()
        &&& self.engagement_milestones.wf()
        &&& self.engagement_budgets.wf()
        &&& self.time_entries.wf()
    }

    /// The store without records.
    pub fn new() -> (store: ResourceStore)
        ensures
            store.wf(),
            store@.organizations == Map::<u64, Organization>::empty(),
            store@.entities == Map::<u64, Entity>::empty(),
            store@.clients == Map::<u64, Client>::empty(),
            store@.engagements == Map::<u64, Engagement>::empty(),
            store@.datasets == Map::<u64, ImportedDataset>::empty(),
            store@.working_papers == Map::<u64, WorkingPaper>::empty(),
            store@.documents == Map::<u64, Document>::empty(),
            store@.client_portal_requests == Map::<u64, DocumentRequest>::empty(),
            store@.audit_templates == Map::<u64, AuditTemplate>::empty(),
            store@.engagement_checklists == Map::<u64, EngagementChecklist>::empty(),
            store@.trial_balances == Map::<u64, TrialBalance>::empty(),
            store@.trial_balance_accounts == Map::<u64, TrialBalanceAccount>::empty(),
            store@.adjusting_entries == Map::<u64, AdjustingJournalEntry>::empty(),
            store@.aje_line_items == Map::<u64, AjeLineItem>::empty(),
            store@.financial_statements == Map::<u64, FinancialStatement>::empty(),
            store@.client_acceptances == Map::<u64, ClientAcceptance>::empty(),
            store@.engagement_letters == Map::<u64, EngagementLetter>::empty(),
            store@.conflict_checks == Map::<u64, ConflictCheck>::empty(),
            store@.engagement_templates == Map::<u64, EngagementSetupTemplate>::empty(),
            store@.engagement_milestones == Map::<u64, EngagementMilestone>::empty(),
            store@.engagement_budgets == Map::<u64, EngagementBudget>::empty(),
            store@.time_entries == Map::<u64, TimeEntry>::empty(),
    {
        ResourceStore {
            organizations: Table::new(),
            entities: Table::new(),
            clients: Table::new(),
            engagements: Table::new(),
            datasets: Table::new(),
            working_papers: Table::new(),
            documents: Table::new(),
            client_portal_requests: Table::new(),
            audit_templates: Table::new(),
            engagement_checklists: Table::new(),
            trial_balances: Table::new(),
            trial_balance_accounts: Table::new(),
            adjusting_entries: Table::new(),
            aje_line_items: Table::new(),
            financial_statements: Table::new(),
            client_acceptances: Table::new(),
            engagement_letters: Table::new(),
            conflict_checks: Table::new(),
            engagement_templates: Table::new(),
            engagement_milestones: Table::new(),
            engagement_budgets: Table::new(),
            time_entries: Table::new(),
        }
    }
}

/// Puts a decoded snapshot back into the store.
pub fn apply_snapshot(store: &mut ResourceStore, snapshot: Snapshot)
    requires
        old(store).wf(),
    ensures
        final(store).wf(),
        final(store)@ == restored(old(store)@, snapshot),
{
    match snapshot {
        Snapshot::Client(record) => {
            store.clients.insert(record.id, record);
        },
        Snapshot::Organization(record) => {
            store.organizations.insert(record.id, record);
        },
        Snapshot::Entity(record) => {
            store.entities.insert(record.id, record);
        },
        Snapshot::EngagementMilestones(members) => {
            restore_batch(&mut store.engagement_milestones, members);
        },
        Snapshot::EngagementChecklist(record) => {
            store.engagement_checklists.insert(record.id, record);
        },
        Snapshot::Engagement(record) => {
            store.engagements.insert(record.id, record);
        },
        Snapshot::TrialBalanceAccounts(members) => {
            restore_batch(&mut store.trial_balance_accounts, members);
        },
        Snapshot::TrialBalance(record) => {
            store.trial_balances.insert(record.id, record);
        },
        Snapshot::TrialBalanceAccount(record) => {
            store.trial_balance_accounts.insert(record.id, record);
        },
        Snapshot::EngagementTemplate(record) => {
            store.engagement_templates.insert(record.id, record);
        },
        Snapshot::EngagementMilestone(record) => {
            store.engagement_milestones.insert(record.id, record);
        },
        Snapshot::EngagementBudget(record) => {
            store.engagement_budgets.insert(record.id, record);
        },
        Snapshot::TimeEntry(record) => {
            store.time_entries.insert(record.id, record);
        },
        Snapshot::ClientAcceptance(record) => {
            store.client_acceptances.insert(record.id, record);
        },
        Snapshot::EngagementLetter(record) => {
            store.engagement_letters.insert(record.id, record);
        },
        Snapshot::ConflictCheck(record) => {
            store.conflict_checks.insert(record.id, record);
        },
        Snapshot::AdjustingEntry(record) => {
            store.adjusting_entries.insert(record.id, record);
        },
        Snapshot::DocumentRequest(record) => {
            store.client_portal_requests.insert(record.id, record);
        },
        Snapshot::Document(record) => {
            store.documents.insert(record.id, record);
        },
        Snapshot::WorkingPaper(record) => {
            store.working_papers.insert(record.id, record);
        },
        Snapshot::AuditTemplate(record) => {
            store.audit_templates.insert(record.id, record);
        },
        Snapshot::Dataset(record) => {
            store.datasets.insert(record.id, record);
        },
    }
}

} // verus!
