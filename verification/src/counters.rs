use vstd::prelude::*;

verus! {

/// The counters that the ids of the business records come from, one per
/// kind of record. Each holds the id that is handed out next; ids start
/// at 1 and are never handed out twice.
#[derive(Clone, Copy, Debug, PartialEq, Eq, Structural)]
pub struct IdCounters {
    pub org: u64,
    pub entity: u64,
    pub client: u64,
    pub engagement: u64,
    pub dataset: u64,
    pub working_paper: u64,
    pub document: u64,
    pub trial_balance: u64,
    pub account: u64,
    pub aje: u64,
    pub aje_line_item: u64,
    pub fs: u64,
    pub template: u64,
    pub milestone: u64,
    pub budget: u64,
    pub time_entry: u64,
    pub acceptance: u64,
    pub letter: u64,
    pub conflict_check: u64,
}

impl IdCounters {
    /// Counters that have handed out nothing yet.
    pub fn new() -> (counters: IdCounters)
        ensures
            counters == (IdCounters {
                org: 1,
                entity: 1,
                client: 1,
                engagement: 1,
                dataset: 1,
                working_paper: 1,
                document: 1,
                trial_balance: 1,
                account: 1,
                aje: 1,
                aje_line_item: 1,
                fs: 1,
                template: 1,
                milestone: 1,
                budget: 1,
                time_entry: 1,
                acceptance: 1,
                letter: 1,
                conflict_check: 1,
            }),
    {
        IdCounters {
            org: 1,
            entity: 1,
            client: 1,
            engagement: 1,
            dataset: 1,
            working_paper: 1,
            document: 1,
            trial_balance: 1,
            account: 1,
            aje: 1,
            aje_line_item: 1,
            fs: 1,
            template: 1,
            milestone: 1,
            budget: 1,
            time_entry: 1,
            acceptance: 1,
            letter: 1,
            conflict_check: 1,
        }
    }
}

/// Takes the id of the next organization.
pub fn next_org_id(counters: &mut IdCounters) -> (id: u64)
    requires
        old(counters).org < u64::MAX,
    ensures
        id == old(counters).org,
        *final(counters) == (IdCounters { org: (id + 1) as u64, ..*old(counters) }),
{
    let id = counters.org;
    counters.org = id + 1;
    id
}

/// Takes the id of the next entity.
pub fn next_entity_id(counters: &mut IdCounters) -> (id: u64)
    requires
        old(counters).entity < u64::MAX,
    ensures
        id == old(counters).entity,
        *final(counters) == (IdCounters { entity: (id + 1) as u64, ..*old(counters) }),
{
    let id = counters.entity;
    counters.entity = id + 1;
    id
}

/// Takes the id of the next client.
pub fn next_client_id(counters: &mut IdCounters) -> (id: u64)
    requires
        old(counters).client < u64::MAX,
    ensures
        id == old(counters).client,
        *final(counters) == (IdCounters { client: (id + 1) as u64, ..*old(counters) }),
{
    let id = counters.client;
    counters.client = id + 1;
    id
}

/// Takes the id of the next engagement.
pub fn next_engagement_id(counters: &mut IdCounters) -> (id: u64)
    requires
        old(counters).engagement < u64::MAX,
    ensures
        id == old(counters).engagement,
        *final(counters) == (IdCounters { engagement: (id + 1) as u64, ..*old(counters) }),
{
    let id = counters.engagement;
    counters.engagement = id + 1;
    id
}

/// Takes the id of the next dataset.
pub fn next_dataset_id(counters: &mut IdCounters) -> (id: u64)
    requires
        old(counters).dataset < u64::MAX,
    ensures
        id == old(counters).dataset,
        *final(counters) == (IdCounters { dataset: (id + 1) as u64, ..*old(counters) }),
{
    let id = counters.dataset;
    counters.dataset = id + 1;
    id
}

/// Takes the id of the next working paper.
pub fn next_working_paper_id(counters: &mut IdCounters) -> (id: u64)
    requires
        old(counters).working_paper < u64::MAX,
    ensures
        id == old(counters).working_paper,
        *final(counters) == (IdCounters { working_paper: (id + 1) as u64, ..*old(counters) }),
{
    let id = counters.working_paper;
    counters.working_paper = id + 1;
    id
}

/// Takes the id of the next document.
pub fn next_document_id(counters: &mut IdCounters) -> (id: u64)
    requires
        old(counters).document < u64::MAX,
    ensures
        id == old(counters).document,
        *final(counters) == (IdCounters { document: (id + 1) as u64, ..*old(counters) }),
{
    let id = counters.document;
    counters.document = id + 1;
    id
}

/// Takes the id of the next trial balance.
pub fn next_trial_balance_id(counters: &mut IdCounters) -> (id: u64)
    requires
        old(counters).trial_balance < u64::MAX,
    ensures
        id == old(counters).trial_balance,
        *final(counters) == (IdCounters { trial_balance: (id + 1) as u64, ..*old(counters) }),
{
    let id = counters.trial_balance;
    counters.trial_balance = id + 1;
    id
}

/// Takes the id of the next trial balance account.
pub fn next_account_id(counters: &mut IdCounters) -> (id: u64)
    requires
        old(counters).account < u64::MAX,
    ensures
        id == old(counters).account,
        *final(counters) == (IdCounters { account: (id + 1) as u64, ..*old(counters) }),
{
    let id = counters.account;
    counters.account = id + 1;
    id
}

/// Takes the id of the next adjusting journal entry.
pub fn next_aje_id(counters: &mut IdCounters) -> (id: u64)
    requires
        old(counters).aje < u64::MAX,
    ensures
        id == old(counters).aje,
        *final(counters) == (IdCounters { aje: (id + 1) as u64, ..*old(counters) }),
{
    let id = counters.aje;
    counters.aje = id + 1;
    id
}

/// Takes the id of the next line of an adjusting journal entry.
pub fn next_aje_line_item_id(counters: &mut IdCounters) -> (id: u64)
    requires
        old(counters).aje_line_item < u64::MAX,
    ensures
        id == old(counters).aje_line_item,
        *final(counters) == (IdCounters { aje_line_item: (id + 1) as u64, ..*old(counters) }),
{
    let id = counters.aje_line_item;
    counters.aje_line_item = id + 1;
    id
}

/// Takes the id of the next financial statement.
pub fn next_fs_id(counters: &mut IdCounters) -> (id: u64)
    requires
        old(counters).fs < u64::MAX,
    ensures
        id == old(counters).fs,
        *final(counters) == (IdCounters { fs: (id + 1) as u64, ..*old(counters) }),
{
    let id = counters.fs;
    counters.fs = id + 1;
    id
}

/// Takes the id of the next engagement setup template.
pub fn next_template_id(counters: &mut IdCounters) -> (id: u64)
    requires
        old(counters).template < u64::MAX,
    ensures
        id == old(counters).template,
        *final(counters) == (IdCounters { template: (id + 1) as u64, ..*old(counters) }),
{
    let id = counters.template;
    counters.template = id + 1;
    id
}

/// Takes the id of the next milestone.
pub fn next_milestone_id(counters: &mut IdCounters) -> (id: u64)
    requires
        old(counters).milestone < u64::MAX,
    ensures
        id == old(counters).milestone,
        *final(counters) == (IdCounters { milestone: (id + 1) as u64, ..*old(counters) }),
{
    let id = counters.milestone;
    counters.milestone = id + 1;
    id
}

/// Takes the id of the next budget.
pub fn next_budget_id(counters: &mut IdCounters) -> (id: u64)
    requires
        old(counters).budget < u64::MAX,
    ensures
        id == old(counters).budget,
        *final(counters) == (IdCounters { budget: (id + 1) as u64, ..*old(counters) }),
{
    let id = counters.budget;
    counters.budget = id + 1;
    id
}

/// Takes the id of the next time entry.
pub fn next_time_entry_id(counters: &mut IdCounters) -> (id: u64)
    requires
        old(counters).time_entry < u64::MAX,
    ensures
        id == old(counters).time_entry,
        *final(counters) == (IdCounters { time_entry: (id + 1) as u64, ..*old(counters) }),
{
    let id = counters.time_entry;
    counters.time_entry = id + 1;
    id
}

/// Takes the id of the next client acceptance.
pub fn next_acceptance_id(counters: &mut IdCounters) -> (id: u64)
    requires
        old(counters).acceptance < u64::MAX,
    ensures
        id == old(counters).acceptance,
        *final(counters) == (IdCounters { acceptance: (id + 1) as u64, ..*old(counters) }),
{
    let id = counters.acceptance;
    counters.acceptance = id + 1;
    id
}

/// Takes the id of the next engagement letter.
pub fn next_letter_id(counters: &mut IdCounters) -> (id: u64)
    requires
        old(counters).letter < u64::MAX,
    ensures
        id == old(counters).letter,
        *final(counters) == (IdCounters { letter: (id + 1) as u64, ..*old(counters) }),
{
    let id = counters.letter;
    counters.letter = id + 1;
    id
}

/// Takes the id of the next conflict check.
pub fn next_conflict_check_id(counters: &mut IdCounters) -> (id: u64)
    requires
        old(counters).conflict_check < u64::MAX,
    ensures
        id == old(counters).conflict_check,
        *final(counters) == (IdCounters { conflict_check: (id + 1) as u64, ..*old(counters) }),
{
    let id = counters.conflict_check;
    counters.conflict_check = id + 1;
    id
}

} // verus!
