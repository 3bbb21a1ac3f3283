use crate::auth::{can_view_activity_log, has_user, UserDirectory};
use crate::entry::{entry_views, ActivityLogEntry, EntryView};
use crate::error::LedgerError;
use crate::hash::same_text;
use crate::ledger::Ledger;
use crate::order::{
    arrange, lemma_stable_order, occurs, positions, sort_positions, stable_order, stands_before,
};
use crate::principal::Principal;
use vstd::prelude::*;

verus! {

/// The number of entries that a query returns where the caller names none.
pub const DEFAULT_LIMIT: u64 = 100;

/// Which entries a query is about.
pub enum LogFilter<'a> {
    /// All of them.
    All,
    /// Those that the given principal caused.
    ByActor(&'a Principal),
    /// Those about the resource of the given type and id.
    ByResource(&'a str, &'a str),
}

/// What a filter asks for, as mathematical values.
pub enum FilterView {
    All,
    ByActor(Seq<u8>),
    ByResource(Seq<char>, Seq<char>),
}

impl<'a> View for LogFilter<'a> {
    type V = FilterView;

    open spec fn view(&self) -> FilterView {
        match self {
            LogFilter::All => FilterView::All,
            LogFilter::ByActor(p) => FilterView::ByActor(p@),
            LogFilter::ByResource(t, i) => FilterView::ByResource(t@, i@),
        }
    }
}

/// Whether the filter lets the entry through.
pub open spec fn admits(filter: FilterView, e: EntryView) -> bool {
    match filter {
        FilterView::All => true,
        FilterView::ByActor(p) => e.principal == p,
        FilterView::ByResource(t, i) => e.resource_type == t && e.resource_id == i,
    }
}

/// The entries that the filter lets through, in their order.
pub open spec fn select(entries: Seq<EntryView>, filter: FilterView) -> Seq<EntryView>
    decreases entries.len(),
{
    if entries.len() == 0 {
        entries
    } else {
        let rest = select(entries.drop_last(), filter);
        if admits(filter, entries.last()) {
            rest.push(entries.last())
        } else {
            rest
        }
    }
}

/// The timestamps of the entries, in the same order.
pub open spec fn timestamps(entries: Seq<EntryView>) -> Seq<u64> {
    Seq::new(entries.len(), |i: int| entries[i].timestamp)
}

/// The entries with the newest first; entries of one timestamp keep their
/// order.
pub open spec fn newest_first(entries: Seq<EntryView>) -> Seq<EntryView> {
    arrange(entries, stable_order(timestamps(entries), true))
}

/// Putting the newest first loses and invents nothing, and orders as it
/// says: every entry is still there, and no entry with a newer timestamp
/// stands behind an older one. (That entries of one timestamp stand as they
/// stood is part of `lemma_stable_order`.)
pub proof fn lemma_newest_first(entries: Seq<EntryView>)
    ensures
        newest_first(entries).len() == entries.len(),
        forall|i: int, j: int|
            0 <= i < j < entries.len() ==> (#[trigger] newest_first(entries)[i]).timestamp >= (
            #[trigger] newest_first(entries)[j]).timestamp,
        forall|k: int|
            0 <= k < entries.len() ==> exists|i: int|
                0 <= i < entries.len() && newest_first(entries)[i] == #[trigger] entries[k],
        forall|i: int|
            0 <= i < entries.len() ==> exists|k: int|
                0 <= k < entries.len() && #[trigger] newest_first(entries)[i] == entries[k],
{
    let keys = timestamps(entries);
    let order = stable_order(keys, true);
    let sorted = newest_first(entries);
    lemma_stable_order(keys, true);
    assert forall|i: int, j: int| 0 <= i < j < entries.len() implies (#[trigger] sorted[i]).timestamp
        >= (#[trigger] sorted[j]).timestamp by {
        assert(stands_before(keys, true, order[i], order[j]));
    }
    assert forall|k: int| 0 <= k < entries.len() implies exists|i: int|
        0 <= i < entries.len() && sorted[i] == #[trigger] entries[k] by {
        assert(occurs(order, k));
        let i = choose|i: int| 0 <= i < order.len() && #[trigger] order[i] == k;
        assert(sorted[i] == entries[k]);
    }
    assert forall|i: int| 0 <= i < entries.len() implies exists|k: int|
        0 <= k < entries.len() && #[trigger] sorted[i] == entries[k] by {
        assert(sorted[i] == entries[order[i]]);
    }
}

/// What the filter lets through is what it admits: each selected entry is
/// an entry that the filter admits, and each admitted entry is selected.
pub proof fn lemma_select(entries: Seq<EntryView>, filter: FilterView)
    ensures
        forall|i: int|
            0 <= i < select(entries, filter).len() ==> admits(
                filter,
                #[trigger] select(entries, filter)[i],
            ) && entries.contains(select(entries, filter)[i]),
        forall|k: int|
            0 <= k < entries.len() && admits(filter, #[trigger] entries[k]) ==> select(
                entries,
                filter,
            ).contains(entries[k]),
    decreases entries.len(),
{
    if entries.len() > 0 {
        let shorter = entries.drop_last();
        let rest = select(shorter, filter);
        let chosen = select(entries, filter);
        lemma_select(shorter, filter);
        assert forall|i: int| 0 <= i < chosen.len() implies admits(filter, #[trigger] chosen[i])
            && entries.contains(chosen[i]) by {
            if i < rest.len() {
                assert(chosen[i] == rest[i]);
                assert(shorter.contains(rest[i]));
                let k = choose|k: int| 0 <= k < shorter.len() && shorter[k] == rest[i];
                assert(entries[k] == rest[i]);
            } else {
                assert(chosen[i] == entries.last());
                assert(entries[entries.len() - 1] == entries.last());
            }
        }
        assert forall|k: int|
            0 <= k < entries.len() && admits(filter, #[trigger] entries[k]) implies chosen.contains(
            entries[k],
        ) by {
            if k < shorter.len() {
                assert(shorter[k] == entries[k]);
                assert(rest.contains(entries[k]));
                let i = choose|i: int| 0 <= i < rest.len() && rest[i] == entries[k];
                assert(chosen[i] == entries[k]);
            } else {
                assert(chosen[chosen.len() - 1] == entries[k]);
            }
        }
    }
}

/// The number of entries to return at most: the limit given, or 100.
pub open spec fn limit_of(limit: Option<u64>) -> int {
    match limit {
        Some(n) => n as int,
        None => DEFAULT_LIMIT as int,
    }
}

/// The first `n` entries, or all of them where there are fewer.
pub open spec fn first_up_to(entries: Seq<EntryView>, n: int) -> Seq<EntryView> {
    if 0 <= n < entries.len() {
        entries.take(n)
    } else {
        entries
    }
}

/// What a query returns: of the entries that the filter lets through, the
/// newest first, cut off at the limit. The cut comes after the sorting, so
/// that a new entry is never lost to older ones.
pub open spec fn page(entries: Seq<EntryView>, filter: FilterView, limit: Option<u64>) -> Seq<
    EntryView,
> {
    first_up_to(newest_first(select(entries, filter)), limit_of(limit))
}

/// `shown` holds the newest of what the filter admits, up to `limit`
/// entries: it is as long as the limit allows, its entries are admitted
/// entries with the newest first, and an admitted entry that is not shown
/// is not newer than the last entry shown.
pub open spec fn shows_newest(
    entries: Seq<EntryView>,
    filter: FilterView,
    limit: int,
    shown: Seq<EntryView>,
) -> bool {
    &&& shown.len() == if limit < select(entries, filter).len() {
        limit
    } else {
        select(entries, filter).len() as int
    }
    &&& forall|i: int, j: int|
        0 <= i < j < shown.len() ==> (#[trigger] shown[i]).timestamp >= (
        #[trigger] shown[j]).timestamp
    &&& forall|i: int|
        0 <= i < shown.len() ==> admits(filter, #[trigger] shown[i]) && entries.contains(shown[i])
    &&& forall|k: int|
        0 <= k < entries.len() && admits(filter, #[trigger] entries[k]) ==> shown.contains(
            entries[k],
        ) || (shown.len() == limit && (limit == 0 || entries[k].timestamp
            <= shown.last().timestamp))
}

/// Where an entry goes when the newest are put first.
proof fn lemma_newest_first_holds(chosen: Seq<EntryView>, c: int) -> (i: int)
    requires
        0 <= c < chosen.len(),
    ensures
        0 <= i < chosen.len(),
        newest_first(chosen).len() == chosen.len(),
        newest_first(chosen)[i] == chosen[c],
{
    let order = stable_order(timestamps(chosen), true);
    lemma_stable_order(timestamps(chosen), true);
    assert(occurs(order, c));
    let i = choose|i: int| 0 <= i < order.len() && #[trigger] order[i] == c;
    i
}

/// Of two entries, the one that comes first when the newest are put first
/// is not the older one, and both are entries that were there.
proof fn lemma_newest_first_at(chosen: Seq<EntryView>, i: int, j: int)
    requires
        0 <= i <= j < chosen.len(),
    ensures
        newest_first(chosen).len() == chosen.len(),
        newest_first(chosen)[i].timestamp >= newest_first(chosen)[j].timestamp,
        chosen.contains(newest_first(chosen)[i]),
{
    let keys = timestamps(chosen);
    let order = stable_order(keys, true);
    lemma_stable_order(keys, true);
    if i < j {
        assert(stands_before(keys, true, order[i], order[j]));
    }
    assert(0 <= order[i] < chosen.len());
    assert(chosen[order[i]] == newest_first(chosen)[i]);
}

proof fn lemma_page_complete(chosen: Seq<EntryView>, m: int, c: int)
    requires
        0 <= m,
        0 <= c < chosen.len(),
    ensures
        first_up_to(newest_first(chosen), m).contains(chosen[c]) || (m < chosen.len() && (m == 0
            || chosen[c].timestamp <= first_up_to(newest_first(chosen), m).last().timestamp)),
{
    let sorted = newest_first(chosen);
    let shown = first_up_to(sorted, m);
    let i = lemma_newest_first_holds(chosen, c);
    if i < shown.len() {
        assert(shown[i] == chosen[c]);
    } else if m > 0 {
        lemma_newest_first_at(chosen, m - 1, i);
        assert(shown.last() == sorted[m - 1]);
    }
}

/// A page holds the newest of what the filter admits.
pub proof fn lemma_page(entries: Seq<EntryView>, filter: FilterView, limit: Option<u64>)
    ensures
        shows_newest(entries, filter, limit_of(limit), page(entries, filter, limit)),
{
    let chosen = select(entries, filter);
    let sorted = newest_first(chosen);
    let shown = page(entries, filter, limit);
    let m = limit_of(limit);
    assert(sorted.len() == chosen.len()) by {
        lemma_stable_order(timestamps(chosen), true);
    }
    assert forall|i: int| 0 <= i < shown.len() implies admits(filter, #[trigger] shown[i])
        && entries.contains(shown[i]) by {
        lemma_newest_first_at(chosen, i, i);
        assert(shown[i] == sorted[i]);
        lemma_select(entries, filter);
        let k = choose|k: int| 0 <= k < chosen.len() && chosen[k] == shown[i];
        assert(admits(filter, chosen[k]));
    }
    assert forall|i: int, j: int| 0 <= i < j < shown.len() implies (#[trigger] shown[i]).timestamp
        >= (#[trigger] shown[j]).timestamp by {
        lemma_newest_first_at(chosen, i, j);
        assert(shown[i] == sorted[i] && shown[j] == sorted[j]);
    }
    assert forall|k: int| 0 <= k < entries.len() && admits(filter, #[trigger] entries[k]) implies shown.contains(
    entries[k]) || (shown.len() == m && (m == 0 || entries[k].timestamp
        <= shown.last().timestamp)) by {
        assert(chosen.contains(entries[k])) by {
            lemma_select(entries, filter);
        }
        let c = choose|c: int| 0 <= c < chosen.len() && chosen[c] == entries[k];
        lemma_page_complete(chosen, m, c);
    }
}

/// Whether the filter lets the entry through.
pub fn filter_admits(filter: &LogFilter, entry: &ActivityLogEntry) -> (yes: bool)
    ensures
        yes == admits(filter@, entry@),
{
    match filter {
        LogFilter::All => true,
        LogFilter::ByActor(p) => entry.principal.same_as(p),
        LogFilter::ByResource(t, i) => same_text(entry.resource_type.as_str(), t) && same_text(
            entry.resource_id.as_str(),
            i,
        ),
    }
}

/// The page of the ledger that the filter and the limit ask for.
pub fn collect_page(ledger: &Ledger, filter: &LogFilter, limit: Option<u64>) -> (logs: Vec<
    ActivityLogEntry,
>)
    ensures
        entry_views(logs@) == page(ledger@, filter@, limit),
        shows_newest(ledger@, filter@, limit_of(limit), entry_views(logs@)),
{
    let entries = ledger.entries();
    let ghost all = ledger@;
    let mut picked: Vec<usize> = Vec::new();
    let mut keys: Vec<u64> = Vec::new();
    let mut i: usize = 0;
    assert(all.take(0) =~= Seq::<EntryView>::empty());
    assert(arrange(all, positions(picked@)) =~= select(all.take(0), filter@));
    assert(keys@ =~= timestamps(select(all.take(0), filter@)));
    while i < entries.len()
        invariant
            i <= entries@.len(),
            all == entry_views(entries@),
            forall|k: int| 0 <= k < picked@.len() ==> #[trigger] picked@[k] < i,
            arrange(all, positions(picked@)) == select(all.take(i as int), filter@),
            keys@ == timestamps(select(all.take(i as int), filter@)),
        decreases entries@.len() - i,
    {
        let ghost chosen = select(all.take(i as int), filter@);
        proof {
            let more = all.take(i + 1);
            assert(more.drop_last() =~= all.take(i as int));
            assert(more.last() == all[i as int]);
            assert(all[i as int] == entries@[i as int]@);
        }
        if filter_admits(filter, &entries[i]) {
            picked.push(i);
            keys.push(entries[i].timestamp);
            proof {
                assert(arrange(all, positions(picked@)) =~= chosen.push(all[i as int]));
                assert(keys@ =~= timestamps(chosen.push(all[i as int])));
            }
        }
        i += 1;
    }
    assert(all.take(i as int) =~= all);
    let ghost chosen = select(all, filter@);
    let order = sort_positions(&keys, true);
    proof {
        lemma_stable_order(keys@, true);
        assert forall|k: int| 0 <= k < order@.len() implies 0 <= #[trigger] order@[k]
            < picked@.len() by {
            assert(positions(order@)[k] == order@[k]);
            assert(arrange(all, positions(picked@)).len() == picked@.len());
        }
    }
    let ghost sorted = newest_first(chosen);
    let max_entries = match limit {
        Some(n) => n,
        None => DEFAULT_LIMIT,
    };
    let keep: usize = if max_entries < order.len() as u64 {
        max_entries as usize
    } else {
        order.len()
    };
    let mut logs: Vec<ActivityLogEntry> = Vec::new();
    let mut k: usize = 0;
    assert(entry_views(logs@) =~= sorted.take(0));
    while k < keep
        invariant
            k <= keep <= order@.len(),
            order@.len() == picked@.len(),
            all == entry_views(entries@),
            chosen == arrange(all, positions(picked@)),
            sorted == arrange(chosen, positions(order@)),
            forall|j: int| 0 <= j < order@.len() ==> 0 <= #[trigger] order@[j] < picked@.len(),
            forall|j: int| 0 <= j < picked@.len() ==> #[trigger] picked@[j] < entries@.len(),
            entry_views(logs@) == sorted.take(k as int),
        decreases keep - k,
    {
        let ghost before = entry_views(logs@);
        let at = picked[order[k]];
        let copy = entries[at].clone();
        proof {
            assert(sorted[k as int] == chosen[order@[k as int] as int]);
            assert(chosen[order@[k as int] as int] == all[at as int]);
            assert(all[at as int] == entries@[at as int]@);
        }
        logs.push(copy);
        proof {
            assert(entry_views(logs@) =~= before.push(copy@));
            assert(entry_views(logs@) =~= sorted.take(k + 1));
        }
        k += 1;
    }
    proof {
        assert(sorted.len() == order@.len());
        if keep == order@.len() {
            assert(sorted.take(keep as int) =~= sorted);
        }
        lemma_page(ledger@, filter@, limit);
    }
    logs
}

/// The newest entries of the whole ledger, for a user who may view the
/// activity log.
pub fn get_activity_logs(
    ledger: &Ledger,
    users: &UserDirectory,
    caller: &Principal,
    limit: Option<u64>,
) -> (logs: Result<Vec<ActivityLogEntry>, LedgerError>)
    requires
        users.wf(),
    ensures
        match logs {
            Ok(l) => has_user(users@, caller@) && entry_views(l@) == page(
                ledger@,
                FilterView::All,
                limit,
            ) && shows_newest(ledger@, FilterView::All, limit_of(limit), entry_views(l@)),
            Err(e) => e == LedgerError::UserNotFound && !has_user(users@, caller@),
        },
{
    match users.get_user(caller) {
        None => Err(LedgerError::UserNotFound),
        Some(user) => {
            if !can_view_activity_log(user) {
                return Err(LedgerError::ViewDenied);
            }
            Ok(collect_page(ledger, &LogFilter::All, limit))
        },
    }
}

/// The newest entries that `target_principal` caused, for a user who may
/// view the activity log or who asks about themselves.
pub fn get_user_activity_logs(
    ledger: &Ledger,
    users: &UserDirectory,
    caller: &Principal,
    target_principal: &Principal,
    limit: Option<u64>,
) -> (logs: Result<Vec<ActivityLogEntry>, LedgerError>)
    requires
        users.wf(),
    ensures
        match logs {
            Ok(l) => has_user(users@, caller@) && entry_views(l@) == page(
                ledger@,
                FilterView::ByActor(target_principal@),
                limit,
            ) && shows_newest(
                ledger@,
                FilterView::ByActor(target_principal@),
                limit_of(limit),
                entry_views(l@),
            ),
            Err(e) => e == LedgerError::UserNotFound && !has_user(users@, caller@),
        },
{
    match users.get_user(caller) {
        None => Err(LedgerError::UserNotFound),
        Some(user) => {
            if !can_view_activity_log(user) && !caller.same_as(target_principal) {
                return Err(LedgerError::ViewDenied);
            }
            Ok(collect_page(ledger, &LogFilter::ByActor(target_principal), limit))
        },
    }
}

/// The newest entries about one resource, for a user who may view the
/// activity log.
pub fn get_resource_activity_logs(
    ledger: &Ledger,
    users: &UserDirectory,
    caller: &Principal,
    resource_type: &str,
    resource_id: &str,
    limit: Option<u64>,
) -> (logs: Result<Vec<ActivityLogEntry>, LedgerError>)
    requires
        users.wf(),
    ensures
        match logs {
            Ok(l) => has_user(users@, caller@) && entry_views(l@) == page(
                ledger@,
                FilterView::ByResource(resource_type@, resource_id@),
                limit,
            ) && shows_newest(
                ledger@,
                FilterView::ByResource(resource_type@, resource_id@),
                limit_of(limit),
                entry_views(l@),
            ),
            Err(e) => e == LedgerError::UserNotFound && !has_user(users@, caller@),
        },
{
    match users.get_user(caller) {
        None => Err(LedgerError::UserNotFound),
        Some(user) => {
            if !can_view_activity_log(user) {
                return Err(LedgerError::ViewDenied);
            }
            Ok(collect_page(ledger, &LogFilter::ByResource(resource_type, resource_id), limit))
        },
    }
}

} // verus!
