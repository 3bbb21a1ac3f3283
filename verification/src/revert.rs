use crate::auth::{has_user, is_partner_or_above, rank, user_with, UserDirectory, UserView};
use crate::entry::{bytes_view, clone_bytes, ActivityLogEntry, EntryView};
use crate::error::LedgerError;
use crate::ledger::{entry_with, has_entry, is_chain, log_activity, next_entry, Ledger};
use crate::principal::Principal;
use crate::snapshot::{kind_of, kind_of_snapshot, snapshot_kind, Snapshot, SnapshotKind};
use crate::store::{apply_snapshot, restored, ResourceStore};
use crate::text::{decimal_text, u64_to_text};
use vstd::prelude::*;
use vstd::string::StringExecFns;

verus! {

/// The action under which the revert of an action is recorded.
pub open spec fn revert_action(action: Seq<char>) -> Seq<char> {
    "revert_"@ + action
}

/// The details with which a revert is recorded.
pub open spec fn revert_details(
    resource_type: Seq<char>,
    resource_id: Seq<char>,
    entry_id: u64,
) -> Seq<char> {
    "Reverted "@ + resource_type + " "@ + resource_id + " to activity entry "@ + decimal_text(
        entry_id as nat,
    )
}

/// Why the ledger refuses to revert the entry for the caller, if it does.
/// The checks come in this order: the caller is a known user; the caller is
/// a partner or above; the entry exists; it recorded state; a revert is
/// registered for its resource type and action.
pub open spec fn revert_refusal(
    entries: Seq<EntryView>,
    users: Seq<UserView>,
    caller: Seq<u8>,
    entry_id: u64,
) -> Option<LedgerError> {
    if !has_user(users, caller) {
        Some(LedgerError::UserNotFound)
    } else if rank(user_with(users, caller).role) < 4 {
        Some(LedgerError::RevertDenied)
    } else if !has_entry(entries, entry_id) {
        Some(LedgerError::EntryNotFound)
    } else if entry_with(entries, entry_id).snapshot is None {
        Some(LedgerError::NoSnapshot)
    } else if kind_of(
        entry_with(entries, entry_id).resource_type,
        entry_with(entries, entry_id).action,
    ) is None {
        Some(LedgerError::UnsupportedRevert)
    } else {
        None
    }
}

/// Why decoded state is refused, if it is: nothing was decoded, or what was
/// decoded is not of the kind that the entry calls for.
pub open spec fn decode_refusal(kind: SnapshotKind, decoded: Option<Snapshot>) -> Option<
    LedgerError,
> {
    match decoded {
        None => Some(LedgerError::CorruptSnapshot(kind)),
        Some(snapshot) => if kind_of_snapshot(snapshot) == kind {
            None
        } else {
            Some(LedgerError::CorruptSnapshot(kind))
        },
    }
}

/// What has to be decoded before an entry can be reverted.
#[derive(Debug)]
pub struct RevertPlan {
    pub entry_id: u64,
    /// The kind of state that the bytes have to decode as.
    pub kind: SnapshotKind,
    /// The recorded state as the entry holds it.
    pub snapshot: Vec<u8>,
}

/// Decides whether the caller may revert the entry, and as what its
/// recorded state has to be decoded. Nothing is changed.
pub fn plan_revert(
    ledger: &Ledger,
    users: &UserDirectory,
    caller: &Principal,
    entry_id: u64,
) -> (plan: Result<RevertPlan, LedgerError>)
    requires
        ledger.wf(),
        users.wf(),
    ensures
        match plan {
            Ok(p) => {
                let entry = entry_with(ledger@, entry_id);
                &&& revert_refusal(ledger@, users@, caller@, entry_id) is None
                &&& p.entry_id == entry_id
                &&& Some(p.kind) == kind_of(entry.resource_type, entry.action)
                &&& Some(p.snapshot@) == entry.snapshot
            },
            Err(e) => revert_refusal(ledger@, users@, caller@, entry_id) == Some(e),
        },
{
    let user = match users.get_user(caller) {
        Some(user) => user,
        None => {
            return Err(LedgerError::UserNotFound);
        },
    };
    if !is_partner_or_above(user) {
        return Err(LedgerError::RevertDenied);
    }
    let entry = match ledger.get(entry_id) {
        Some(entry) => entry,
        None => {
            return Err(LedgerError::EntryNotFound);
        },
    };
    let snapshot = match &entry.snapshot {
        Some(bytes) => {
            let copy = bytes.clone();
            assert(copy@ =~= bytes@);
            copy
        },
        None => {
            return Err(LedgerError::NoSnapshot);
        },
    };
    match snapshot_kind(entry.resource_type.as_str(), entry.action.as_str()) {
        Some(kind) => Ok(RevertPlan { entry_id, kind, snapshot }),
        None => Err(LedgerError::UnsupportedRevert),
    }
}

/// Reverts the resource of an entry to the state that the entry recorded.
///
/// `decoded` is the recorded state of the entry, decoded as the kind that
/// `plan_revert` named, or `None` where the bytes did not decode;
/// `new_snapshot` is the state to record with the revert, so that the
/// revert can be reverted in turn.
///
/// On success the decoded state is put back into the store, and one entry
/// is appended for the caller: its action is the action of the reverted
/// entry with `revert_` before it, its resource is the resource of that
/// entry, and it links to the chain tail like any other append. The
/// reverted entry stays as it is. On any refusal neither the ledger nor the
/// store changes.
pub fn revert_activity_entry(
    ledger: &mut Ledger,
    store: &mut ResourceStore,
    users: &UserDirectory,
    caller: &Principal,
    entry_id: u64,
    decoded: Option<Snapshot>,
    new_snapshot: Option<Vec<u8>>,
    now: u64,
) -> (outcome: Result<ActivityLogEntry, LedgerError>)
    requires
        old(ledger).wf(),
        old(ledger).has_room(),
        old(store).wf(),
        users.wf(),
    ensures
        final(ledger).wf(),
        final(store).wf(),
        is_chain(old(ledger)@) ==> is_chain(final(ledger)@),
        match outcome {
            Ok(entry) => {
                let target = entry_with(old(ledger)@, entry_id);
                &&& revert_refusal(old(ledger)@, users@, caller@, entry_id) is None
                &&& decode_refusal(
                    kind_of(target.resource_type, target.action)->0,
                    decoded,
                ) is None
                &&& final(store)@ == restored(old(store)@, decoded->0)
                &&& final(ledger)@ == old(ledger)@.push(entry@)
                &&& final(ledger).next_id() == old(ledger).next_id() + 1
                &&& entry@ == next_entry(
                    old(ledger)@,
                    old(ledger).next_id(),
                    caller@,
                    revert_action(target.action),
                    target.resource_type,
                    target.resource_id,
                    revert_details(target.resource_type, target.resource_id, entry_id),
                    bytes_view(new_snapshot),
                    now,
                )
            },
            Err(e) => {
                &&& final(ledger)@ == old(ledger)@
                &&& final(ledger).next_id() == old(ledger).next_id()
                &&& final(store)@ == old(store)@
                &&& match revert_refusal(old(ledger)@, users@, caller@, entry_id) {
                    Some(refusal) => e == refusal,
                    None => {
                        let target = entry_with(old(ledger)@, entry_id);
                        Some(e) == decode_refusal(
                            kind_of(target.resource_type, target.action)->0,
                            decoded,
                        )
                    },
                }
            },
        },
{
    let plan = match plan_revert(ledger, users, caller, entry_id) {
        Ok(plan) => plan,
        Err(e) => {
            return Err(e);
        },
    };
    let snapshot = match decoded {
        Some(snapshot) => snapshot,
        None => {
            return Err(LedgerError::CorruptSnapshot(plan.kind));
        },
    };
    if snapshot.kind() != plan.kind {
        return Err(LedgerError::CorruptSnapshot(plan.kind));
    }
    let (action, resource_type, resource_id) = match ledger.get(entry_id) {
        Some(entry) => {
            let mut action = String::from_str("revert_");
            action.append(entry.action.as_str());
            (action, entry.resource_type.clone(), entry.resource_id.clone())
        },
        None => {
            return Err(LedgerError::EntryNotFound);
        },
    };
    let mut details = String::from_str("Reverted ");
    details.append(resource_type.as_str());
    details.append(" ");
    details.append(resource_id.as_str());
    details.append(" to activity entry ");
    let number = u64_to_text(entry_id);
    details.append(number.as_str());
    apply_snapshot(store, snapshot);
    let entry = log_activity(
        ledger,
        caller.clone(),
        action,
        resource_type,
        resource_id,
        details,
        new_snapshot,
        now,
    );
    Ok(entry)
}

} // verus!
