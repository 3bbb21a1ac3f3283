use crate::snapshot::{kind_label, SnapshotKind};
use vstd::prelude::*;
use vstd::string::StringExecFns;

verus! {

/// Why a call on the ledger was refused. Each refusal concerns the one call
/// that met it; the ledger stays as it was.
#[derive(Clone, Copy, Debug, PartialEq, Eq, Structural)]
pub enum LedgerError {
    /// The caller is not a known user.
    UserNotFound,
    /// No entry has the id that was asked for.
    EntryNotFound,
    /// The caller may not view the entries asked for.
    ViewDenied,
    /// The caller may not revert.
    RevertDenied,
    /// The entry recorded no state to go back to.
    NoSnapshot,
    /// No handler is registered for the resource type of the entry.
    UnsupportedRevert,
    /// The recorded state does not decode as the kind that the entry calls for.
    CorruptSnapshot(SnapshotKind),
    /// No organization has the id that was asked for.
    OrganizationNotFound,
}

/// The text that a refusal is reported with.
pub open spec fn error_text(error: LedgerError) -> Seq<char> {
    match error {
        LedgerError::UserNotFound => "User not found"@,
        LedgerError::EntryNotFound => "Activity log entry not found"@,
        LedgerError::ViewDenied => "Insufficient permissions to view activity log"@,
        LedgerError::RevertDenied => "Insufficient permissions to revert activity"@,
        LedgerError::NoSnapshot => "No snapshot available for this activity"@,
        LedgerError::UnsupportedRevert => "Revert not supported for this activity type"@,
        LedgerError::CorruptSnapshot(kind) => "Failed to decode "@ + kind_label(kind) + " snapshot"@,
        LedgerError::OrganizationNotFound => "Organization not found"@,
    }
}

impl LedgerError {
    /// The text that the refusal is reported with.
    pub fn message(&self) -> (text: String)
        ensures
            text@ == error_text(*self),
    {
        match self {
            LedgerError::UserNotFound => String::from_str("User not found"),
            LedgerError::EntryNotFound => String::from_str("Activity log entry not found"),
            LedgerError::ViewDenied => String::from_str(
                "Insufficient permissions to view activity log",
            ),
            LedgerError::RevertDenied => String::from_str(
                "Insufficient permissions to revert activity",
            ),
            LedgerError::NoSnapshot => String::from_str("No snapshot available for this activity"),
            LedgerError::UnsupportedRevert => String::from_str(
                "Revert not supported for this activity type",
            ),
            LedgerError::CorruptSnapshot(kind) => {
                let mut text = String::from_str("Failed to decode ");
                text.append(kind.label());
                text.append(" snapshot");
                text
            },
            LedgerError::OrganizationNotFound => String::from_str("Organization not found"),
        }
    }
}

} // verus!
