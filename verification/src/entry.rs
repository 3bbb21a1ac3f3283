use crate::hash::{digest_hex, entry_content, signature_content};
use crate::principal::{principal_text, Principal};
use vstd::prelude::*;

verus! {

/// One record of the activity ledger. It is written once, by an append, and
/// never changed afterwards.
#[derive(Debug)]
pub struct ActivityLogEntry {
    pub id: u64,
    pub principal: Principal,
    pub action: String,
    pub resource_type: String,
    pub resource_id: String,
    pub details: String,
    pub timestamp: u64,
    /// Digest of the identifying fields and the details.
    pub data_hash: String,
    /// Digest that the next entry of the chain refers to.
    pub signature: String,
    /// Signature of the previous entry, or the genesis sentinel.
    pub previous_hash: String,
    pub block_height: u64,
    /// Serialized state of the resource, where the action can be reverted.
    pub snapshot: Option<Vec<u8>>,
}

/// What an entry holds, as mathematical values.
pub struct EntryView {
    pub id: u64,
    pub principal: Seq<u8>,
    pub action: Seq<char>,
    pub resource_type: Seq<char>,
    pub resource_id: Seq<char>,
    pub details: Seq<char>,
    pub timestamp: u64,
    pub data_hash: Seq<char>,
    pub signature: Seq<char>,
    pub previous_hash: Seq<char>,
    pub block_height: u64,
    pub snapshot: Option<Seq<u8>>,
}

/// The view of an optional byte string.
pub open spec fn bytes_view(bytes: Option<Vec<u8>>) -> Option<Seq<u8>> {
    match bytes {
        Some(b) => Some(b@),
        None => None,
    }
}

impl View for ActivityLogEntry {
    type V = EntryView;

    open spec fn view(&self) -> EntryView {
        EntryView {
            id: self.id,
            principal: self.principal@,
            action: self.action@,
            resource_type: self.resource_type@,
            resource_id: self.resource_id@,
            details: self.details@,
            timestamp: self.timestamp,
            data_hash: self.data_hash@,
            signature: self.signature@,
            previous_hash: self.previous_hash@,
            block_height: self.block_height,
            snapshot: bytes_view(self.snapshot),
        }
    }
}

/// Copies an optional byte string.
pub fn clone_bytes(bytes: &Option<Vec<u8>>) -> (copy: Option<Vec<u8>>)
    ensures
        bytes_view(copy) == bytes_view(*bytes),
{
    match bytes {
        Some(b) => {
            let c = b.clone();
            assert(c@ =~= b@);
            Some(c)
        },
        None => None,
    }
}

impl Clone for ActivityLogEntry {
    fn clone(&self) -> (copy: ActivityLogEntry)
        ensures
            copy@ == self@,
    {
        ActivityLogEntry {
            id: self.id,
            principal: self.principal.clone(),
            action: self.action.clone(),
            resource_type: self.resource_type.clone(),
            resource_id: self.resource_id.clone(),
            details: self.details.clone(),
            timestamp: self.timestamp,
            data_hash: self.data_hash.clone(),
            signature: self.signature.clone(),
            previous_hash: self.previous_hash.clone(),
            block_height: self.block_height,
            snapshot: clone_bytes(&self.snapshot),
        }
    }
}

/// The views of a sequence of entries, in the same order.
pub open spec fn entry_views(entries: Seq<ActivityLogEntry>) -> Seq<EntryView> {
    Seq::new(entries.len(), |i: int| entries[i]@)
}

/// The data hash that the fields of an entry call for.
pub open spec fn expected_data_hash(e: EntryView) -> Seq<char> {
    digest_hex(
        entry_content(
            e.id,
            principal_text(e.principal),
            e.action,
            e.resource_type,
            e.resource_id,
            e.details,
        ),
    )
}

/// The signature that the fields of an entry call for.
pub open spec fn expected_signature(e: EntryView) -> Seq<char> {
    digest_hex(
        signature_content(
            e.id,
            principal_text(e.principal),
            e.action,
            e.resource_type,
            e.resource_id,
            e.timestamp,
            e.previous_hash,
        ),
    )
}

/// An entry is sealed when its stored data hash and signature are the ones
/// that its other fields call for.
pub open spec fn sealed(e: EntryView) -> bool {
    e.data_hash == expected_data_hash(e) && e.signature == expected_signature(e)
}

} // verus!
