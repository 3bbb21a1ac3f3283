use crate::auth::{has_user, UserDirectory};
use crate::blockchain_proof::{
    by_height, chain_valid, heights, link_holds, links_hold, proof_views, verify_chain,
    BlockchainProof, ProofView, VerdictView, VerificationResult,
};
use crate::entry::{
    entry_views, expected_data_hash, expected_signature, sealed, ActivityLogEntry, EntryView,
};
use crate::error::LedgerError;
use crate::hash::{
    entry_content, frameable, generate_data_hash, generate_signature,
    lemma_entry_content_injective, same_text,
};
use crate::ledger::{
    entry_with, has_entry, is_chain, lemma_append_extends_chain, lemma_chain_heights, next_entry,
    Ledger,
};
use crate::order::lemma_order_of_arranged;
use crate::principal::principal_text;
use crate::principal::Principal;
use vstd::prelude::*;
use vstd::string::StringExecFns;

verus! {

/// The proof of an entry: what of it an outsider needs to check it again.
pub open spec fn proof_of(e: EntryView) -> ProofView {
    ProofView {
        entry_id: e.id,
        data_hash: e.data_hash,
        timestamp: e.timestamp,
        block_height: e.block_height,
        signature: e.signature,
        previous_hash: e.previous_hash,
    }
}

/// The proofs of a sequence of entries, in the same order.
pub open spec fn proofs_of(entries: Seq<EntryView>) -> Seq<ProofView> {
    Seq::new(entries.len(), |i: int| proof_of(entries[i]))
}

/// The message on an entry that checks out.
pub open spec fn entry_ok_text() -> Seq<char> {
    "Entry verified successfully - blockchain integrity confirmed"@
}

/// The message on an entry whose stored data hash is not the hash of its data.
pub open spec fn entry_hash_mismatch_text() -> Seq<char> {
    "Data hash mismatch - entry data may have been tampered with"@
}

/// The message on an entry whose data hash is right and whose stored
/// signature is not the one that its fields call for.
pub open spec fn entry_signature_mismatch_text() -> Seq<char> {
    "Signature verification failed - entry may have been modified"@
}

/// The verdict on an entry, checked at the time `now`.
pub open spec fn entry_verdict(e: EntryView, now: u64) -> VerdictView {
    let hash_matches = e.data_hash == expected_data_hash(e);
    VerdictView {
        is_valid: sealed(e),
        entry_id: e.id,
        timestamp: e.timestamp,
        data_hash: expected_data_hash(e),
        block_height: e.block_height,
        verification_timestamp: now,
        chain_integrity: sealed(e),
        message: if sealed(e) {
            entry_ok_text()
        } else if !hash_matches {
            entry_hash_mismatch_text()
        } else {
            entry_signature_mismatch_text()
        },
    }
}

/// The proof of one entry.
pub fn proof_of_entry(entry: &ActivityLogEntry) -> (proof: BlockchainProof)
    ensures
        proof@ == proof_of(entry@),
{
    BlockchainProof {
        entry_id: entry.id,
        data_hash: entry.data_hash.clone(),
        timestamp: entry.timestamp,
        block_height: entry.block_height,
        signature: entry.signature.clone(),
        previous_hash: entry.previous_hash.clone(),
    }
}

/// The proof of the entry with the given id. Anybody may ask for it.
pub fn get_blockchain_proof(
    ledger: &Ledger,
    entry_id: u64,
) -> (outcome: Result<BlockchainProof, LedgerError>)
    requires
        ledger.wf(),
    ensures
        match outcome {
            Ok(p) => has_entry(ledger@, entry_id) && p@ == proof_of(entry_with(ledger@, entry_id)),
            Err(e) => e == LedgerError::EntryNotFound && !has_entry(ledger@, entry_id),
        },
{
    match ledger.get(entry_id) {
        Some(entry) => Ok(proof_of_entry(entry)),
        None => Err(LedgerError::EntryNotFound),
    }
}

/// Checks one entry at the time `now`: computes its data hash and its
/// signature again from its fields and holds them against the stored ones.
pub fn verify_entry(entry: &ActivityLogEntry, now: u64) -> (verdict: VerificationResult)
    ensures
        verdict@ == entry_verdict(entry@, now),
{
    let computed_hash = generate_data_hash(
        entry.id,
        &entry.principal,
        entry.action.as_str(),
        entry.resource_type.as_str(),
        entry.resource_id.as_str(),
        entry.details.as_str(),
    );
    let hash_matches = same_text(computed_hash.as_str(), entry.data_hash.as_str());
    let signature = generate_signature(
        entry.id,
        &entry.principal,
        entry.action.as_str(),
        entry.resource_type.as_str(),
        entry.resource_id.as_str(),
        entry.timestamp,
        entry.previous_hash.as_str(),
    );
    let signature_matches = same_text(signature.as_str(), entry.signature.as_str());
    let is_valid = hash_matches && signature_matches;
    let message = if is_valid {
        String::from_str("Entry verified successfully - blockchain integrity confirmed")
    } else if !hash_matches {
        String::from_str("Data hash mismatch - entry data may have been tampered with")
    } else {
        String::from_str("Signature verification failed - entry may have been modified")
    };
    VerificationResult {
        is_valid,
        entry_id: entry.id,
        timestamp: entry.timestamp,
        data_hash: computed_hash,
        block_height: entry.block_height,
        verification_timestamp: now,
        chain_integrity: is_valid,
        message,
    }
}

/// Checks the entry with the given id for a known user. A tampered entry is
/// no error: the verdict says so.
pub fn verify_activity_log(
    ledger: &Ledger,
    users: &UserDirectory,
    caller: &Principal,
    entry_id: u64,
    now: u64,
) -> (verdict: Result<VerificationResult, LedgerError>)
    requires
        ledger.wf(),
        users.wf(),
    ensures
        match verdict {
            Ok(v) => has_user(users@, caller@) && has_entry(ledger@, entry_id) && v@
                == entry_verdict(entry_with(ledger@, entry_id), now),
            Err(e) => if !has_user(users@, caller@) {
                e == LedgerError::UserNotFound
            } else {
                e == LedgerError::EntryNotFound && !has_entry(ledger@, entry_id)
            },
        },
{
    if users.get_user(caller).is_none() {
        return Err(LedgerError::UserNotFound);
    }
    match ledger.get(entry_id) {
        Some(entry) => Ok(verify_entry(entry, now)),
        None => Err(LedgerError::EntryNotFound),
    }
}

/// The proofs of all entries, in the order of the ledger.
pub fn ledger_proofs(ledger: &Ledger) -> (proofs: Vec<BlockchainProof>)
    ensures
        proof_views(proofs@) == proofs_of(ledger@),
{
    let entries = ledger.entries();
    let mut proofs: Vec<BlockchainProof> = Vec::new();
    let mut i: usize = 0;
    while i < entries.len()
        invariant
            i <= entries@.len(),
            entry_views(entries@) == ledger@,
            proof_views(proofs@) == proofs_of(ledger@).take(i as int),
        decreases entries@.len() - i,
    {
        let ghost before = proof_views(proofs@);
        let p = proof_of_entry(&entries[i]);
        assert(p@ == proof_of(ledger@[i as int])) by {
            assert(entry_views(entries@)[i as int] == entries@[i as int]@);
        }
        proofs.push(p);
        assert(proof_views(proofs@) =~= before.push(p@));
        assert(proof_views(proofs@) =~= proofs_of(ledger@).take(i + 1));
        i += 1;
    }
    assert(proofs_of(ledger@).take(i as int) =~= proofs_of(ledger@));
    proofs
}

/// Checks the whole ledger for a known user: put in the order of their
/// block heights, each entry has to refer to the signature of the one
/// before it and stand one block higher. One broken link anywhere makes the
/// answer `false`; an empty ledger is a valid chain.
pub fn verify_blockchain_chain(
    ledger: &Ledger,
    users: &UserDirectory,
    caller: &Principal,
) -> (ok: Result<bool, LedgerError>)
    requires
        users.wf(),
    ensures
        match ok {
            Ok(valid) => has_user(users@, caller@) && valid == chain_valid(proofs_of(ledger@)),
            Err(e) => e == LedgerError::UserNotFound && !has_user(users@, caller@),
        },
{
    if users.get_user(caller).is_none() {
        return Err(LedgerError::UserNotFound);
    }
    let proofs = ledger_proofs(ledger);
    Ok(verify_chain(&proofs))
}

/// A chain verifies: entries that form one chain in the order of their ids
/// pass the check of the whole ledger.
pub proof fn lemma_chain_verifies(entries: Seq<EntryView>)
    requires
        is_chain(entries),
    ensures
        chain_valid(proofs_of(entries)),
{
    lemma_chain_heights(entries);
    let proofs = proofs_of(entries);
    let keys = heights(proofs);
    lemma_order_of_arranged(keys, keys.len(), false);
    assert(by_height(proofs) =~= proofs);
    assert forall|i: int| 0 < i < proofs.len() implies link_holds(
        #[trigger] proofs[i],
        proofs[i - 1],
    ) by {
        assert(entries[i].previous_hash == entries[i - 1].signature);
    }
}

/// What one append is given.
pub struct AppendInput {
    pub principal: Seq<u8>,
    pub action: Seq<char>,
    pub resource_type: Seq<char>,
    pub resource_id: Seq<char>,
    pub details: Seq<char>,
    pub snapshot: Option<Seq<u8>>,
    pub timestamp: u64,
}

/// The entries of a ledger that started empty and took the given appends,
/// one after the other, with ids from 1.
pub open spec fn after_appends(inputs: Seq<AppendInput>) -> Seq<EntryView>
    decreases inputs.len(),
{
    if inputs.len() == 0 {
        Seq::empty()
    } else {
        let prior = after_appends(inputs.drop_last());
        let input = inputs.last();
        prior.push(
            next_entry(
                prior,
                inputs.len() as u64,
                input.principal,
                input.action,
                input.resource_type,
                input.resource_id,
                input.details,
                input.snapshot,
                input.timestamp,
            ),
        )
    }
}

/// Any number of appends to an empty ledger give one chain: each entry but
/// the first refers to the signature of the one before it, and the check of
/// the whole ledger passes.
pub proof fn lemma_appends_give_a_valid_chain(inputs: Seq<AppendInput>)
    requires
        inputs.len() < u64::MAX,
    ensures
        after_appends(inputs).len() == inputs.len(),
        is_chain(after_appends(inputs)),
        forall|i: int|
            0 < i < inputs.len() ==> (#[trigger] after_appends(inputs)[i]).previous_hash
                == after_appends(inputs)[i - 1].signature,
        chain_valid(proofs_of(after_appends(inputs))),
    decreases inputs.len(),
{
    if inputs.len() > 0 {
        let prior = after_appends(inputs.drop_last());
        let input = inputs.last();
        lemma_appends_give_a_valid_chain(inputs.drop_last());
        lemma_chain_heights(prior);
        lemma_append_extends_chain(
            prior,
            inputs.len() as u64,
            input.principal,
            input.action,
            input.resource_type,
            input.resource_id,
            input.details,
            input.snapshot,
            input.timestamp,
        );
    }
    lemma_chain_verifies(after_appends(inputs));
}

/// A forged signature breaks the chain: where the signature of any entry
/// but the last of a chain is replaced by another one, the check of the
/// whole ledger fails, because the next entry still refers to the old one.
pub proof fn lemma_forged_signature_breaks_chain(
    entries: Seq<EntryView>,
    k: int,
    forged: Seq<char>,
)
    requires
        is_chain(entries),
        0 <= k < entries.len() - 1,
        forged != entries[k].signature,
    ensures
        !chain_valid(proofs_of(entries.update(k, EntryView { signature: forged, ..entries[k] }))),
{
    lemma_chain_heights(entries);
    let changed = entries.update(k, EntryView { signature: forged, ..entries[k] });
    let proofs = proofs_of(changed);
    let keys = heights(proofs);
    assert forall|i: int| 0 <= i < keys.len() implies keys[i] == i by {
        assert(changed[i].block_height == entries[i].block_height);
    }
    lemma_order_of_arranged(keys, keys.len(), false);
    assert(by_height(proofs) =~= proofs);
    assert(entries[k + 1].previous_hash == entries[k].signature);
    assert(proofs[k + 1].previous_hash != proofs[k].signature);
    assert(!link_holds(proofs[k + 1], proofs[k]));
}

/// The bytes that the data hash of an entry is the digest of.
pub open spec fn content_of(e: EntryView) -> Seq<u8> {
    entry_content(
        e.id,
        principal_text(e.principal),
        e.action,
        e.resource_type,
        e.resource_id,
        e.details,
    )
}

/// Whether each text of the entry that goes into its data hash can be framed.
pub open spec fn content_frameable(e: EntryView) -> bool {
    &&& frameable(principal_text(e.principal))
    &&& frameable(e.action)
    &&& frameable(e.resource_type)
    &&& frameable(e.resource_id)
    &&& frameable(e.details)
}

/// A change of the id, the action, the resource or the details of an entry
/// changes the bytes that its data hash is the digest of.
pub proof fn lemma_tampering_changes_content(stored: EntryView, tampered: EntryView)
    requires
        content_frameable(stored),
        content_frameable(tampered),
        stored.id != tampered.id || stored.action != tampered.action || stored.resource_type
            != tampered.resource_type || stored.resource_id != tampered.resource_id
            || stored.details != tampered.details,
    ensures
        content_of(stored) != content_of(tampered),
{
    if content_of(stored) == content_of(tampered) {
        lemma_entry_content_injective(
            stored.id,
            principal_text(stored.principal),
            stored.action,
            stored.resource_type,
            stored.resource_id,
            stored.details,
            tampered.id,
            principal_text(tampered.principal),
            tampered.action,
            tampered.resource_type,
            tampered.resource_id,
            tampered.details,
        );
    }
}

/// Tampered data is detected: where fields of a sealed entry were changed
/// and the stored data hash was left, the verdict is invalid and blames the
/// data hash, unless the digest of the changed content collides with the
/// digest of the content as it was sealed.
pub proof fn lemma_tampered_data_detected(stored: EntryView, tampered: EntryView, now: u64)
    requires
        sealed(stored),
        tampered.data_hash == stored.data_hash,
        expected_data_hash(tampered) != expected_data_hash(stored),
    ensures
        !entry_verdict(tampered, now).is_valid,
        !entry_verdict(tampered, now).chain_integrity,
        entry_verdict(tampered, now).message == entry_hash_mismatch_text(),
{
}

/// The verdict on an entry depends on that entry alone: tampering with one
/// entry leaves the verdicts on all others as they were.
pub proof fn lemma_other_entries_unaffected(
    entries: Seq<EntryView>,
    k: int,
    tampered: EntryView,
    j: int,
    now: u64,
)
    requires
        0 <= k < entries.len(),
        0 <= j < entries.len(),
        j != k,
    ensures
        entry_verdict(entries.update(k, tampered)[j], now) == entry_verdict(entries[j], now),
{
}

} // verus!
