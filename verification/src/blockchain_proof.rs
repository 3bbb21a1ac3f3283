use crate::hash::{
    digest_hex, generate_hash, hash_bytes, push_text, push_u64, same_text, text_frame, u64_bytes,
};
use crate::order::{arrange, lemma_stable_order, positions, sort_positions, stable_order};
use vstd::prelude::*;
use vstd::string::StringExecFns;
use vstd::utf8::encode_utf8;

verus! {

/// What is needed to check an entry again elsewhere, without the ledger.
#[derive(Debug)]
pub struct BlockchainProof {
    pub entry_id: u64,
    pub data_hash: String,
    pub timestamp: u64,
    pub block_height: u64,
    pub signature: String,
    pub previous_hash: String,
}

/// What a proof holds, as mathematical values.
pub struct ProofView {
    pub entry_id: u64,
    pub data_hash: Seq<char>,
    pub timestamp: u64,
    pub block_height: u64,
    pub signature: Seq<char>,
    pub previous_hash: Seq<char>,
}

impl View for BlockchainProof {
    type V = ProofView;

    open spec fn view(&self) -> ProofView {
        ProofView {
            entry_id: self.entry_id,
            data_hash: self.data_hash@,
            timestamp: self.timestamp,
            block_height: self.block_height,
            signature: self.signature@,
            previous_hash: self.previous_hash@,
        }
    }
}

impl Clone for BlockchainProof {
    fn clone(&self) -> (copy: BlockchainProof)
        ensures
            copy@ == self@,
    {
        BlockchainProof {
            entry_id: self.entry_id,
            data_hash: self.data_hash.clone(),
            timestamp: self.timestamp,
            block_height: self.block_height,
            signature: self.signature.clone(),
            previous_hash: self.previous_hash.clone(),
        }
    }
}

/// The outcome of checking one entry or proof.
#[derive(Debug)]
pub struct VerificationResult {
    pub is_valid: bool,
    pub entry_id: u64,
    pub timestamp: u64,
    /// The data hash as it was computed again.
    pub data_hash: String,
    pub block_height: u64,
    pub verification_timestamp: u64,
    pub chain_integrity: bool,
    /// Says which of the two checks failed, if one did.
    pub message: String,
}

/// What a verification result holds, as mathematical values.
pub struct VerdictView {
    pub is_valid: bool,
    pub entry_id: u64,
    pub timestamp: u64,
    pub data_hash: Seq<char>,
    pub block_height: u64,
    pub verification_timestamp: u64,
    pub chain_integrity: bool,
    pub message: Seq<char>,
}

impl View for VerificationResult {
    type V = VerdictView;

    open spec fn view(&self) -> VerdictView {
        VerdictView {
            is_valid: self.is_valid,
            entry_id: self.entry_id,
            timestamp: self.timestamp,
            data_hash: self.data_hash@,
            block_height: self.block_height,
            verification_timestamp: self.verification_timestamp,
            chain_integrity: self.chain_integrity,
            message: self.message@,
        }
    }
}

/// A report over a set of proofs.
#[derive(Debug)]
pub struct ProofSummary {
    pub total_entries: u64,
    pub earliest_timestamp: u64,
    pub latest_timestamp: u64,
    pub chain_valid: bool,
    pub verification_url: String,
}

/// The views of a sequence of proofs, in the same order.
pub open spec fn proof_views(proofs: Seq<BlockchainProof>) -> Seq<ProofView> {
    Seq::new(proofs.len(), |i: int| proofs[i]@)
}

/// `current` follows `previous` in a chain: it refers to the signature of
/// `previous` and stands one block higher.
pub open spec fn link_holds(current: ProofView, previous: ProofView) -> bool {
    current.previous_hash == previous.signature && current.block_height == previous.block_height
        + 1
}

/// Each proof but the first follows the one before it.
pub open spec fn links_hold(chain: Seq<ProofView>) -> bool {
    forall|i: int| 0 < i < chain.len() ==> link_holds(#[trigger] chain[i], chain[i - 1])
}

/// The block heights of the proofs, in the same order.
pub open spec fn heights(proofs: Seq<ProofView>) -> Seq<u64> {
    Seq::new(proofs.len(), |i: int| proofs[i].block_height)
}

/// The proofs by ascending block height; proofs of equal height keep their
/// order.
pub open spec fn by_height(proofs: Seq<ProofView>) -> Seq<ProofView> {
    arrange(proofs, stable_order(heights(proofs), false))
}

/// The proofs form one unbroken chain when they are put in the order of
/// their block heights. No proofs at all form one.
pub open spec fn chain_valid(proofs: Seq<ProofView>) -> bool {
    links_hold(by_height(proofs))
}

/// The bytes over which the signature of a free-standing proof is computed.
pub open spec fn proof_content(
    entry_id: u64,
    data_hash: Seq<char>,
    timestamp: u64,
    previous_hash: Seq<char>,
) -> Seq<u8> {
    u64_bytes(entry_id) + text_frame(data_hash) + u64_bytes(timestamp) + text_frame(previous_hash)
}

/// The proof that `create_proof` makes.
pub open spec fn created_proof(
    entry_id: u64,
    data: Seq<char>,
    previous_hash: Seq<char>,
    block_height: u64,
    timestamp: u64,
) -> ProofView {
    let data_hash = digest_hex(encode_utf8(data));
    ProofView {
        entry_id,
        data_hash,
        timestamp,
        block_height,
        signature: digest_hex(proof_content(entry_id, data_hash, timestamp, previous_hash)),
        previous_hash,
    }
}

fn proof_signature(entry_id: u64, data_hash: &str, timestamp: u64, previous_hash: &str) -> (signature:
    String)
    ensures
        signature@ == digest_hex(proof_content(entry_id, data_hash@, timestamp, previous_hash@)),
{
    let mut buf: Vec<u8> = Vec::new();
    push_u64(&mut buf, entry_id);
    push_text(&mut buf, data_hash);
    push_u64(&mut buf, timestamp);
    push_text(&mut buf, previous_hash);
    assert(buf@ =~= proof_content(entry_id, data_hash@, timestamp, previous_hash@));
    hash_bytes(buf.as_slice())
}

/// Makes a proof for `data`, created at `timestamp`, that links to
/// `previous_hash` at the given height.
pub fn create_proof(
    entry_id: u64,
    data: &str,
    previous_hash: String,
    block_height: u64,
    timestamp: u64,
) -> (proof: BlockchainProof)
    ensures
        proof@ == created_proof(entry_id, data@, previous_hash@, block_height, timestamp),
{
    let data_hash = generate_hash(data);
    let signature = proof_signature(
        entry_id,
        data_hash.as_str(),
        timestamp,
        previous_hash.as_str(),
    );
    BlockchainProof { entry_id, data_hash, timestamp, block_height, signature, previous_hash }
}

/// The message of a proof that checks out.
pub open spec fn proof_ok_text() -> Seq<char> {
    "Proof verified successfully"@
}

/// The message of a proof whose data hash is not the hash of the data.
pub open spec fn proof_hash_mismatch_text() -> Seq<char> {
    "Data hash mismatch - data may have been tampered with"@
}

/// The message of a proof whose signature is not the one its fields call for.
pub open spec fn proof_signature_mismatch_text() -> Seq<char> {
    "Signature verification failed"@
}

/// The verdict on a proof, held against the data that it is said to be of.
pub open spec fn proof_verdict(proof: ProofView, actual_data: Seq<char>, now: u64) -> VerdictView {
    let computed = digest_hex(encode_utf8(actual_data));
    let hash_matches = computed == proof.data_hash;
    let signature_matches = proof.signature == digest_hex(
        proof_content(proof.entry_id, proof.data_hash, proof.timestamp, proof.previous_hash),
    );
    VerdictView {
        is_valid: hash_matches && signature_matches,
        entry_id: proof.entry_id,
        timestamp: proof.timestamp,
        data_hash: computed,
        block_height: proof.block_height,
        verification_timestamp: now,
        chain_integrity: hash_matches && signature_matches,
        message: if hash_matches && signature_matches {
            proof_ok_text()
        } else if !hash_matches {
            proof_hash_mismatch_text()
        } else {
            proof_signature_mismatch_text()
        },
    }
}

/// Checks a proof against the data that it is said to be of: the data hash
/// is computed again from the data, the signature from the fields of the
/// proof. The message tells a wrong data hash from a wrong signature.
pub fn verify_proof(proof: &BlockchainProof, actual_data: &str, now: u64) -> (verdict:
    VerificationResult)
    ensures
        verdict@ == proof_verdict(proof@, actual_data@, now),
{
    let computed_hash = generate_hash(actual_data);
    let hash_matches = same_text(computed_hash.as_str(), proof.data_hash.as_str());
    let computed_signature = proof_signature(
        proof.entry_id,
        proof.data_hash.as_str(),
        proof.timestamp,
        proof.previous_hash.as_str(),
    );
    let signature_matches = same_text(computed_signature.as_str(), proof.signature.as_str());
    let is_valid = hash_matches && signature_matches;
    let message = if is_valid {
        String::from_str("Proof verified successfully")
    } else if !hash_matches {
        String::from_str("Data hash mismatch - data may have been tampered with")
    } else {
        String::from_str("Signature verification failed")
    };
    VerificationResult {
        is_valid,
        entry_id: proof.entry_id,
        timestamp: proof.timestamp,
        data_hash: computed_hash,
        block_height: proof.block_height,
        verification_timestamp: now,
        chain_integrity: is_valid,
        message,
    }
}

/// Whether `current_proof` follows `previous_proof` in a chain.
pub fn verify_chain_link(current_proof: &BlockchainProof, previous_proof: &BlockchainProof) -> (ok:
    bool)
    ensures
        ok == link_holds(current_proof@, previous_proof@),
{
    same_text(current_proof.previous_hash.as_str(), previous_proof.signature.as_str())
        && previous_proof.block_height < u64::MAX && current_proof.block_height
        == previous_proof.block_height + 1
}

/// The bytes over which a verification token is computed.
pub open spec fn token_content(entry_id: u64, proof: ProofView) -> Seq<u8> {
    text_frame("AuditorBox"@) + u64_bytes(entry_id) + text_frame(proof.data_hash) + u64_bytes(
        proof.timestamp,
    ) + text_frame(proof.signature)
}

/// A token that can be handed to outsiders, who check it with `verify_token`.
pub fn generate_verification_token(entry_id: u64, proof: &BlockchainProof) -> (token: String)
    ensures
        token@ == digest_hex(token_content(entry_id, proof@)),
{
    let mut buf: Vec<u8> = Vec::new();
    push_text(&mut buf, "AuditorBox");
    push_u64(&mut buf, entry_id);
    push_text(&mut buf, proof.data_hash.as_str());
    push_u64(&mut buf, proof.timestamp);
    push_text(&mut buf, proof.signature.as_str());
    assert(buf@ =~= token_content(entry_id, proof@));
    hash_bytes(buf.as_slice())
}

/// Whether `token` is the verification token of the entry and its proof.
pub fn verify_token(token: &str, entry_id: u64, proof: &BlockchainProof) -> (ok: bool)
    ensures
        ok == (token@ == digest_hex(token_content(entry_id, proof@))),
{
    let expected_token = generate_verification_token(entry_id, proof);
    same_text(token, expected_token.as_str())
}

/// Whether the proofs form one unbroken chain when put in the order of
/// their block heights.
pub fn verify_chain(proofs: &Vec<BlockchainProof>) -> (ok: bool)
    ensures
        ok == chain_valid(proof_views(proofs@)),
{
    let ghost views = proof_views(proofs@);
    let mut keys: Vec<u64> = Vec::new();
    let mut k: usize = 0;
    while k < proofs.len()
        invariant
            k <= proofs@.len(),
            views == proof_views(proofs@),
            keys@ == heights(views).take(k as int),
        decreases proofs@.len() - k,
    {
        keys.push(proofs[k].block_height);
        assert(keys@ =~= heights(views).take(k + 1));
        k += 1;
    }
    assert(keys@ =~= heights(views));
    let order = sort_positions(&keys, false);
    proof {
        lemma_stable_order(keys@, false);
    }
    let ghost chain = by_height(views);
    assert forall|j: int| 0 <= j < order@.len() implies 0 <= #[trigger] order@[j]
        < proofs@.len() by {
        assert(positions(order@)[j] == order@[j]);
    }
    let mut i: usize = 1;
    while i < order.len()
        invariant
            1 <= i,
            order@.len() == proofs@.len(),
            views == proof_views(proofs@),
            chain == arrange(views, positions(order@)),
            chain == by_height(views),
            forall|j: int| 0 <= j < order@.len() ==> 0 <= #[trigger] order@[j] < proofs@.len(),
            forall|j: int| 0 < j < i && j < chain.len() ==> link_holds(#[trigger] chain[j], chain[j - 1]),
        decreases order@.len() - i,
    {
        let current = &proofs[order[i]];
        let previous = &proofs[order[i - 1]];
        assert(chain[i as int] == current@);
        assert(chain[i - 1] == previous@);
        if !verify_chain_link(current, previous) {
            assert(!link_holds(chain[i as int], chain[i - 1]));
            return false;
        }
        i += 1;
    }
    true
}

/// The least timestamp among the proofs, or 0 where there are none.
pub open spec fn earliest(proofs: Seq<ProofView>) -> u64
    decreases proofs.len(),
{
    if proofs.len() == 0 {
        0
    } else if proofs.len() == 1 {
        proofs[0].timestamp
    } else {
        let rest = earliest(proofs.drop_last());
        if proofs.last().timestamp < rest {
            proofs.last().timestamp
        } else {
            rest
        }
    }
}

/// The greatest timestamp among the proofs, or 0 where there are none.
pub open spec fn latest(proofs: Seq<ProofView>) -> u64
    decreases proofs.len(),
{
    if proofs.len() == 0 {
        0
    } else if proofs.len() == 1 {
        proofs[0].timestamp
    } else {
        let rest = latest(proofs.drop_last());
        if proofs.last().timestamp > rest {
            proofs.last().timestamp
        } else {
            rest
        }
    }
}

/// `earliest` and `latest` bound every timestamp, and each is the timestamp
/// of one of the proofs.
pub proof fn lemma_earliest_latest(proofs: Seq<ProofView>)
    requires
        proofs.len() > 0,
    ensures
        forall|i: int|
            0 <= i < proofs.len() ==> earliest(proofs) <= (#[trigger] proofs[i]).timestamp
                <= latest(proofs),
        exists|i: int| 0 <= i < proofs.len() && (#[trigger] proofs[i]).timestamp == earliest(proofs),
        exists|i: int| 0 <= i < proofs.len() && (#[trigger] proofs[i]).timestamp == latest(proofs),
    decreases proofs.len(),
{
    if proofs.len() > 1 {
        let rest = proofs.drop_last();
        lemma_earliest_latest(rest);
        assert(forall|i: int| 0 <= i < rest.len() ==> rest[i] == proofs[i]);
        let a = choose|i: int| 0 <= i < rest.len() && (#[trigger] rest[i]).timestamp == earliest(rest);
        let b = choose|i: int| 0 <= i < rest.len() && (#[trigger] rest[i]).timestamp == latest(rest);
        let n = proofs.len() - 1;
        if proofs.last().timestamp < earliest(rest) {
            assert(proofs[n].timestamp == earliest(proofs));
        } else {
            assert(proofs[a].timestamp == earliest(proofs));
        }
        if proofs.last().timestamp > latest(rest) {
            assert(proofs[n].timestamp == latest(proofs));
        } else {
            assert(proofs[b].timestamp == latest(proofs));
        }
    } else {
        assert(proofs[0].timestamp == earliest(proofs));
        assert(proofs[0].timestamp == latest(proofs));
    }
}

/// The address at which the canister answers verification requests.
pub open spec fn verification_url_text(canister_id: Seq<char>) -> Seq<char> {
    "https://"@ + canister_id + ".ic0.app/verify"@
}

/// Sums up a set of proofs, given in the order of their entry ids: how
/// many there are, the span of their timestamps, and whether they form one
/// unbroken chain.
pub fn create_proof_summary(proofs: &Vec<BlockchainProof>, canister_id: &str) -> (summary:
    ProofSummary)
    ensures
        summary.total_entries == proofs@.len(),
        summary.earliest_timestamp == earliest(proof_views(proofs@)),
        summary.latest_timestamp == latest(proof_views(proofs@)),
        summary.chain_valid == chain_valid(proof_views(proofs@)),
        summary.verification_url@ == verification_url_text(canister_id@),
{
    let ghost views = proof_views(proofs@);
    let mut low: u64 = 0;
    let mut high: u64 = 0;
    let mut i: usize = 0;
    while i < proofs.len()
        invariant
            i <= proofs@.len(),
            views == proof_views(proofs@),
            low == earliest(views.take(i as int)),
            high == latest(views.take(i as int)),
        decreases proofs@.len() - i,
    {
        let t = proofs[i].timestamp;
        proof {
            let more = views.take(i + 1);
            assert(more.drop_last() =~= views.take(i as int));
            assert(more.last().timestamp == t);
        }
        if i == 0 || t < low {
            low = t;
        }
        if i == 0 || t > high {
            high = t;
        }
        i += 1;
    }
    assert(views.take(i as int) =~= views);
    let chain_valid = verify_chain(proofs);
    let mut verification_url = String::from_str("https://");
    verification_url.append(canister_id);
    verification_url.append(".ic0.app/verify");
    ProofSummary {
        total_entries: proofs.len() as u64,
        earliest_timestamp: low,
        latest_timestamp: high,
        chain_valid,
        verification_url,
    }
}

} // verus!
