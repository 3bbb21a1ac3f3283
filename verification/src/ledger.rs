use crate::entry::{
    bytes_view, entry_views, expected_data_hash, expected_signature, ActivityLogEntry, EntryView,
};
use crate::hash::{generate_data_hash, generate_signature};
use crate::principal::Principal;
use crate::table::Table;
use vstd::prelude::*;
use vstd::string::StringExecFns;

verus! {

/// The `previous_hash` of the first entry of a chain.
pub open spec fn genesis_text() -> Seq<char> {
    "0000000000000000"@
}

/// The `previous_hash` of the first entry of a chain.
pub fn genesis_sentinel() -> (sentinel: String)
    ensures
        sentinel@ == genesis_text(),
{
    String::from_str("0000000000000000")
}

/// The ids grow strictly along the sequence.
pub open spec fn ids_ascending(s: Seq<EntryView>) -> bool {
    forall|i: int, j: int| 0 <= i < j < s.len() ==> s[i].id < s[j].id
}

/// Every id in the sequence is below `bound`.
pub open spec fn ids_below(s: Seq<EntryView>, bound: u64) -> bool {
    forall|i: int| 0 <= i < s.len() ==> s[i].id < bound
}

/// Whether an entry with the given id is in the sequence.
pub open spec fn has_entry(s: Seq<EntryView>, id: u64) -> bool {
    exists|i: int| 0 <= i < s.len() && #[trigger] s[i].id == id
}

/// The entry with the given id; meaningful where there is one.
pub open spec fn entry_with(s: Seq<EntryView>, id: u64) -> EntryView {
    s[choose|i: int| 0 <= i < s.len() && #[trigger] s[i].id == id]
}

/// `t` is the position of the chain tail: the entry of greatest block height,
/// and among several of that height the one appended last.
pub open spec fn is_tail(s: Seq<EntryView>, t: int) -> bool {
    &&& 0 <= t < s.len()
    &&& forall|i: int| 0 <= i < s.len() ==> s[i].block_height <= s[t].block_height
    &&& forall|i: int| t < i < s.len() ==> s[i].block_height < s[t].block_height
}

/// The position of the chain tail, or -1 in an empty sequence.
pub open spec fn tail_position(s: Seq<EntryView>) -> int
    decreases s.len(),
{
    if s.len() <= 1 {
        s.len() - 1
    } else {
        let t = tail_position(s.drop_last());
        if s.last().block_height >= s[t].block_height {
            s.len() - 1
        } else {
            t
        }
    }
}

/// `tail_position` finds the tail, and no other position is one.
pub proof fn lemma_tail_position(s: Seq<EntryView>)
    requires
        s.len() > 0,
    ensures
        is_tail(s, tail_position(s)),
        forall|t: int| is_tail(s, t) ==> t == tail_position(s),
    decreases s.len(),
{
    if s.len() > 1 {
        let p = s.drop_last();
        lemma_tail_position(p);
        assert(forall|i: int| 0 <= i < p.len() ==> p[i] == s[i]);
    }
}

/// The entries form one chain in the order in which they stand: the first
/// is the genesis entry, at height 0 with the sentinel for its previous
/// hash, and each other entry refers to the signature of the one before it
/// and stands one block higher.
pub open spec fn is_chain(entries: Seq<EntryView>) -> bool {
    &&& entries.len() > 0 ==> entries[0].block_height == 0 && entries[0].previous_hash
        == genesis_text()
    &&& forall|i: int|
        0 < i < entries.len() ==> (#[trigger] entries[i]).previous_hash == entries[i - 1].signature
            && entries[i].block_height == entries[i - 1].block_height + 1
}

/// In a chain the block height of an entry is its position.
pub proof fn lemma_chain_heights(entries: Seq<EntryView>)
    requires
        is_chain(entries),
    ensures
        forall|i: int| 0 <= i < entries.len() ==> (#[trigger] entries[i]).block_height == i,
    decreases entries.len(),
{
    if entries.len() > 0 {
        let shorter = entries.drop_last();
        assert(forall|i: int| 0 <= i < shorter.len() ==> shorter[i] == entries[i]);
        assert(is_chain(shorter)) by {
            assert forall|i: int| 0 < i < shorter.len() implies (#[trigger] shorter[i]).previous_hash
                == shorter[i - 1].signature && shorter[i].block_height == shorter[i
                - 1].block_height + 1 by {
                assert(shorter[i] == entries[i]);
            }
        }
        lemma_chain_heights(shorter);
        let n = entries.len() - 1;
        if n > 0 {
            assert(entries[n].block_height == entries[n - 1].block_height + 1);
            assert(shorter[n - 1].block_height == n - 1);
        }
    }
}

/// The tail of a chain is its last entry.
pub proof fn lemma_chain_tail(entries: Seq<EntryView>)
    requires
        is_chain(entries),
        entries.len() > 0,
    ensures
        tail_position(entries) == entries.len() - 1,
{
    lemma_chain_heights(entries);
    lemma_tail_position(entries);
    let last = entries.len() - 1;
    assert(is_tail(entries, last));
}

/// The first entry ever appended is the genesis entry: it stands at height
/// 0 and its previous hash is the sentinel.
pub proof fn lemma_genesis(
    id: u64,
    principal: Seq<u8>,
    action: Seq<char>,
    resource_type: Seq<char>,
    resource_id: Seq<char>,
    details: Seq<char>,
    snapshot: Option<Seq<u8>>,
    timestamp: u64,
)
    ensures
        next_entry(
            Seq::empty(),
            id,
            principal,
            action,
            resource_type,
            resource_id,
            details,
            snapshot,
            timestamp,
        ).block_height == 0,
        next_entry(
            Seq::empty(),
            id,
            principal,
            action,
            resource_type,
            resource_id,
            details,
            snapshot,
            timestamp,
        ).previous_hash == genesis_text(),
{
}

/// An append to a chain gives a chain: the new entry refers to the
/// signature of the entry that was last, and stands one block higher.
pub proof fn lemma_append_extends_chain(
    prior: Seq<EntryView>,
    id: u64,
    principal: Seq<u8>,
    action: Seq<char>,
    resource_type: Seq<char>,
    resource_id: Seq<char>,
    details: Seq<char>,
    snapshot: Option<Seq<u8>>,
    timestamp: u64,
)
    requires
        is_chain(prior),
        prior.len() > 0 ==> prior.last().block_height < u64::MAX,
    ensures
        is_chain(
            prior.push(
                next_entry(
                    prior,
                    id,
                    principal,
                    action,
                    resource_type,
                    resource_id,
                    details,
                    snapshot,
                    timestamp,
                ),
            ),
        ),
        prior.len() > 0 ==> next_entry(
            prior,
            id,
            principal,
            action,
            resource_type,
            resource_id,
            details,
            snapshot,
            timestamp,
        ).previous_hash == prior.last().signature,
{
    let added = next_entry(
        prior,
        id,
        principal,
        action,
        resource_type,
        resource_id,
        details,
        snapshot,
        timestamp,
    );
    let longer = prior.push(added);
    if prior.len() > 0 {
        lemma_chain_tail(prior);
    }
    assert forall|i: int| 0 < i < longer.len() implies (#[trigger] longer[i]).previous_hash
        == longer[i - 1].signature && longer[i].block_height == longer[i - 1].block_height
        + 1 by {
        if i < prior.len() {
            assert(longer[i] == prior[i]);
            assert(longer[i - 1] == prior[i - 1]);
        }
    }
}

/// The link that an entry appended to `prior` carries: the previous hash and
/// the block height.
pub open spec fn next_link(prior: Seq<EntryView>) -> (Seq<char>, u64) {
    if prior.len() == 0 {
        (genesis_text(), 0)
    } else {
        let tail = prior[tail_position(prior)];
        (tail.signature, (tail.block_height + 1) as u64)
    }
}

/// The entry that an append to `prior` writes.
pub open spec fn next_entry(
    prior: Seq<EntryView>,
    id: u64,
    principal: Seq<u8>,
    action: Seq<char>,
    resource_type: Seq<char>,
    resource_id: Seq<char>,
    details: Seq<char>,
    snapshot: Option<Seq<u8>>,
    timestamp: u64,
) -> EntryView {
    let link = next_link(prior);
    let fields = EntryView {
        id,
        principal,
        action,
        resource_type,
        resource_id,
        details,
        timestamp,
        data_hash: Seq::empty(),
        signature: Seq::empty(),
        previous_hash: link.0,
        block_height: link.1,
        snapshot,
    };
    EntryView {
        data_hash: expected_data_hash(fields),
        signature: expected_signature(fields),
        ..fields
    }
}

/// The append-only store of activity entries, in the order of their ids,
/// together with the counter that the ids come from.
pub struct Ledger {
    table: Table<ActivityLogEntry>,
    next_id: u64,
}

impl View for Ledger {
    type V = Seq<EntryView>;

    closed spec fn view(&self) -> Seq<EntryView> {
        entry_views(self.table.rows())
    }
}

impl Ledger {
    /// The id that the next append will assign.
    pub closed spec fn next_id(&self) -> u64 {
        self.next_id
    }

    /// The entries stand in the order of their ids, each is found by its
    /// id, and the counter is above every id that was handed out.
    pub closed spec fn wf(&self) -> bool {
        &&& self.table.wf()
        &&& forall|i: int|
            0 <= i < self.table.keys().len() ==> #[trigger] self.table.keys()[i]
                == self.table.rows()[i].id
        &&& ids_ascending(self@)
        &&& ids_below(self@, self.next_id())
    }

    /// In a well-formed ledger the entries stand in the order of their ids,
    /// and the counter is above every id.
    pub proof fn lemma_wf(&self)
        requires
            self.wf(),
        ensures
            ids_ascending(self@),
            ids_below(self@, self.next_id()),
    {
    }

    /// Whether one more entry can be appended: neither the id counter nor
    /// the block height of the tail has reached the largest number.
    pub open spec fn has_room(&self) -> bool {
        &&& self.next_id() < u64::MAX
        &&& self@.len() > 0 ==> self@[tail_position(self@)].block_height < u64::MAX
    }

    /// The empty ledger. Its first entry will get the id 1.
    pub fn new() -> (ledger: Ledger)
        ensures
            ledger.wf(),
            ledger@ == Seq::<EntryView>::empty(),
            ledger.next_id() == 1,
    {
        let ledger = Ledger { table: Table::new(), next_id: 1 };
        assert(ledger@ =~= Seq::<EntryView>::empty());
        ledger
    }

    /// A ledger over entries that were stored elsewhere. The entries have to
    /// stand in the order of their ids, with `next_id` above all of them.
    pub fn from_entries(entries: Vec<ActivityLogEntry>, next_id: u64) -> (ledger: Option<Ledger>)
        ensures
            ledger is Some <==> ids_ascending(entry_views(entries@)) && ids_below(
                entry_views(entries@),
                next_id,
            ),
            ledger is Some ==> ledger->0.wf() && ledger->0@ == entry_views(entries@)
                && ledger->0.next_id() == next_id,
    {
        let ghost views = entry_views(entries@);
        let mut i: usize = 0;
        while i < entries.len()
            invariant
                i <= entries@.len(),
                views == entry_views(entries@),
                ids_ascending(views.take(i as int)),
                ids_below(views.take(i as int), next_id),
            decreases entries@.len() - i,
        {
            let ghost seen = views.take(i as int);
            let ghost more = views.take(i + 1);
            if entries[i].id >= next_id {
                assert(views[i as int].id >= next_id);
                return None;
            }
            if i > 0 && entries[i - 1].id >= entries[i].id {
                assert(views[i - 1].id >= views[i as int].id);
                return None;
            }
            proof {
                assert forall|a: int, b: int| 0 <= a < b < more.len() implies more[a].id
                    < more[b].id by {
                    if b < i {
                        assert(seen[a].id < seen[b].id);
                    } else if a < i - 1 {
                        assert(seen[a].id < seen[i - 1].id);
                    }
                }
                assert forall|a: int| 0 <= a < more.len() implies more[a].id < next_id by {
                    if a < i {
                        assert(seen[a].id < next_id);
                    }
                }
            }
            i += 1;
        }
        assert(views.take(i as int) =~= views);
        let mut keys: Vec<u64> = Vec::new();
        let mut k: usize = 0;
        while k < entries.len()
            invariant
                k <= entries@.len(),
                keys@.len() == k,
                forall|j: int| 0 <= j < k ==> keys@[j] == entries@[j].id,
            decreases entries@.len() - k,
        {
            keys.push(entries[k].id);
            k += 1;
        }
        proof {
            assert forall|a: int, b: int| 0 <= a < keys@.len() && 0 <= b < keys@.len() && a
                != b implies keys@[a] != keys@[b] by {
                if a < b {
                    assert(views[a].id < views[b].id);
                } else {
                    assert(views[b].id < views[a].id);
                }
            }
        }
        match Table::from_rows(keys, entries) {
            Some(table) => Some(Ledger { table, next_id }),
            None => None,
        }
    }

    /// The number of entries.
    pub fn len(&self) -> (n: usize)
        ensures
            n == self@.len(),
    {
        self.table.all_rows().len()
    }

    /// Whether no entry was appended yet.
    pub fn is_empty(&self) -> (empty: bool)
        ensures
            empty == (self@.len() == 0),
    {
        self.table.all_rows().len() == 0
    }

    /// The entries, in the order of their ids.
    pub fn entries(&self) -> (entries: &Vec<ActivityLogEntry>)
        ensures
            entry_views(entries@) == self@,
    {
        self.table.all_rows()
    }

    /// Gives up the ledger for its entries and its id counter.
    pub fn into_parts(self) -> (parts: (Vec<ActivityLogEntry>, u64))
        ensures
            entry_views(parts.0@) == self@,
            parts.1 == self.next_id(),
    {
        let next_id = self.next_id;
        (self.table.into_rows(), next_id)
    }

    /// The id that the next append will assign.
    pub fn peek_next_id(&self) -> (id: u64)
        ensures
            id == self.next_id(),
    {
        self.next_id
    }

    /// The entry with the given id, if the ledger holds one.
    pub fn get(&self, id: u64) -> (found: Option<&ActivityLogEntry>)
        requires
            self.wf(),
        ensures
            found is Some <==> has_entry(self@, id),
            found is Some ==> found->0@ == entry_with(self@, id),
    {
        proof {
            self.table.lemma_wf();
        }
        match self.table.position_of(id) {
            Some(at) => {
                let found = self.table.row_at(at);
                proof {
                    let views = self@;
                    assert(views[at as int] == found@);
                    assert(views[at as int].id == id);
                    let k = choose|k: int| 0 <= k < views.len() && #[trigger] views[k].id == id;
                    if k < at {
                        assert(views[k].id < views[at as int].id);
                    } else if k > at {
                        assert(views[at as int].id < views[k].id);
                    }
                }
                Some(found)
            },
            None => {
                proof {
                    let views = self@;
                    assert forall|i: int| 0 <= i < views.len() implies #[trigger] views[i].id
                        != id by {
                        assert(self.table@.contains_key(self.table.keys()[i]));
                    }
                }
                None
            },
        }
    }

    /// The chain tail: the entry that the next append links to. It is the
    /// entry of greatest block height, the last of them where several share
    /// it; an empty ledger has none.
    pub fn get_previous_entry(&self) -> (tail: Option<&ActivityLogEntry>)
        ensures
            self@.len() == 0 ==> tail is None,
            self@.len() > 0 ==> tail is Some && tail->0@ == self@[tail_position(self@)],
    {
        let entries = self.table.all_rows();
        if entries.len() == 0 {
            return None;
        }
        let ghost views = self@;
        let mut best: usize = 0;
        let mut i: usize = 1;
        assert(views.take(1).len() == 1);
        while i < entries.len()
            invariant
                1 <= i <= entries@.len(),
                views == entry_views(entries@),
                best == tail_position(views.take(i as int)),
                0 <= best < i,
            decreases entries@.len() - i,
        {
            proof {
                let more = views.take(i + 1);
                assert(more.drop_last() =~= views.take(i as int));
                assert(more.last() == views[i as int]);
                assert(more[best as int] == views[best as int]);
            }
            if entries[i].block_height >= entries[best].block_height {
                best = i;
            }
            i += 1;
        }
        assert(views.take(i as int) =~= views);
        Some(&entries[best])
    }

    /// Whether one more entry can be appended.
    pub fn can_append(&self) -> (room: bool)
        ensures
            room == self.has_room(),
    {
        if self.next_id == u64::MAX {
            return false;
        }
        match self.get_previous_entry() {
            Some(tail) => tail.block_height < u64::MAX,
            None => true,
        }
    }
}

/// Takes the next id from the counter of the ledger. Ids start at 1 and are
/// never handed out twice.
pub fn next_activity_log_id(ledger: &mut Ledger) -> (id: u64)
    requires
        old(ledger).wf(),
        old(ledger).next_id() < u64::MAX,
    ensures
        id == old(ledger).next_id(),
        final(ledger).next_id() == id + 1,
        final(ledger)@ == old(ledger)@,
        final(ledger).wf(),
{
    let id = ledger.next_id;
    ledger.next_id = id + 1;
    id
}

/// Appends an entry for an action that `principal` performed at `timestamp`.
///
/// The entry gets the next id, links to the chain tail (or to the genesis
/// sentinel, at height 0, in an empty ledger) and is sealed with its data
/// hash and signature. Nothing else in the ledger changes.
pub fn log_activity(
    ledger: &mut Ledger,
    principal: Principal,
    action: String,
    resource_type: String,
    resource_id: String,
    details: String,
    snapshot: Option<Vec<u8>>,
    timestamp: u64,
) -> (entry: ActivityLogEntry)
    requires
        old(ledger).wf(),
        old(ledger).has_room(),
    ensures
        final(ledger).wf(),
        final(ledger)@ == old(ledger)@.push(entry@),
        final(ledger).next_id() == old(ledger).next_id() + 1,
        is_chain(old(ledger)@) ==> is_chain(final(ledger)@),
        entry@ == next_entry(
            old(ledger)@,
            old(ledger).next_id(),
            principal@,
            action@,
            resource_type@,
            resource_id@,
            details@,
            bytes_view(snapshot),
            timestamp,
        ),
{
    let ghost prior = ledger@;
    let (previous_hash, block_height) = match ledger.get_previous_entry() {
        Some(tail) => (tail.signature.clone(), tail.block_height + 1),
        None => (genesis_sentinel(), 0),
    };
    let id = next_activity_log_id(ledger);
    let signature = generate_signature(
        id,
        &principal,
        action.as_str(),
        resource_type.as_str(),
        resource_id.as_str(),
        timestamp,
        previous_hash.as_str(),
    );
    let data_hash = generate_data_hash(
        id,
        &principal,
        action.as_str(),
        resource_type.as_str(),
        resource_id.as_str(),
        details.as_str(),
    );
    let entry = ActivityLogEntry {
        id,
        principal,
        action,
        resource_type,
        resource_id,
        details,
        timestamp,
        data_hash,
        signature,
        previous_hash,
        block_height,
        snapshot,
    };
    let copy = entry.clone();
    proof {
        ledger.table.lemma_wf();
        if ledger.table@.contains_key(id) {
            let at = ledger.table.slot_of(id);
            assert(prior[at].id == id);
        }
    }
    let ghost rows = ledger.table.rows();
    let ghost appended = entry;
    ledger.table.insert(id, entry);
    proof {
        assert(ledger.table.rows() == rows.push(appended));
        assert(ledger@ =~= prior.push(copy@));
        assert forall|i: int| 0 <= i < ledger.table.keys().len() implies #[trigger] ledger.table.keys()[i]
            == ledger.table.rows()[i].id by {
            if i < rows.len() {
                assert(ledger.table.rows()[i] == rows[i]);
            }
        }
        assert(ids_ascending(ledger@)) by {
            assert forall|a: int, b: int| 0 <= a < b < ledger@.len() implies ledger@[a].id
                < ledger@[b].id by {
                if b < prior.len() {
                    assert(prior[a].id < prior[b].id);
                } else {
                    assert(prior[a].id < id);
                }
            }
        }
        if is_chain(prior) {
            if prior.len() > 0 {
                lemma_chain_tail(prior);
            }
            lemma_append_extends_chain(
                prior,
                id,
                copy@.principal,
                copy@.action,
                copy@.resource_type,
                copy@.resource_id,
                copy@.details,
                copy@.snapshot,
                timestamp,
            );
        }
    }
    copy
}

} // verus!
