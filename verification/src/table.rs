use ic_stable_structures::{StableBTreeMap, VectorMemory};
use vstd::prelude::*;

verus! {

/// An ordered map from keys to positions: a B-tree of the
/// ic-stable-structures crate over a memory of its own on the heap.
#[verifier::external_body]
pub struct SlotIndex {
    map: StableBTreeMap<u64, u64, VectorMemory>,
}

/// The position that an index holds for each of its keys.
pub uninterp spec fn slots(index: SlotIndex) -> Map<u64, u64>;

/// Makes an empty index.
///
/// Calls `StableBTreeMap::new` on a fresh `VectorMemory`, which gives a map
/// without entries.
#[verifier::external_body]
fn index_new() -> (made: SlotIndex)
    ensures
        (slots(made) == Map::<u64, u64>::empty()),
{
    SlotIndex { map: StableBTreeMap::new(VectorMemory::default()) }
}

/// Looks a key up.
///
/// Calls `StableBTreeMap::get`, which returns the value stored for the key,
/// if there is one, and leaves the map as it is.
#[verifier::external_body]
fn index_get(index: &SlotIndex, key: u64) -> (slot: Option<u64>)
    ensures
        slot == (if slots(*index).contains_key(key) {
            Some(slots(*index)[key])
        } else {
            None::<u64>
        }),
{
    index.map.get(&key)
}

/// Stores a position for a key.
///
/// Calls `StableBTreeMap::insert`, which stores the value for the key in
/// place of the one stored before, if any, and returns that one.
#[verifier::external_body]
fn index_insert(index: &mut SlotIndex, key: u64, slot: u64) -> (previous: Option<u64>)
    ensures
        slots(*final(index)) == slots(*old(index)).insert(key, slot),
        previous == (if slots(*old(index)).contains_key(key) {
            Some(slots(*old(index))[key])
        } else {
            None::<u64>
        }),
{
    index.map.insert(key, slot)
}

/// Takes a key out.
///
/// Calls `StableBTreeMap::remove`, which takes the key out of the map and
/// returns the value that was stored for it, if there was one.
#[verifier::external_body]
fn index_remove(index: &mut SlotIndex, key: u64) -> (previous: Option<u64>)
    ensures
        slots(*final(index)) == slots(*old(index)).remove(key),
        previous == (if slots(*old(index)).contains_key(key) {
            Some(slots(*old(index))[key])
        } else {
            None::<u64>
        }),
{
    index.map.remove(&key)
}

/// Rows that are found by their keys. The rows stand in a vector; an index
/// says at which position the row of a key stands.
pub struct Table<T> {
    index: SlotIndex,
    keys: Vec<u64>,
    rows: Vec<T>,
}

impl<T> View for Table<T> {
    type V = Map<u64, T>;

    closed spec fn view(&self) -> Map<u64, T> {
        Map::new(
            |k: u64| slots(self.index).contains_key(k),
            |k: u64| self.rows@[slots(self.index)[k] as int],
        )
    }
}

impl<T> Table<T> {
    /// The keys, in the order in which their rows stand.
    pub closed spec fn keys(&self) -> Seq<u64> {
        self.keys@
    }

    /// The rows, in the order in which they stand.
    pub closed spec fn rows(&self) -> Seq<T> {
        self.rows@
    }

    /// The position at which the row of a key stands; meaningful for the
    /// keys of the table.
    pub closed spec fn slot_of(&self, key: u64) -> int {
        slots(self.index)[key] as int
    }

    /// The index knows each key with the position of its row, and nothing
    /// else.
    pub closed spec fn wf(&self) -> bool {
        &&& self.keys@.len() == self.rows@.len()
        &&& forall|i: int|
            0 <= i < self.keys@.len() ==> slots(self.index).contains_key(#[trigger] self.keys@[i])
                && slots(self.index)[self.keys@[i]] == i
        &&& forall|k: u64| #[trigger]
            slots(self.index).contains_key(k) ==> slots(self.index)[k] < self.keys@.len()
                && self.keys@[slots(self.index)[k] as int] == k
    }

    /// What a well-formed table is to its users: there is one row per key,
    /// no key occurs twice, and the table maps each key to its row.
    pub proof fn lemma_wf(&self)
        requires
            self.wf(),
        ensures
            self.keys().len() == self.rows().len(),
            forall|i: int, j: int|
                0 <= i < j < self.keys().len() ==> self.keys()[i] != self.keys()[j],
            forall|i: int|
                0 <= i < self.keys().len() ==> self@.contains_key(#[trigger] self.keys()[i])
                    && self@[self.keys()[i]] == self.rows()[i],
            forall|k: u64| #[trigger]
                self@.contains_key(k) ==> 0 <= self.slot_of(k) < self.keys().len()
                    && self.keys()[self.slot_of(k)] == k,
    {
        assert forall|i: int, j: int| 0 <= i < j < self.keys().len() implies self.keys()[i]
            != self.keys()[j] by {
            assert(slots(self.index)[self.keys@[i]] == i);
            assert(slots(self.index)[self.keys@[j]] == j);
        }
        assert forall|k: u64| #[trigger] self@.contains_key(k) implies 0 <= self.slot_of(k)
            < self.keys().len() && self.keys()[self.slot_of(k)] == k by {
            assert(slots(self.index).contains_key(k));
        }
    }

    /// The empty table.
    pub fn new() -> (table: Table<T>)
        ensures
            table.wf(),
            table@ == Map::<u64, T>::empty(),
            table.keys() == Seq::<u64>::empty(),
            table.rows() == Seq::<T>::empty(),
    {
        let table = Table { index: index_new(), keys: Vec::new(), rows: Vec::new() };
        assert(table@ =~= Map::<u64, T>::empty());
        table
    }

    /// The table of the given rows under the given keys, if no key occurs
    /// twice.
    pub fn from_rows(keys: Vec<u64>, rows: Vec<T>) -> (table: Option<Table<T>>)
        requires
            keys@.len() == rows@.len(),
        ensures
            table is Some <==> keys@.no_duplicates(),
            table is Some ==> table->0.wf() && table->0.keys() == keys@ && table->0.rows()
                == rows@,
    {
        let mut index = index_new();
        let mut i: usize = 0;
        while i < keys.len()
            invariant
                i <= keys@.len(),
                keys@.take(i as int).no_duplicates(),
                forall|j: int|
                    0 <= j < i ==> slots(index).contains_key(#[trigger] keys@[j]) && slots(
                        index,
                    )[keys@[j]] == j,
                forall|k: u64| #[trigger]
                    slots(index).contains_key(k) ==> slots(index)[k] < i && keys@[slots(
                        index,
                    )[k] as int] == k,
            decreases keys@.len() - i,
        {
            let key = keys[i];
            let ghost before = slots(index);
            match index_get(&index, key) {
                Some(slot) => {
                    proof {
                        assert(keys@[slot as int] == key);
                        assert(!keys@.no_duplicates());
                    }
                    return None;
                },
                None => {
                    index_insert(&mut index, key, i as u64);
                },
            }
            proof {
                let more = keys@.take(i + 1);
                assert forall|a: int, b: int| 0 <= a < b < more.len() implies more[a]
                    != more[b] by {
                    if b < i {
                        assert(keys@.take(i as int)[a] != keys@.take(i as int)[b]);
                    } else {
                        assert(before.contains_key(keys@[a]));
                    }
                }
                assert forall|j: int| 0 <= j < i + 1 implies slots(index).contains_key(
                    #[trigger] keys@[j],
                ) && slots(index)[keys@[j]] == j by {
                    if j < i {
                        assert(before.contains_key(keys@[j]));
                    }
                }
            }
            i += 1;
        }
        assert(keys@.take(i as int) =~= keys@);
        Some(Table { index, keys, rows })
    }

    /// Gives up the table for its rows, in the order in which they stand.
    pub fn into_rows(self) -> (rows: Vec<T>)
        ensures
            rows@ == self.rows(),
    {
        self.rows
    }

    /// The number of rows.
    pub fn len(&self) -> (n: usize)
        ensures
            n == self.keys().len(),
    {
        self.keys.len()
    }

    /// Whether the table is without rows.
    pub fn is_empty(&self) -> (empty: bool)
        ensures
            empty == (self.keys().len() == 0),
    {
        self.keys.len() == 0
    }

    /// The key of the row at a position.
    pub fn key_at(&self, position: usize) -> (key: u64)
        requires
            position < self.keys().len(),
        ensures
            key == self.keys()[position as int],
    {
        self.keys[position]
    }

    /// The row at a position.
    pub fn row_at(&self, position: usize) -> (row: &T)
        requires
            position < self.rows().len(),
        ensures
            *row == self.rows()[position as int],
    {
        &self.rows[position]
    }

    /// The rows, in the order in which they stand.
    pub fn all_rows(&self) -> (rows: &Vec<T>)
        ensures
            rows@ == self.rows(),
    {
        &self.rows
    }

    /// Whether a row is stored under the key.
    pub fn contains_key(&self, key: u64) -> (yes: bool)
        ensures
            yes == self@.contains_key(key),
    {
        index_get(&self.index, key).is_some()
    }

    /// The position of the row of a key.
    pub fn position_of(&self, key: u64) -> (position: Option<usize>)
        requires
            self.wf(),
        ensures
            position is Some <==> self@.contains_key(key),
            position is Some ==> position->0 == self.slot_of(key) && position->0
                < self.keys().len() && self.keys()[position->0 as int] == key,
    {
        match index_get(&self.index, key) {
            Some(slot) => {
                let count = self.keys.len();
                assert(slots(self.index).contains_key(key));
                assert(slot < count);
                Some(slot as usize)
            },
            None => None,
        }
    }

    /// The row stored under the key.
    pub fn get(&self, key: u64) -> (row: Option<&T>)
        requires
            self.wf(),
        ensures
            row is Some <==> self@.contains_key(key),
            row is Some ==> *row->0 == self@[key],
    {
        match index_get(&self.index, key) {
            Some(slot) => {
                let count = self.keys.len();
                assert(slots(self.index).contains_key(key));
                assert(slot < count);
                Some(&self.rows[slot as usize])
            },
            None => None,
        }
    }

    /// Stores a row under a key: in place of the row stored under it
    /// before, or behind all other rows where the key is new.
    pub fn insert(&mut self, key: u64, row: T)
        requires
            old(self).wf(),
        ensures
            final(self).wf(),
            final(self)@ == old(self)@.insert(key, row),
            !old(self)@.contains_key(key) ==> final(self).keys() == old(self).keys().push(key)
                && final(self).rows() == old(self).rows().push(row),
            old(self)@.contains_key(key) ==> final(self).keys() == old(self).keys()
                && final(self).rows() == old(self).rows().update(old(self).slot_of(key), row),
    {
        let ghost before = *self;
        match index_get(&self.index, key) {
            Some(slot) => {
                let count = self.keys.len();
                assert(slots(self.index).contains_key(key));
                assert(slot < count);
                self.rows.set(slot as usize, row);
                proof {
                    assert(self.rows@ == before.rows@.update(slot as int, row));
                    assert(before.keys@[slot as int] == key);
                    assert(self@ =~= before@.insert(key, row)) by {
                        assert forall|k: u64| self@.contains_key(k) implies self@[k]
                            == before@.insert(key, row)[k] by {
                            if k != key {
                                assert(slots(before.index)[k] != slot);
                            }
                        }
                    }
                }
            },
            None => {
                let slot = self.keys.len();
                index_insert(&mut self.index, key, slot as u64);
                self.keys.push(key);
                self.rows.push(row);
                proof {
                    assert forall|i: int| 0 <= i < self.keys@.len() implies slots(
                        self.index,
                    ).contains_key(#[trigger] self.keys@[i]) && slots(self.index)[self.keys@[i]]
                        == i by {
                        if i < slot {
                            assert(slots(before.index).contains_key(before.keys@[i]));
                        }
                    }
                    assert forall|k: u64| #[trigger]
                        slots(self.index).contains_key(k) implies slots(self.index)[k]
                        < self.keys@.len() && self.keys@[slots(self.index)[k] as int] == k by {
                        if k != key {
                            assert(slots(before.index).contains_key(k));
                        }
                    }
                    assert(self@ =~= before@.insert(key, row)) by {
                        assert forall|k: u64| self@.contains_key(k) implies self@[k]
                            == before@.insert(key, row)[k] by {
                            if k != key {
                                assert(slots(before.index).contains_key(k));
                            }
                        }
                    }
                }
            },
        }
    }

    /// Takes the row of a key out of the table and returns it. The last row
    /// takes its place.
    pub fn remove(&mut self, key: u64) -> (row: Option<T>)
        requires
            old(self).wf(),
        ensures
            final(self).wf(),
            final(self)@ == old(self)@.remove(key),
            row is Some <==> old(self)@.contains_key(key),
            row is Some ==> row->0 == old(self)@[key],
    {
        let ghost before = *self;
        match index_remove(&mut self.index, key) {
            None => {
                assert(self@ =~= before@.remove(key));
                None
            },
            Some(slot) => {
                let count = self.keys.len();
                assert(slots(before.index).contains_key(key));
                assert(slot < count);
                let at = slot as usize;
                let last = self.keys.len() - 1;
                let moved = self.keys[last];
                self.keys.swap_remove(at);
                let row = self.rows.swap_remove(at);
                if at != last {
                    index_insert(&mut self.index, moved, slot);
                }
                proof {
                    assert(slots(before.index).contains_key(moved)) by {
                        assert(slots(before.index).contains_key(before.keys@[last as int]));
                    }
                    assert forall|i: int| 0 <= i < self.keys@.len() implies slots(
                        self.index,
                    ).contains_key(#[trigger] self.keys@[i]) && slots(self.index)[self.keys@[i]]
                        == i by {
                        if i == at {
                            assert(self.keys@[i] == moved);
                        } else {
                            assert(self.keys@[i] == before.keys@[i]);
                            assert(slots(before.index).contains_key(before.keys@[i]));
                        }
                    }
                    assert forall|k: u64| #[trigger]
                        slots(self.index).contains_key(k) implies slots(self.index)[k]
                        < self.keys@.len() && self.keys@[slots(self.index)[k] as int] == k by {
                        assert(slots(before.index).contains_key(k));
                        if k != moved {
                            assert(slots(before.index)[k] != last);
                        }
                    }
                    assert(self@ =~= before@.remove(key)) by {
                        assert forall|k: u64| self@.contains_key(k) implies self@[k]
                            == before@.remove(key)[k] by {
                            assert(slots(before.index).contains_key(k));
                            if k != moved {
                                assert(slots(before.index)[k] != last);
                            }
                        }
                    }
                }
                Some(row)
            },
        }
    }
}

} // verus!
