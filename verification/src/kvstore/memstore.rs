//! A key-value store held in memory.

use vstd::prelude::*;

use super::{capnp_error_of, permanent, read_outcome, Error, ErrorKind, KvStore, Result};

verus! {

/// One stored key with its sequencer and value.
pub struct MemSlot {
    key: String,
    seq: u64,
    value: Vec<u8>,
}

/// A [`KvStore`] held in memory. Each value carries the sequencer that the
/// write which stored it returned.
pub struct MemStore {
    slots: Vec<MemSlot>,
}

/// The contents of a store: for each key, its sequencer and its value.
pub type StoreMap = Map<Seq<char>, (u64, Seq<u8>)>;

/// The error with which a read of a missing key fails.
pub open spec fn is_missing_key_error(e: Error) -> bool {
    &&& e.kind == ErrorKind::Permanent
    &&& e.description@ == "not found"@
    &&& e.cause is None
}

/// The error with which a write fails when its new sequencer would not fit
/// in a `u64`.
pub open spec fn is_sequence_overflow_error(e: Error) -> bool {
    &&& e.kind == ErrorKind::Permanent
    &&& e.description@ == "sequence overflow"@
    &&& e.cause is None
}

/// The sequencer that a write with `current_seq` gives the value: one more
/// than `current_seq`, counting a missing one as zero.
pub open spec fn next_seq(current_seq: Option<u64>) -> int {
    match current_seq {
        Some(s) => s + 1,
        None => 1,
    }
}

impl MemStore {
    #[verifier::type_invariant]
    closed spec fn keys_distinct(self) -> bool {
        forall|i: int, j: int|
            0 <= i < j < self.slots.len() ==> #[trigger] self.slots@[i].key@
                != #[trigger] self.slots@[j].key@
    }

    closed spec fn holds_at(&self, key: Seq<char>, i: int) -> bool {
        0 <= i < self.slots.len() && self.slots@[i].key@ == key
    }

    closed spec fn holds(&self, key: Seq<char>) -> bool {
        exists|i: int| self.holds_at(key, i)
    }

    closed spec fn slot_of(&self, key: Seq<char>) -> int {
        choose|i: int| self.holds_at(key, i)
    }
}

impl View for MemStore {
    type V = StoreMap;

    closed spec fn view(&self) -> StoreMap {
        Map::new(
            |k: Seq<char>| self.holds(k),
            |k: Seq<char>|
                {
                    let slot = self.slots@[self.slot_of(k)];
                    (slot.seq, slot.value@)
                },
        )
    }
}

impl MemStore {
    proof fn lemma_slot(&self, key: Seq<char>, i: int)
        requires
            self.keys_distinct(),
            self.holds_at(key, i),
        ensures
            self@.contains_key(key),
            self@[key] == (self.slots@[i].seq, self.slots@[i].value@),
    {
        let j = self.slot_of(key);
        assert(self.holds_at(key, j));
        if i < j {
            assert(self.slots@[i].key@ != self.slots@[j].key@);
        } else if j < i {
            assert(self.slots@[j].key@ != self.slots@[i].key@);
        }
    }

    /// An empty store.
    pub fn new() -> (store: Self)
        ensures
            store@ == StoreMap::empty(),
    {
        let store = MemStore { slots: Vec::new() };
        assert(store@ =~= StoreMap::empty());
        store
    }

    /// The index of the slot holding `key`, if any.
    fn find(&self, key: &str) -> (found: Option<usize>)
        ensures
            match found {
                Some(i) => self.holds_at(key@, i as int),
                None => !self.holds(key@),
            },
    {
        let wanted = key.to_owned();
        let mut i: usize = 0;
        while i < self.slots.len()
            invariant
                0 <= i <= self.slots.len(),
                wanted@ == key@,
                forall|j: int| 0 <= j < i ==> self.slots@[j].key@ != key@,
            decreases self.slots.len() - i,
        {
            if self.slots[i].key == wanted {
                return Some(i);
            }
            i = i + 1;
        }
        None
    }

    /// Reads the sequencer and value stored under `key`.
    pub fn read(&self, key: &str) -> (result: Result<(u64, Vec<u8>)>)
        ensures
            self.get_ensures(key@, result),
    {
        proof {
            use_type_invariant(self);
        }
        match self.find(key) {
            Some(i) => {
                let slot = &self.slots[i];
                let value = slot.value.clone();
                proof {
                    self.lemma_slot(key@, i as int);
                    assert(value@ =~= slot.value@);
                }
                Ok((slot.seq, value))
            },
            None => Err(permanent("not found".to_owned())),
        }
    }

    /// Stores `value` under `key`, giving it the sequencer that follows
    /// `current_seq`, and returns that sequencer.
    pub fn write(&mut self, key: &str, value: &[u8], current_seq: Option<u64>) -> (result: Result<
        u64,
    >)
        ensures
            old(self).set_ensures(final(self), key@, value@, current_seq, result),
    {
        proof {
            use_type_invariant(&*self);
        }
        let base: u64 = match current_seq {
            Some(s) => s,
            None => 0,
        };
        let seq = match base.checked_add(1) {
            Some(s) => s,
            None => {
                return Err(permanent("sequence overflow".to_owned()));
            },
        };
        let stored = slice_to_vec_u8(value);
        let ghost old_store = *self;
        match self.find(key) {
            Some(i) => {
                let slot = MemSlot { key: key.to_owned(), seq, value: stored };
                let mut slots = Vec::new();
                std::mem::swap(&mut slots, &mut self.slots);
                slots.set(i, slot);
                self.slots = slots;
                proof {
                    assert forall|k: Seq<char>| #[trigger]
                        self@.contains_key(k) == old_store@.insert(key@, (seq, value@)).contains_key(
                            k,
                        ) by {
                        if k != key@ && old_store.holds(k) {
                            let j = old_store.slot_of(k);
                            assert(self.holds_at(k, j));
                        }
                        if k != key@ && self.holds(k) {
                            let j = self.slot_of(k);
                            assert(old_store.holds_at(k, j));
                        }
                        if k == key@ {
                            assert(self.holds_at(k, i as int));
                        }
                    }
                    assert forall|k: Seq<char>| #[trigger]
                        self@.contains_key(k) implies self@[k] == old_store@.insert(
                        key@,
                        (seq, value@),
                    )[k] by {
                        if k == key@ {
                            self.lemma_slot(k, i as int);
                        } else {
                            let j = self.slot_of(k);
                            assert(self.holds_at(k, j));
                            old_store.lemma_slot(k, j);
                            self.lemma_slot(k, j);
                        }
                    }
                    assert(self@ =~= old_store@.insert(key@, (seq, value@)));
                }
            },
            None => {
                let slot = MemSlot { key: key.to_owned(), seq, value: stored };
                let mut slots = Vec::new();
                std::mem::swap(&mut slots, &mut self.slots);
                slots.push(slot);
                proof {
                    let n = old_store.slots.len() as int;
                    assert forall|a: int, b: int|
                        0 <= a < b < slots.len() implies #[trigger] slots@[a].key@
                            != #[trigger] slots@[b].key@ by {
                        if b == n {
                            assert(!old_store.holds_at(key@, a));
                        }
                    }
                }
                self.slots = slots;
                proof {
                    let n = old_store.slots.len() as int;
                    assert forall|k: Seq<char>| #[trigger]
                        self@.contains_key(k) == old_store@.insert(key@, (seq, value@)).contains_key(
                            k,
                        ) by {
                        if k != key@ && old_store.holds(k) {
                            let j = old_store.slot_of(k);
                            assert(self.holds_at(k, j));
                        }
                        if k != key@ && self.holds(k) {
                            let j = self.slot_of(k);
                            assert(old_store.holds_at(k, j));
                        }
                        if k == key@ {
                            assert(self.holds_at(k, n));
                        }
                    }
                    assert forall|k: Seq<char>| #[trigger]
                        self@.contains_key(k) implies self@[k] == old_store@.insert(
                        key@,
                        (seq, value@),
                    )[k] by {
                        if k == key@ {
                            self.lemma_slot(k, n);
                        } else {
                            let j = self.slot_of(k);
                            assert(self.holds_at(k, j));
                            old_store.lemma_slot(k, j);
                            self.lemma_slot(k, j);
                        }
                    }
                    assert(self@ =~= old_store@.insert(key@, (seq, value@)));
                }
            },
        }
        Ok(seq)
    }

    /// Removes `key` from the store.
    pub fn remove(&mut self, key: &str) -> (result: Result<()>)
        ensures
            final(self)@ == old(self)@.remove(key@),
            result is Ok,
    {
        proof {
            use_type_invariant(&*self);
        }
        let ghost old_store = *self;
        match self.find(key) {
            Some(i) => {
                let mut slots = Vec::new();
                std::mem::swap(&mut slots, &mut self.slots);
                slots.remove(i);
                self.slots = slots;
                proof {
                    assert forall|k: Seq<char>| #[trigger]
                        self@.contains_key(k) == old_store@.remove(key@).contains_key(k) by {
                        if k != key@ && old_store.holds(k) {
                            let j = old_store.slot_of(k);
                            if j < i {
                                assert(self.holds_at(k, j));
                            } else {
                                assert(self.holds_at(k, j - 1));
                            }
                        }
                        if self.holds(k) {
                            let j = self.slot_of(k);
                            if j < i {
                                assert(old_store.holds_at(k, j));
                            } else {
                                assert(old_store.holds_at(k, j + 1));
                            }
                        }
                    }
                    assert forall|k: Seq<char>| #[trigger]
                        self@.contains_key(k) implies self@[k] == old_store@.remove(key@)[k] by {
                        let j = self.slot_of(k);
                        assert(self.holds_at(k, j));
                        self.lemma_slot(k, j);
                        if j < i {
                            old_store.lemma_slot(k, j);
                        } else {
                            old_store.lemma_slot(k, j + 1);
                        }
                    }
                    assert(self@ =~= old_store@.remove(key@));
                }
            },
            None => {
                proof {
                    assert(self@ =~= old_store@.remove(key@));
                }
            },
        }
        Ok(())
    }
}

/// Copies a byte slice into a new vector.
fn slice_to_vec_u8(bytes: &[u8]) -> (v: Vec<u8>)
    ensures
        v@ == bytes@,
{
    let mut v: Vec<u8> = Vec::new();
    let mut i: usize = 0;
    while i < bytes.len()
        invariant
            0 <= i <= bytes.len(),
            v@ == bytes@.subrange(0, i as int),
        decreases bytes.len() - i,
    {
        v.push(bytes[i]);
        i = i + 1;
        assert(v@ =~= bytes@.subrange(0, i as int));
    }
    assert(bytes@.subrange(0, bytes.len() as int) =~= bytes@);
    v
}

impl KvStore for MemStore {
    type Sequencer = u64;

    /// A read of a stored key gives its sequencer and value; a read of a
    /// missing key fails with a permanent "not found" error.
    open spec fn get_ensures(&self, key: Seq<char>, result: Result<(u64, Vec<u8>)>) -> bool {
        if self@.contains_key(key) {
            result matches Ok((seq, value)) && seq == self@[key].0 && value@ == self@[key].1
        } else {
            result matches Err(e) && is_missing_key_error(e)
        }
    }

    /// A write stores the value under the key with the sequencer that follows
    /// `current_seq`, and returns it; where that sequencer does not fit in a
    /// `u64` the write fails and the store is unchanged.
    open spec fn set_ensures(
        &self,
        after: &Self,
        key: Seq<char>,
        value: Seq<u8>,
        current_seq: Option<u64>,
        result: Result<u64>,
    ) -> bool {
        if next_seq(current_seq) <= u64::MAX {
            &&& result == Ok::<u64, Error>(next_seq(current_seq) as u64)
            &&& after@ == self@.insert(key, (next_seq(current_seq) as u64, value))
        } else {
            &&& result matches Err(e) && is_sequence_overflow_error(e)
            &&& after@ == self@
        }
    }

    /// A delete removes the key, whether or not it was stored, and succeeds.
    open spec fn delete_ensures(
        &self,
        after: &Self,
        key: Seq<char>,
        current_seq: Option<u64>,
        result: Result<()>,
    ) -> bool {
        &&& result is Ok
        &&& after@ == self@.remove(key)
    }

    fn get(&self, key: &str) -> (result: Result<(u64, Vec<u8>)>) {
        self.read(key)
    }

    fn set(&mut self, key: &str, value: &[u8], current_seq: Option<u64>) -> (result: Result<u64>) {
        self.write(key, value, current_seq)
    }

    fn delete(&mut self, key: &str, current_seq: Option<u64>) -> (result: Result<()>) {
        self.remove(key)
    }
}

/// A read after a successful write gives back what was written: the value,
/// with the sequencer that the write returned.
pub proof fn lemma_read_after_write(
    before: MemStore,
    after: MemStore,
    key: Seq<char>,
    value: Seq<u8>,
    current_seq: Option<u64>,
    written: Result<u64>,
    read: Result<(u64, Vec<u8>)>,
)
    requires
        before.set_ensures(&after, key, value, current_seq, written),
        written is Ok,
        after.get_ensures(key, read),
    ensures
        read matches Ok((seq, v)) && written == Ok::<u64, Error>(seq) && v@ == value,
{
}

/// A write leaves every other key as it was.
pub proof fn lemma_write_keeps_other_keys(
    before: MemStore,
    after: MemStore,
    key: Seq<char>,
    value: Seq<u8>,
    current_seq: Option<u64>,
    written: Result<u64>,
    other: Seq<char>,
)
    requires
        before.set_ensures(&after, key, value, current_seq, written),
        other != key,
    ensures
        after@.contains_key(other) == before@.contains_key(other),
        after@.contains_key(other) ==> after@[other] == before@[other],
{
}

/// A write that fails leaves the store as it was.
pub proof fn lemma_failed_write_changes_nothing(
    before: MemStore,
    after: MemStore,
    key: Seq<char>,
    value: Seq<u8>,
    current_seq: Option<u64>,
    written: Result<u64>,
)
    requires
        before.set_ensures(&after, key, value, current_seq, written),
        written is Err,
    ensures
        after@ == before@,
{
}

/// A read after a delete of the same key fails as a read of a missing key.
pub proof fn lemma_read_after_delete(
    before: MemStore,
    after: MemStore,
    key: Seq<char>,
    current_seq: Option<u64>,
    deleted: Result<()>,
    read: Result<(u64, Vec<u8>)>,
)
    requires
        before.delete_ensures(&after, key, current_seq, deleted),
        after.get_ensures(key, read),
    ensures
        read matches Err(e) && is_missing_key_error(e),
{
}

/// A read through `KvEntry::get_then` hands the callback the stored
/// sequencer and exactly the stored bytes, and answers what the callback
/// answers; a read of a missing key is the RPC error of "not found".
pub proof fn lemma_read_hands_stored_bytes_to_callback<R, F>(
    store: MemStore,
    key: Seq<char>,
    then: F,
    result: core::result::Result<R, capnp::Error>,
)
    where
        F: FnOnce(u64, Vec<u8>) -> core::result::Result<R, capnp::Error>,
    requires
        read_outcome(&store, key, then, result),
    ensures
        store@.contains_key(key) ==> exists|bytes: Vec<u8>|
            bytes@ == store@[key].1 && #[trigger] call_ensures(
                then,
                (store@[key].0, bytes),
                result,
            ),
        !store@.contains_key(key) ==> exists|e: Error|
            #[trigger] is_missing_key_error(e) && result == Err::<R, capnp::Error>(
                capnp_error_of(e),
            ),
{
    let raw = choose|raw: Result<(u64, Vec<u8>)>|
        #[trigger] store.get_ensures(key, raw) && match raw {
            Err(e) => result == Err::<R, capnp::Error>(capnp_error_of(e)),
            Ok((seq, bytes)) => call_ensures(then, (seq, bytes), result),
        };
    match raw {
        Ok((seq, bytes)) => {
            assert(call_ensures(then, (store@[key].0, bytes), result));
        },
        Err(e) => {
            assert(is_missing_key_error(e));
        },
    }
}

} // verus!
