//! The pool of one-time keys of an account.
//!
//! The pool holds the public half of every one-time key that was generated
//! and not yet consumed by a handshake, and knows which of them still wait to
//! be published. A key leaves the pool when a handshake consumes it, and
//! never comes back.

use vstd::prelude::*;
use crate::error::KeyError;
use crate::keys::decode_key;
use crate::keys::key_of;
use crate::keys::OneTimeKey;
use crate::keys::OneTimeKeyView;
use crate::text::same_bytes;
use crate::text::same_text;

verus! {

/// The model of a key in the pool.
pub struct PooledKey {
    /// The id that the key was generated under.
    pub id: Seq<char>,
    /// The key in its text form.
    pub key: Seq<char>,
    /// The bytes of the key.
    pub raw: Seq<u8>,
    /// Whether the key has been published.
    pub published: bool,
}

/// The model of a pool: its keys, oldest first, and how many it can hold.
pub struct PoolView {
    pub keys: Seq<PooledKey>,
    pub capacity: nat,
}

/// A key of the pool as it is written down when the account is stored.
#[derive(Debug)]
pub struct StoredKey {
    pub id: String,
    pub key: String,
    pub published: bool,
}

/// The model of a stored key.
pub struct KeyRecord {
    pub id: Seq<char>,
    pub key: Seq<char>,
    pub published: bool,
}

impl View for StoredKey {
    type V = KeyRecord;

    open spec fn view(&self) -> KeyRecord {
        KeyRecord { id: self.id@, key: self.key@, published: self.published }
    }
}

/// The records of freshly generated keys: none is published.
pub open spec fn as_fresh(keys: Seq<OneTimeKeyView>) -> Seq<KeyRecord> {
    Seq::new(keys.len(), |i: int| KeyRecord { id: keys[i].id, key: keys[i].key, published: false })
}

/// The records of the keys of a pool.
pub open spec fn records_of(keys: Seq<PooledKey>) -> Seq<KeyRecord> {
    Seq::new(
        keys.len(),
        |i: int| KeyRecord { id: keys[i].id, key: keys[i].key, published: keys[i].published },
    )
}

/// The model of a key as it enters the pool.
pub open spec fn fresh_key(key: KeyRecord, raw: Seq<u8>) -> PooledKey {
    PooledKey { id: key.id, key: key.key, raw, published: key.published }
}

/// Why `key` cannot join `keys`, if it cannot: it is no key, or its id or
/// its bytes are among `keys` already.
pub open spec fn refusal(keys: Seq<PooledKey>, key: KeyRecord) -> Option<KeyError> {
    match key_of(key.key) {
        None => Some(KeyError::Malformed),
        Some(raw) => if exists|i: int|
            0 <= i < keys.len() && ((#[trigger] keys[i]).id == key.id || keys[i].raw == raw) {
            Some(KeyError::Duplicate)
        } else {
            None
        },
    }
}

/// `keys` after each of `fresh` has joined in turn, or the refusal of the
/// first that cannot.
pub open spec fn admitted(keys: Seq<PooledKey>, fresh: Seq<KeyRecord>) -> Result<
    Seq<PooledKey>,
    KeyError,
>
    decreases fresh.len(),
{
    if fresh.len() == 0 {
        Ok(keys)
    } else {
        match refusal(keys, fresh[0]) {
            Some(error) => Err(error),
            None => admitted(
                keys.push(fresh_key(fresh[0], key_of(fresh[0].key).unwrap())),
                fresh.skip(1),
            ),
        }
    }
}

/// The keys among `keys` that still wait to be published, oldest first.
pub open spec fn unpublished(keys: Seq<PooledKey>) -> Seq<OneTimeKeyView>
    decreases keys.len(),
{
    if keys.len() == 0 {
        Seq::empty()
    } else {
        let earlier = unpublished(keys.drop_last());
        if keys.last().published {
            earlier
        } else {
            earlier.push(OneTimeKeyView { id: keys.last().id, key: keys.last().key })
        }
    }
}

/// Whether `keys` holds `key` under the same id.
pub open spec fn knows(keys: Seq<PooledKey>, key: OneTimeKeyView) -> bool {
    exists|i: int| 0 <= i < keys.len() && (#[trigger] keys[i]).id == key.id && keys[i].key == key.key
}

/// The keys among `listed` that `keys` does not hold, in their order.
pub open spec fn unknown(keys: Seq<PooledKey>, listed: Seq<OneTimeKeyView>) -> Seq<OneTimeKeyView>
    decreases listed.len(),
{
    if listed.len() == 0 {
        Seq::empty()
    } else {
        let earlier = unknown(keys, listed.drop_last());
        if knows(keys, listed.last()) {
            earlier
        } else {
            earlier.push(listed.last())
        }
    }
}

/// `keys` with every key marked as published.
pub open spec fn all_published(keys: Seq<PooledKey>) -> Seq<PooledKey> {
    Seq::new(
        keys.len(),
        |i: int| PooledKey { id: keys[i].id, key: keys[i].key, raw: keys[i].raw, published: true },
    )
}

impl PoolView {
    /// What holds of every pool: it keeps within its capacity, each key is
    /// the text form of its bytes, and no id and no key occurs twice.
    pub open spec fn wf(self) -> bool {
        &&& self.keys.len() <= self.capacity
        &&& forall|i: int|
            0 <= i < self.keys.len() ==> key_of((#[trigger] self.keys[i]).key) == Some(
                self.keys[i].raw,
            )
        &&& forall|i: int, j: int|
            0 <= i < j < self.keys.len() ==> (#[trigger] self.keys[i]).id != (
            #[trigger] self.keys[j]).id && self.keys[i].raw != self.keys[j].raw
    }

    /// Whether the pool holds the key with the bytes `raw`.
    pub open spec fn holds(self, raw: Seq<u8>) -> bool {
        exists|i: int| 0 <= i < self.keys.len() && (#[trigger] self.keys[i]).raw == raw
    }

    /// The place of the key with the bytes `raw`, where the pool holds it.
    pub open spec fn index_of(self, raw: Seq<u8>) -> int {
        choose|i: int| 0 <= i < self.keys.len() && (#[trigger] self.keys[i]).raw == raw
    }
}

/// Once every key is published, none waits to be.
pub proof fn lemma_none_left_unpublished(keys: Seq<PooledKey>)
    ensures
        unpublished(all_published(keys)) == Seq::<OneTimeKeyView>::empty(),
    decreases keys.len(),
{
    if keys.len() > 0 {
        lemma_none_left_unpublished(keys.drop_last());
        assert(all_published(keys).drop_last() =~= all_published(keys.drop_last()));
    }
}

/// The keys of a pool can be taken into a pool again: written down and
/// read back behind `base`, they stand as they stood.
pub proof fn lemma_keys_can_be_taken_in_again(base: Seq<PooledKey>, keys: Seq<PooledKey>)
    requires
        (PoolView { keys: base + keys, capacity: (base + keys).len() }).wf(),
    ensures
        admitted(base, records_of(keys)) == Ok::<Seq<PooledKey>, KeyError>(base + keys),
    decreases keys.len(),
{
    let all = base + keys;
    if keys.len() == 0 {
        assert(base + keys =~= base);
    } else {
        let first = records_of(keys)[0];
        assert(all[base.len() as int] == keys[0]);
        assert(key_of(first.key) == Some(keys[0].raw));
        assert forall|i: int| 0 <= i < base.len() implies !((#[trigger] base[i]).id == first.id
            || base[i].raw == keys[0].raw) by {
            assert(all[i] == base[i]);
        }
        assert(refusal(base, first) is None);
        assert(fresh_key(first, keys[0].raw) == keys[0]);
        assert(base.push(keys[0]) + keys.skip(1) =~= all);
        assert(records_of(keys).skip(1) =~= records_of(keys.skip(1)));
        lemma_keys_can_be_taken_in_again(base.push(keys[0]), keys.skip(1));
    }
}

/// A key that is consumed is gone: a pool never holds a key twice, so what
/// is left after one is taken out does not hold it.
pub proof fn lemma_consumed_key_is_gone(pool: PoolView, raw: Seq<u8>)
    requires
        pool.wf(),
        pool.holds(raw),
    ensures
        !(PoolView { keys: pool.keys.remove(pool.index_of(raw)), capacity: pool.capacity }).holds(
            raw,
        ),
{
    let at = pool.index_of(raw);
    let rest = pool.keys.remove(at);
    assert forall|i: int| 0 <= i < rest.len() implies (#[trigger] rest[i]).raw != raw by {
        if i < at {
            assert(rest[i] == pool.keys[i]);
        } else {
            assert(rest[i] == pool.keys[i + 1]);
        }
    }
}

#[derive(Debug)]
struct Entry {
    id: String,
    key: String,
    raw: Vec<u8>,
    published: bool,
}

impl Entry {
    spec fn model(self) -> PooledKey {
        PooledKey { id: self.id@, key: self.key@, raw: self.raw@, published: self.published }
    }
}

/// The models of `entries`, in their order.
spec fn models(entries: Seq<Entry>) -> Seq<PooledKey> {
    Seq::new(entries.len(), |i: int| entries[i].model())
}

/// The one-time keys of an account.
#[derive(Debug)]
pub struct OneTimeKeyPool {
    entries: Vec<Entry>,
    capacity: usize,
}

impl View for OneTimeKeyPool {
    type V = PoolView;

    closed spec fn view(&self) -> PoolView {
        PoolView {
            keys: models(self.entries@),
            capacity: self.capacity as nat,
        }
    }
}

/// Why `key` cannot join `held` and `staged`, or its bytes.
fn examine(held: &Vec<Entry>, staged: &Vec<Entry>, key: &StoredKey) -> (r: Result<
    Vec<u8>,
    KeyError,
>)
    ensures
        match r {
            Ok(raw) => refusal(models(held@) + models(staged@), key@) is None && key_of(key@.key)
                == Some(raw@),
            Err(error) => refusal(models(held@) + models(staged@), key@) == Some(error),
        },
{
    let ghost first = models(held@);
    let ghost second = models(staged@);
    let ghost all = first + second;
    let raw = match decode_key(key.key.as_str()) {
        Some(raw) => raw,
        None => {
            return Err(KeyError::Malformed);
        },
    };
    let mut i: usize = 0;
    while i < held.len()
        invariant
            i <= held.len(),
            first == models(held@),
            second == models(staged@),
            all == first + second,
            key_of(key@.key) == Some(raw@),
            forall|k: int| 0 <= k < i ==> (#[trigger] all[k]).id != key@.id && all[k].raw != raw@,
        decreases held.len() - i,
    {
        assert(all[i as int] == held@[i as int].model());
        assert(0 <= i < all.len());
        if same_text(held[i].id.as_str(), key.id.as_str()) || same_bytes(
            held[i].raw.as_slice(),
            raw.as_slice(),
        ) {
            return Err(KeyError::Duplicate);
        }
        i += 1;
    }
    let mut j: usize = 0;
    while j < staged.len()
        invariant
            j <= staged.len(),
            first == models(held@),
            second == models(staged@),
            all == first + second,
            key_of(key@.key) == Some(raw@),
            forall|k: int|
                0 <= k < first.len() + j ==> (#[trigger] all[k]).id != key@.id && all[k].raw
                    != raw@,
        decreases staged.len() - j,
    {
        assert(all[first.len() + j] == staged@[j as int].model());
        assert(0 <= first.len() + j < all.len());
        if same_text(staged[j].id.as_str(), key.id.as_str()) || same_bytes(
            staged[j].raw.as_slice(),
            raw.as_slice(),
        ) {
            return Err(KeyError::Duplicate);
        }
        j += 1;
    }
    Ok(raw)
}

impl OneTimeKeyPool {
    /// An empty pool that can hold `capacity` keys.
    pub fn new(capacity: usize) -> (r: OneTimeKeyPool)
        ensures
            r@.wf(),
            r@.keys.len() == 0,
            r@.capacity == capacity,
    {
        OneTimeKeyPool { entries: Vec::new(), capacity }
    }

    /// How many keys the pool can hold.
    pub fn capacity(&self) -> (r: usize)
        ensures
            r == self@.capacity,
    {
        self.capacity
    }

    /// How many keys the pool holds.
    pub fn len(&self) -> (r: usize)
        ensures
            r == self@.keys.len(),
    {
        self.entries.len()
    }

    /// Takes keys into the pool as they are written down, all of them or
    /// none.
    ///
    /// The keys join behind the keys that the pool holds; none of those is
    /// touched. The batch is refused as a whole where it would not fit, or
    /// where one of its keys is no key or is in the pool already.
    pub fn take_in_stored(&mut self, fresh: &Vec<StoredKey>) -> (r: Result<usize, KeyError>)
        requires
            old(self)@.wf(),
        ensures
            final(self)@.wf(),
            final(self)@.capacity == old(self)@.capacity,
            match r {
                Ok(count) => {
                    &&& old(self)@.keys.len() + fresh@.len() <= old(self)@.capacity
                    &&& count == fresh@.len()
                    &&& admitted(old(self)@.keys, fresh@.map_values(|k: StoredKey| k@)) == Ok::<
                        Seq<PooledKey>,
                        KeyError,
                    >(final(self)@.keys)
                    &&& final(self)@.keys.len() == old(self)@.keys.len() + fresh@.len()
                    &&& final(self)@.keys.take(old(self)@.keys.len() as int) == old(self)@.keys
                },
                Err(error) => {
                    &&& final(self)@ == old(self)@
                    &&& if old(self)@.keys.len() + fresh@.len() > old(self)@.capacity {
                        error == KeyError::PoolFull
                    } else {
                        admitted(old(self)@.keys, fresh@.map_values(|k: StoredKey| k@)) == Err::<
                            Seq<PooledKey>,
                            KeyError,
                        >(error)
                    }
                },
            },
    {
        if fresh.len() > self.capacity - self.entries.len() {
            return Err(KeyError::PoolFull);
        }
        let ghost held = self@.keys;
        let ghost batch = fresh@.map_values(|k: StoredKey| k@);
        let mut staged: Vec<Entry> = Vec::new();
        let mut i: usize = 0;
        assert(batch.skip(0) =~= batch);
        assert(held + models(staged@) =~= held);
        while i < fresh.len()
            invariant
                i <= fresh.len(),
                staged@.len() == i,
                *self == *old(self),
                held.len() + fresh@.len() <= self.capacity,
                held == self@.keys,
                held == models(self.entries@),
                batch == fresh@.map_values(|k: StoredKey| k@),
                self@.wf(),
                (PoolView {
                    keys: held + models(staged@),
                    capacity: (held.len() + i) as nat,
                }).wf(),
                admitted(held, batch) == admitted(
                    held + models(staged@),
                    batch.skip(i as int),
                ),
            decreases fresh.len() - i,
        {
            let ghost before = held + models(staged@);
            assert(batch.skip(i as int)[0] == fresh@[i as int]@);
            assert(batch.skip(i as int).skip(1) =~= batch.skip(i + 1));
            match examine(&self.entries, &staged, &fresh[i]) {
                Ok(raw) => {
                    let key = &fresh[i];
                    staged.push(
                        Entry {
                            id: key.id.clone(),
                            key: key.key.clone(),
                            raw,
                            published: key.published,
                        },
                    );
                    proof {
                        let after = held + models(staged@);
                        let joined = fresh_key(fresh@[i as int]@, key_of(fresh@[i as int]@.key).unwrap());
                        assert(after =~= before.push(joined));
                        assert forall|a: int, b: int| 0 <= a < b < after.len() implies (
                        #[trigger] after[a]).id != (#[trigger] after[b]).id && after[a].raw
                            != after[b].raw by {
                            if b < before.len() {
                                assert(after[a] == before[a]);
                                assert(after[b] == before[b]);
                            } else {
                                assert(after[a] == before[a]);
                            }
                        }
                        assert forall|a: int| 0 <= a < after.len() implies key_of(
                            (#[trigger] after[a]).key,
                        ) == Some(after[a].raw) by {
                            if a < before.len() {
                                assert(after[a] == before[a]);
                            }
                        }
                    }
                },
                Err(error) => {
                    return Err(error);
                },
            }
            i += 1;
        }
        proof {
            assert(batch.skip(fresh@.len() as int) =~= Seq::<KeyRecord>::empty());
        }
        let ghost grown = held + models(staged@);
        self.entries.append(&mut staged);
        proof {
            assert(self@.keys =~= grown);
            assert(self@.keys.take(held.len() as int) =~= held);
        }
        Ok(fresh.len())
    }

    /// Takes freshly generated keys into the pool, all of them or none.
    ///
    /// The keys join as they are, waiting to be published, behind the keys
    /// that the pool holds; none of those is touched. The batch is refused
    /// as a whole where it would not fit, or where one of its keys is no
    /// key or is in the pool already.
    pub fn take_in(&mut self, fresh: &Vec<OneTimeKey>) -> (r: Result<usize, KeyError>)
        requires
            old(self)@.wf(),
        ensures
            final(self)@.wf(),
            final(self)@.capacity == old(self)@.capacity,
            match r {
                Ok(count) => {
                    &&& old(self)@.keys.len() + fresh@.len() <= old(self)@.capacity
                    &&& count == fresh@.len()
                    &&& admitted(
                        old(self)@.keys,
                        as_fresh(fresh@.map_values(|k: OneTimeKey| k@)),
                    ) == Ok::<Seq<PooledKey>, KeyError>(final(self)@.keys)
                    &&& final(self)@.keys.len() == old(self)@.keys.len() + fresh@.len()
                    &&& final(self)@.keys.take(old(self)@.keys.len() as int) == old(self)@.keys
                },
                Err(error) => {
                    &&& final(self)@ == old(self)@
                    &&& if old(self)@.keys.len() + fresh@.len() > old(self)@.capacity {
                        error == KeyError::PoolFull
                    } else {
                        admitted(
                            old(self)@.keys,
                            as_fresh(fresh@.map_values(|k: OneTimeKey| k@)),
                        ) == Err::<Seq<PooledKey>, KeyError>(error)
                    }
                },
            },
    {
        let mut stored: Vec<StoredKey> = Vec::new();
        let mut i: usize = 0;
        while i < fresh.len()
            invariant
                i <= fresh.len(),
                stored@.len() == i,
                forall|k: int|
                    0 <= k < i ==> (#[trigger] stored@[k])@ == (KeyRecord {
                        id: fresh@[k]@.id,
                        key: fresh@[k]@.key,
                        published: false,
                    }),
            decreases fresh.len() - i,
        {
            let key = &fresh[i];
            stored.push(StoredKey { id: key.id.clone(), key: key.key.clone(), published: false });
            i += 1;
        }
        assert(stored@.map_values(|k: StoredKey| k@) =~= as_fresh(
            fresh@.map_values(|k: OneTimeKey| k@),
        ));
        self.take_in_stored(&stored)
    }

    /// The keys of the pool as they are written down, oldest first.
    pub fn stored_keys(&self) -> (r: Vec<StoredKey>)
        ensures
            r@.map_values(|k: StoredKey| k@) == records_of(self@.keys),
    {
        let mut stored: Vec<StoredKey> = Vec::new();
        let mut i: usize = 0;
        while i < self.entries.len()
            invariant
                i <= self.entries.len(),
                stored@.len() == i,
                forall|k: int|
                    0 <= k < i ==> (#[trigger] stored@[k])@ == records_of(self@.keys)[k],
            decreases self.entries.len() - i,
        {
            let entry = &self.entries[i];
            stored.push(
                StoredKey {
                    id: entry.id.clone(),
                    key: entry.key.clone(),
                    published: entry.published,
                },
            );
            i += 1;
        }
        assert(stored@.map_values(|k: StoredKey| k@) =~= records_of(self@.keys));
        stored
    }

    /// Whether the pool holds `key` under the same id.
    pub fn knows(&self, key: &OneTimeKey) -> (r: bool)
        ensures
            r == knows(self@.keys, key@),
    {
        let mut i: usize = 0;
        while i < self.entries.len()
            invariant
                i <= self.entries.len(),
                forall|k: int|
                    0 <= k < i ==> !((#[trigger] self@.keys[k]).id == key@.id && self@.keys[k].key
                        == key@.key),
            decreases self.entries.len() - i,
        {
            assert(self@.keys[i as int] == self.entries@[i as int].model());
            if same_text(self.entries[i].id.as_str(), key.id.as_str()) && same_text(
                self.entries[i].key.as_str(),
                key.key.as_str(),
            ) {
                return true;
            }
            i += 1;
        }
        false
    }

    /// The keys among `listed` that the pool does not hold yet, in their
    /// order: what is new when the backend lists its keys again.
    pub fn unknown_among(&self, listed: &Vec<OneTimeKey>) -> (r: Vec<OneTimeKey>)
        ensures
            r@.map_values(|k: OneTimeKey| k@) == unknown(
                self@.keys,
                listed@.map_values(|k: OneTimeKey| k@),
            ),
    {
        let ghost all = listed@.map_values(|k: OneTimeKey| k@);
        let mut fresh: Vec<OneTimeKey> = Vec::new();
        let mut i: usize = 0;
        assert(all.take(0) =~= Seq::<OneTimeKeyView>::empty());
        assert(fresh@.map_values(|k: OneTimeKey| k@) =~= Seq::<OneTimeKeyView>::empty());
        while i < listed.len()
            invariant
                i <= listed.len(),
                all == listed@.map_values(|k: OneTimeKey| k@),
                fresh@.map_values(|k: OneTimeKey| k@) == unknown(self@.keys, all.take(i as int)),
            decreases listed.len() - i,
        {
            let ghost so_far = fresh@.map_values(|k: OneTimeKey| k@);
            assert(all.take(i + 1).drop_last() =~= all.take(i as int));
            assert(all.take(i + 1).last() == listed@[i as int]@);
            if !self.knows(&listed[i]) {
                fresh.push(listed[i].duplicate());
                assert(fresh@.map_values(|k: OneTimeKey| k@) =~= so_far.push(listed@[i as int]@));
            }
            i += 1;
        }
        assert(all.take(listed@.len() as int) =~= all);
        fresh
    }

    /// The keys that wait to be published, oldest first.
    pub fn unpublished_keys(&self) -> (r: Vec<OneTimeKey>)
        ensures
            r@.map_values(|k: OneTimeKey| k@) == unpublished(self@.keys),
    {
        let mut waiting: Vec<OneTimeKey> = Vec::new();
        let mut i: usize = 0;
        let ghost keys = self@.keys;
        assert(keys.take(0) =~= Seq::<PooledKey>::empty());
        assert(waiting@.map_values(|k: OneTimeKey| k@) =~= Seq::<OneTimeKeyView>::empty());
        while i < self.entries.len()
            invariant
                i <= self.entries.len(),
                keys == self@.keys,
                keys.len() == self.entries@.len(),
                waiting@.map_values(|k: OneTimeKey| k@) == unpublished(keys.take(i as int)),
            decreases self.entries.len() - i,
        {
            let ghost so_far = waiting@.map_values(|k: OneTimeKey| k@);
            assert(keys.take(i + 1).drop_last() =~= keys.take(i as int));
            assert(keys.take(i + 1).last() == self.entries@[i as int].model());
            if !self.entries[i].published {
                let entry = &self.entries[i];
                waiting.push(OneTimeKey { id: entry.id.clone(), key: entry.key.clone() });
                assert(waiting@.map_values(|k: OneTimeKey| k@) =~= so_far.push(
                    OneTimeKeyView { id: entry.id@, key: entry.key@ },
                ));
            }
            i += 1;
        }
        assert(keys.take(self.entries@.len() as int) =~= keys);
        waiting
    }

    /// Records that every key of the pool has been published. The keys stay
    /// in the pool, ready to be consumed.
    pub fn mark_published(&mut self)
        requires
            old(self)@.wf(),
        ensures
            final(self)@.wf(),
            final(self)@.capacity == old(self)@.capacity,
            final(self)@.keys == all_published(old(self)@.keys),
            unpublished(final(self)@.keys) == Seq::<OneTimeKeyView>::empty(),
    {
        let ghost before = self@.keys;
        let n = self.entries.len();
        let mut i: usize = 0;
        while i < n
            invariant
                i <= n,
                n == self.entries@.len(),
                self.capacity == old(self).capacity,
                before == old(self)@.keys,
                before.len() == n,
                forall|k: int|
                    0 <= k < i ==> (#[trigger] self.entries@[k]).model() == all_published(
                        before,
                    )[k],
                forall|k: int| i <= k < n ==> (#[trigger] self.entries@[k]).model() == before[k],
            decreases n - i,
        {
            self.entries[i].published = true;
            i += 1;
        }
        proof {
            assert(self@.keys =~= all_published(before));
            lemma_none_left_unpublished(before);
        }
    }

    /// Where the pool holds the key with the bytes `raw`, if it does.
    pub fn find(&self, raw: &[u8]) -> (r: Option<usize>)
        requires
            self@.wf(),
        ensures
            match r {
                Some(at) => self@.holds(raw@) && at == self@.index_of(raw@),
                None => !self@.holds(raw@),
            },
    {
        let mut i: usize = 0;
        while i < self.entries.len()
            invariant
                i <= self.entries.len(),
                self@.wf(),
                forall|k: int| 0 <= k < i ==> (#[trigger] self@.keys[k]).raw != raw@,
            decreases self.entries.len() - i,
        {
            if same_bytes(self.entries[i].raw.as_slice(), raw) {
                assert(self@.keys[i as int].raw == raw@);
                return Some(i);
            }
            assert(self@.keys[i as int].raw != raw@);
            i += 1;
        }
        None
    }

    /// Takes the key at `at` out of the pool for good.
    pub fn consume(&mut self, at: usize) -> (r: OneTimeKey)
        requires
            old(self)@.wf(),
            at < old(self)@.keys.len(),
        ensures
            final(self)@.wf(),
            final(self)@.capacity == old(self)@.capacity,
            final(self)@.keys == old(self)@.keys.remove(at as int),
            r@.id == old(self)@.keys[at as int].id,
            r@.key == old(self)@.keys[at as int].key,
    {
        let ghost before = self@.keys;
        let entry = self.entries.remove(at);
        proof {
            let after = self@.keys;
            assert(after =~= before.remove(at as int));
            assert forall|a: int| 0 <= a < after.len() implies key_of((#[trigger] after[a]).key)
                == Some(after[a].raw) by {
                if a < at {
                    assert(after[a] == before[a]);
                } else {
                    assert(after[a] == before[a + 1]);
                }
            }
            assert forall|a: int, b: int| 0 <= a < b < after.len() implies (#[trigger] after[a]).id
                != (#[trigger] after[b]).id && after[a].raw != after[b].raw by {
                let x = if a < at { a } else { a + 1 };
                let y = if b < at { b } else { b + 1 };
                assert(after[a] == before[x]);
                assert(after[b] == before[y]);
            }
        }
        OneTimeKey { id: entry.id, key: entry.key }
    }
}

} // verus!
