//! The latest reading of each device, kept by the data receiver and read by the device
//! listing.

use vstd::prelude::*;

verus! {

spec fn key_of<T>(entries: Seq<(String, T)>, i: int) -> Seq<char> {
    entries[i].0@
}

spec fn holds_key<T>(entries: Seq<(String, T)>, k: Seq<char>, i: int) -> bool {
    0 <= i < entries.len() && key_of(entries, i) == k
}

/// No device appears twice among the entries.
spec fn unique_keys<T>(entries: Seq<(String, T)>) -> bool {
    forall|i: int, j: int|
        0 <= i < entries.len() && 0 <= j < entries.len() && i != j ==> key_of(entries, i)
            != key_of(entries, j)
}

/// The value recorded for each device among the entries.
spec fn entries_view<T>(entries: Seq<(String, T)>) -> Map<Seq<char>, T> {
    Map::new(
        |k: Seq<char>| exists|i: int| holds_key(entries, k, i),
        |k: Seq<char>| entries[choose|i: int| holds_key(entries, k, i)].1,
    )
}

proof fn lemma_lookup<T>(entries: Seq<(String, T)>, k: Seq<char>, i: int)
    requires
        unique_keys(entries),
        holds_key(entries, k, i),
    ensures
        entries_view(entries).contains_key(k),
        entries_view(entries)[k] == entries[i].1,
{
    let c = choose|c: int| holds_key(entries, k, c);
    assert(holds_key(entries, k, c));
}

/// Writing `(key, data)` at `pos` — over the entry of `key`, or after the last entry
/// when `key` is new — keeps the keys unique and records `data` for `key` alone.
proof fn lemma_write_entry<T>(
    entries: Seq<(String, T)>,
    updated: Seq<(String, T)>,
    pos: int,
    key: Seq<char>,
    data: T,
)
    requires
        unique_keys(entries),
        0 <= pos < updated.len(),
        updated.len() == if pos < entries.len() { entries.len() } else { entries.len() + 1 },
        key_of(updated, pos) == key,
        updated[pos].1 == data,
        forall|j: int| 0 <= j < updated.len() && j != pos ==> #[trigger] updated[j] == entries[j],
        pos < entries.len() ==> key_of(entries, pos) == key,
        pos == entries.len() ==> forall|j: int| 0 <= j < entries.len() ==> key_of(entries, j) != key,
    ensures
        unique_keys(updated),
        entries_view(updated) == entries_view(entries).insert(key, data),
{
    assert forall|i: int, j: int|
        0 <= i < updated.len() && 0 <= j < updated.len() && i != j implies key_of(updated, i)
            != key_of(updated, j) by {
        if i != pos {
            assert(updated[i] == entries[i]);
            assert(key_of(updated, i) == key_of(entries, i));
        }
        if j != pos {
            assert(updated[j] == entries[j]);
            assert(key_of(updated, j) == key_of(entries, j));
        }
        if i != pos && j != pos {
            assert(key_of(entries, i) != key_of(entries, j));
        } else if i == pos && pos < entries.len() {
            assert(key_of(entries, pos) != key_of(entries, j));
        } else if j == pos && pos < entries.len() {
            assert(key_of(entries, i) != key_of(entries, pos));
        }
    }
    let old_view = entries_view(entries);
    let new_view = entries_view(updated);
    assert forall|k: Seq<char>| #[trigger] new_view.contains_key(k) <==> old_view.insert(
        key,
        data,
    ).contains_key(k) by {
        if k == key {
            assert(holds_key(updated, k, pos));
        } else {
            if exists|j: int| holds_key(updated, k, j) {
                let j = choose|j: int| holds_key(updated, k, j);
                assert(updated[j] == entries[j]);
                assert(holds_key(entries, k, j));
            }
            if exists|j: int| holds_key(entries, k, j) {
                let j = choose|j: int| holds_key(entries, k, j);
                assert(j != pos);
                assert(updated[j] == entries[j]);
                assert(holds_key(updated, k, j));
            }
        }
    }
    assert forall|k: Seq<char>| #[trigger] new_view.contains_key(k) implies new_view[k] == old_view.insert(
        key,
        data,
    )[k] by {
        if k == key {
            lemma_lookup(updated, k, pos);
        } else {
            let j = choose|j: int| holds_key(updated, k, j);
            lemma_lookup(updated, k, j);
            assert(updated[j] == entries[j]);
            assert(holds_key(entries, k, j));
            lemma_lookup(entries, k, j);
        }
    }
    assert(new_view =~= old_view.insert(key, data));
}

proof fn lemma_len<T>(entries: Seq<(String, T)>)
    requires
        unique_keys(entries),
    ensures
        entries_view(entries).dom().len() == entries.len(),
{
    let keys = Seq::new(entries.len(), |i: int| key_of(entries, i));
    assert(keys.no_duplicates());
    assert forall|k: Seq<char>| entries_view(entries).dom().contains(k) <==> keys.to_set().contains(k) by {
        if entries_view(entries).dom().contains(k) {
            let i = choose|i: int| holds_key(entries, k, i);
            assert(keys[i] == k);
        }
        if keys.to_set().contains(k) {
            let i = choose|i: int| 0 <= i < keys.len() && keys[i] == k;
            assert(holds_key(entries, k, i));
        }
    }
    assert(entries_view(entries).dom() =~= keys.to_set());
    keys.unique_seq_to_set();
}

/// Each value occurs among the entries as often as devices hold it.
proof fn lemma_value_count<T>(entries: Seq<(String, T)>, v: T)
    requires
        unique_keys(entries),
    ensures
        entries_view(entries).dom().finite(),
        entries.map_values(|p: (String, T)| p.1).to_multiset().count(v) == devices_holding(
            entries_view(entries),
            v,
        ),
    decreases entries.len(),
{
    broadcast use vstd::seq_lib::group_to_multiset_ensures;

    let view = entries_view(entries);
    if entries.len() == 0 {
        assert(view.dom() =~= Set::<Seq<char>>::empty());
        assert(view.dom().filter(|k: Seq<char>| view[k] == v) =~= Set::<Seq<char>>::empty());
        assert(entries.map_values(|p: (String, T)| p.1) =~= Seq::<T>::empty());
    } else {
        let prefix = entries.drop_last();
        let n = prefix.len() as int;
        let key = key_of(entries, n);
        let data = entries[n].1;
        assert forall|i: int, j: int|
            0 <= i < prefix.len() && 0 <= j < prefix.len() && i != j implies key_of(prefix, i)
                != key_of(prefix, j) by {
            assert(key_of(prefix, i) == key_of(entries, i));
            assert(key_of(prefix, j) == key_of(entries, j));
        }
        lemma_value_count(prefix, v);
        assert forall|j: int| 0 <= j < prefix.len() implies key_of(prefix, j) != key by {
            assert(key_of(prefix, j) == key_of(entries, j));
        }
        lemma_write_entry(prefix, entries, n, key, data);
        let before = entries_view(prefix);
        assert(view == before.insert(key, data));
        assert(!before.contains_key(key)) by {
            if before.contains_key(key) {
                let j = choose|j: int| holds_key(prefix, key, j);
                assert(key_of(prefix, j) != key);
            }
        }
        assert(entries.map_values(|p: (String, T)| p.1) =~= prefix.map_values(
            |p: (String, T)| p.1,
        ).push(data));
        let old_held = before.dom().filter(|k: Seq<char>| before[k] == v);
        let new_held = view.dom().filter(|k: Seq<char>| view[k] == v);
        if data == v {
            assert(new_held =~= old_held.insert(key));
        } else {
            assert(new_held =~= old_held);
        }
    }
}

/// The latest value recorded for each device, keyed by device identifier.
pub struct DeviceCache<T> {
    entries: Vec<(String, T)>,
}

impl<T> View for DeviceCache<T> {
    type V = Map<Seq<char>, T>;

    /// The cached value of each device.
    closed spec fn view(&self) -> Map<Seq<char>, T> {
        entries_view(self.entries@)
    }
}

/// The number of devices whose value in `cached` is `v`.
pub open spec fn devices_holding<T>(cached: Map<Seq<char>, T>, v: T) -> nat {
    cached.dom().filter(|k: Seq<char>| cached[k] == v).len()
}

impl<T> DeviceCache<T> {
    /// No device appears twice.
    #[verifier::type_invariant]
    spec fn wf(self) -> bool {
        unique_keys(self.entries@)
    }

    /// `v` is the cached value of some device.
    pub open spec fn is_cached_value(self, v: T) -> bool {
        exists|k: Seq<char>| #[trigger] self@.contains_key(k) && self@[k] == v
    }

    /// An empty cache.
    pub fn new() -> (cache: DeviceCache<T>)
        ensures
            cache@ == Map::<Seq<char>, T>::empty(),
    {
        let cache = DeviceCache { entries: Vec::new() };
        assert(cache@ =~= Map::<Seq<char>, T>::empty());
        cache
    }

    fn position(entries: &Vec<(String, T)>, device_id: &str) -> (pos: Option<usize>)
        ensures
            match pos {
                Some(i) => holds_key(entries@, device_id@, i as int),
                None => forall|i: int| !holds_key(entries@, device_id@, i),
            },
    {
        let target = String::from_str(device_id);
        let mut i: usize = 0;
        while i < entries.len()
            invariant
                i <= entries@.len(),
                target@ == device_id@,
                forall|j: int| 0 <= j < i ==> !holds_key(entries@, device_id@, j),
            decreases entries@.len() - i,
        {
            if entries[i].0 == target {
                return Some(i);
            }
            i = i + 1;
        }
        None
    }

    /// Records `data` as the latest value of `device_id`, replacing any earlier one.
    pub fn insert(&mut self, device_id: String, data: T)
        ensures
            final(self)@ == old(self)@.insert(device_id@, data),
    {
        proof {
            use_type_invariant(&*self);
        }
        let ghost key = device_id@;
        let mut entries: Vec<(String, T)> = Vec::new();
        std::mem::swap(&mut entries, &mut self.entries);
        let ghost before = entries@;
        match Self::position(&entries, device_id.as_str()) {
            Some(i) => {
                entries.set(i, (device_id, data));
                proof {
                    lemma_write_entry(before, entries@, i as int, key, data);
                }
            },
            None => {
                assert forall|j: int| 0 <= j < before.len() implies key_of(before, j) != key by {
                    assert(!holds_key(before, key, j));
                }
                entries.push((device_id, data));
                proof {
                    lemma_write_entry(before, entries@, before.len() as int, key, data);
                }
            },
        }
        self.entries = entries;
    }

    /// The latest value of `device_id`, if one was recorded.
    pub fn get(&self, device_id: &str) -> (data: Option<&T>)
        ensures
            match data {
                Some(v) => self@.contains_key(device_id@) && *v == self@[device_id@],
                None => !self@.contains_key(device_id@),
            },
    {
        proof {
            use_type_invariant(self);
        }
        match Self::position(&self.entries, device_id) {
            Some(i) => {
                proof {
                    lemma_lookup(self.entries@, device_id@, i as int);
                }
                Some(&self.entries[i].1)
            },
            None => None,
        }
    }

    /// The number of devices with a recorded value.
    pub fn len(&self) -> (n: usize)
        ensures
            n == self@.dom().len(),
    {
        proof {
            use_type_invariant(self);
            lemma_len(self.entries@);
        }
        self.entries.len()
    }

    /// The recorded values, one per device.
    pub fn values(&self) -> (values: Vec<&T>)
        ensures
            values@.len() == self@.dom().len(),
            forall|v: T|
                values@.map_values(|r: &T| *r).to_multiset().count(v) == #[trigger] devices_holding(self@, v),
            forall|k: Seq<char>| #[trigger] self@.contains_key(k) ==> values@.contains(&self@[k]),
            forall|i: int| 0 <= i < values@.len() ==> self.is_cached_value(*#[trigger] values@[i]),
    {
        proof {
            use_type_invariant(self);
        }
        let mut values: Vec<&T> = Vec::new();
        let mut i: usize = 0;
        while i < self.entries.len()
            invariant
                i <= self.entries@.len(),
                values@.len() == i,
                forall|j: int| 0 <= j < i ==> values@[j] == &self.entries@[j].1,
            decreases self.entries@.len() - i,
        {
            values.push(&self.entries[i].1);
            i = i + 1;
        }
        proof {
            let e = self.entries@;
            lemma_len(e);
            assert(values@.map_values(|r: &T| *r) =~= e.map_values(|p: (String, T)| p.1));
            assert forall|v: T|
                values@.map_values(|r: &T| *r).to_multiset().count(v) == #[trigger] devices_holding(self@, v) by {
                lemma_value_count(e, v);
            }
            assert forall|k: Seq<char>| #[trigger] self@.contains_key(k) implies values@.contains(&self@[k]) by {
                let j = choose|j: int| holds_key(e, k, j);
                lemma_lookup(e, k, j);
                assert(values@[j] == &self@[k]);
            }
            assert forall|j: int| 0 <= j < values@.len() implies self.is_cached_value(*#[trigger] values@[j]) by {
                let k = key_of(e, j);
                assert(holds_key(e, k, j));
                lemma_lookup(e, k, j);
                assert(self@.contains_key(k) && self@[k] == *values@[j]);
            }
        }
        values
    }
}

/// After a device's reading is recorded, reading that device gives it back, and every
/// other device keeps the reading (or the absence of one) it had.
pub proof fn lemma_read_returns_latest_write<T>(
    cached: Map<Seq<char>, T>,
    device: Seq<char>,
    data: T,
    other: Seq<char>,
)
    ensures
        cached.insert(device, data).contains_key(device),
        cached.insert(device, data)[device] == data,
        other != device ==> (cached.insert(device, data).contains_key(other) <==> cached.contains_key(
            other,
        )),
        other != device && cached.contains_key(other) ==> cached.insert(device, data)[other]
            == cached[other],
{
}

} // verus!
