//! A small cache of queried packages, so that repeated queries do not
//! create unnecessary traffic. Entries expire after a time to live.

use std::time::{Duration, Instant};

use vstd::prelude::*;

use crate::text::str_eq;

verus! {

/// `std::time::Instant`, carried through as an opaque value.
#[verifier::external_type_specification]
#[verifier::external_body]
pub struct ExInstant(Instant);

/// The total number of nanoseconds in the duration `d`, as
/// `Duration::as_nanos` gives it.
pub uninterp spec fn duration_nanos(d: Duration) -> u128;

/// `Duration::from_secs`: a duration of `secs` whole seconds, so that it
/// holds `secs` times a billion nanoseconds.
pub assume_specification[ Duration::from_secs ](secs: u64) -> (r: Duration)
    ensures
        duration_nanos(r) == secs * 1_000_000_000,
;

/// The current instant, from `Instant::now`. Nothing is stated of it: it
/// depends on the clock.
#[verifier::external_body]
fn now() -> (r: Instant) {
    Instant::now()
}

/// The time passed since `t`, from `Instant::elapsed`. Nothing is stated of
/// it: it depends on the clock.
#[verifier::external_body]
fn elapsed(t: &Instant) -> (r: Duration) {
    t.elapsed()
}

/// A duration in nanoseconds, from `Duration::as_nanos`: the total number
/// of nanoseconds the duration holds, named by `duration_nanos`.
#[verifier::external_body]
fn nanos(d: &Duration) -> (r: u128)
    ensures
        r == duration_nanos(*d),
{
    d.as_nanos()
}

/// A cached value with the instant it was stored and its time to live.
#[derive(Debug)]
pub struct CacheItem<T> {
    timestamp: Instant,
    ttl: u128,
    item: T,
}

impl<T> CacheItem<T> {
    /// The stored value.
    pub closed spec fn value(&self) -> T {
        self.item
    }

    /// The time to live, in nanoseconds.
    pub closed spec fn ttl_nanos(&self) -> u128 {
        self.ttl
    }

    /// Stores `item`, stamped with the current instant, to live for `ttl`.
    pub fn new(item: T, ttl: Duration) -> (r: CacheItem<T>)
        ensures
            r.value() == item,
            r.ttl_nanos() == duration_nanos(ttl),
    {
        CacheItem { item, ttl: nanos(&ttl), timestamp: now() }
    }

    fn with_ttl_nanos(item: T, ttl: u128) -> (r: CacheItem<T>)
        ensures
            r.value() == item,
            r.ttl_nanos() == ttl,
    {
        CacheItem { item, ttl, timestamp: now() }
    }

    /// Whether the item is expired once `elapsed_nanos` nanoseconds have
    /// passed since it was stored: exactly when more than its time to live
    /// has passed.
    pub fn expired_after(&self, elapsed_nanos: u128) -> (r: bool)
        ensures
            r == (elapsed_nanos > self.ttl_nanos()),
    {
        elapsed_nanos > self.ttl
    }

    /// The instant the item was stored.
    pub closed spec fn stamp(&self) -> Instant {
        self.timestamp
    }

    /// Whether the item is expired once `elapsed` nanoseconds have passed
    /// since it was stored: more than its time to live has passed.
    pub open spec fn expired_at(&self, elapsed: int) -> bool {
        elapsed > self.ttl_nanos()
    }

    /// The nanoseconds passed since the item was stored, as the clock
    /// (`Instant::elapsed`) gives them; no clause states them.
    fn age(&self) -> (r: u128) {
        let e = elapsed(&self.timestamp);
        nanos(&e)
    }

    /// Whether the item is expired now: `expired_after` of the time passed
    /// since it was stored, which the clock gives. An item whose time to
    /// live is the largest there is never expires.
    pub fn expired(&self) -> (r: bool)
        ensures
            self.ttl_nanos() == u128::MAX ==> !r,
    {
        self.expired_after(self.age())
    }

    /// The item, unless it is expired after `elapsed_nanos` nanoseconds.
    pub fn get_after(&self, elapsed_nanos: u128) -> (r: Option<&T>)
        ensures
            r == (if elapsed_nanos > self.ttl_nanos() { None } else { Some(&self.value()) }),
    {
        if self.expired_after(elapsed_nanos) {
            None
        } else {
            Some(&self.item)
        }
    }

    /// The item, unless it is expired now: `get_after` of the time passed
    /// since it was stored, which the clock gives. Any item given back is
    /// the stored one, and one whose time to live is the largest there is
    /// is always given back.
    pub fn get(&self) -> (r: Option<&T>)
        ensures
            r is None || r == Some(&self.value()),
            self.ttl_nanos() == u128::MAX ==> r == Some(&self.value()),
    {
        self.get_after(self.age())
    }

    /// Takes the item out, unless it is expired after `elapsed_nanos`
    /// nanoseconds.
    pub fn remove_after(self, elapsed_nanos: u128) -> (r: Option<T>)
        ensures
            r == (if elapsed_nanos > self.ttl_nanos() { None } else { Some(self.value()) }),
    {
        if self.expired_after(elapsed_nanos) {
            None
        } else {
            Some(self.item)
        }
    }

    /// Takes the item out, unless it is expired now: `remove_after` of the
    /// time passed since it was stored, which the clock gives. Any item
    /// given back is the stored one, and one whose time to live is the
    /// largest there is is always given back.
    pub fn remove(self) -> (r: Option<T>)
        ensures
            r is None || r == Some(self.value()),
            self.ttl_nanos() == u128::MAX ==> r == Some(self.value()),
    {
        let e = self.age();
        self.remove_after(e)
    }

    /// The item, whether expired or not.
    pub fn peek(&self) -> (r: &T)
        ensures
            *r == self.value(),
    {
        &self.item
    }
}

/// Expiry is monotone: an item expired after some time stays expired after
/// any longer time, and is then neither read nor taken out.
pub proof fn lemma_expiry_monotone<T>(item: CacheItem<T>, e1: int, e2: int)
    requires
        e1 <= e2,
        item.expired_at(e1),
    ensures
        item.expired_at(e2),
{
}

/// A simple cache for queried packages, keyed by package name.
#[derive(Debug)]
pub struct Cache<V> {
    ttl: u128,
    inner: Vec<(String, CacheItem<V>)>,
}

impl<V> Cache<V> {
    /// No two entries have the same key.
    pub closed spec fn wf(&self) -> bool {
        forall|i: int, j: int|
            0 <= i < self.inner@.len() && 0 <= j < self.inner@.len() && i != j
                ==> #[trigger] self.inner@[i].0@ != #[trigger] self.inner@[j].0@
    }

    /// The entry index holding the key `k`.
    closed spec fn holds(&self, k: Seq<char>, i: int) -> bool {
        0 <= i < self.inner@.len() && self.inner@[i].0@ == k
    }

    /// The stored entries by key, expired ones included: each with its
    /// value, the instant it was stored and its time to live.
    pub closed spec fn items(&self) -> Map<Seq<char>, CacheItem<V>> {
        Map::new(
            |k: Seq<char>| exists|i: int| self.holds(k, i),
            |k: Seq<char>| self.inner@[choose|i: int| self.holds(k, i)].1,
        )
    }

    /// The stored values by key, expired ones included.
    pub open spec fn view(&self) -> Map<Seq<char>, V> {
        self.items().map_values(|it: CacheItem<V>| it.value())
    }

    /// The time to live of the entry stored under `k`, in nanoseconds.
    pub open spec fn entry_ttl(&self, k: Seq<char>) -> u128 {
        self.items()[k].ttl_nanos()
    }

    /// What a read of `k` gives once `elapsed` nanoseconds have passed
    /// since its entry was stored: the value while the entry lives, and
    /// nothing for a missing or expired entry.
    pub open spec fn read_at(&self, k: Seq<char>, elapsed: int) -> Option<V> {
        if self.items().contains_key(k) && elapsed <= self.entry_ttl(k) {
            Some(self.items()[k].value())
        } else {
            None
        }
    }

    /// The time to live of new entries, in nanoseconds.
    pub closed spec fn ttl_nanos(&self) -> u128 {
        self.ttl
    }

    /// An empty cache whose entries live for `ttl`.
    pub fn new(ttl: Duration) -> (r: Cache<V>)
        ensures
            r.wf(),
            r.items() == Map::<Seq<char>, CacheItem<V>>::empty(),
            r.view() == Map::<Seq<char>, V>::empty(),
            r.ttl_nanos() == duration_nanos(ttl),
    {
        let r = Cache { ttl: nanos(&ttl), inner: Vec::new() };
        assert(r.items() =~= Map::<Seq<char>, CacheItem<V>>::empty());
        assert(r.view() =~= Map::<Seq<char>, V>::empty());
        r
    }

    /// Sets the time to live of entries added from now on; the entries
    /// already stored keep their values, stamps and times to live.
    pub fn set_ttl(&mut self, ttl: Duration)
        requires
            old(self).wf(),
        ensures
            final(self).wf(),
            final(self).items() == old(self).items(),
            final(self).view() == old(self).view(),
            final(self).ttl_nanos() == duration_nanos(ttl),
    {
        self.ttl = nanos(&ttl);
        assert forall|k: Seq<char>, i: int| self.holds(k, i) == old(self).holds(k, i) by {}
        assert(self.items() =~= old(self).items());
    }

    /// The index of the entry with key `key`, if any.
    fn find(&self, key: &str) -> (r: Option<usize>)
        requires
            self.wf(),
        ensures
            match r {
                Some(i) => self.holds(key@, i as int),
                None => !(exists|i: int| self.holds(key@, i)),
            },
    {
        let mut i: usize = 0;
        while i < self.inner.len()
            invariant
                i <= self.inner@.len(),
                forall|j: int| 0 <= j < i ==> self.inner@[j].0@ != key@,
            decreases self.inner@.len() - i,
        {
            if str_eq(self.inner[i].0.as_str(), key) {
                return Some(i);
            }
            i = i + 1;
        }
        None
    }

    /// The entry stored under `k` is the one at an index that holds `k`.
    proof fn lemma_item_at(&self, k: Seq<char>, i: int)
        requires
            self.wf(),
            self.holds(k, i),
        ensures
            self.items().contains_key(k),
            self.items()[k] == self.inner@[i].1,
            self.view().contains_key(k),
            self.view()[k] == self.inner@[i].1.value(),
    {
        let j = choose|j: int| self.holds(k, j);
        assert(self.holds(k, j));
        if j != i {
            assert(self.inner@[i].0@ != self.inner@[j].0@);
        }
    }

    /// The nanoseconds passed since the entry under `key` was stored, as
    /// the clock gives them (`0` when there is none); no clause states them.
    pub(crate) fn age_of(&self, key: &str) -> (r: u128)
        requires
            self.wf(),
    {
        match self.find(key) {
            Some(i) => self.inner[i].1.age(),
            None => 0,
        }
    }

    /// Adds an entry, stamped now and living for the cache's time to live,
    /// and gives back the previous value stored under the key when it had
    /// not expired after `elapsed_nanos` nanoseconds.
    pub fn add_after(&mut self, key: String, item: V, elapsed_nanos: u128) -> (r: Option<V>)
        requires
            old(self).wf(),
        ensures
            final(self).wf(),
            final(self).ttl_nanos() == old(self).ttl_nanos(),
            final(self).items().remove(key@) == old(self).items().remove(key@),
            final(self).items().contains_key(key@),
            final(self).items()[key@].value() == item,
            final(self).entry_ttl(key@) == old(self).ttl_nanos(),
            final(self).view() == old(self).view().insert(key@, item),
            r == old(self).read_at(key@, elapsed_nanos as int),
    {
        let ghost k = key@;
        let ghost pre = self.inner@;
        let found = self.find(key.as_str());
        let entry = CacheItem::with_ttl_nanos(item, self.ttl);
        let ghost e = entry;
        match found {
            Some(i) => {
                proof {
                    old(self).lemma_item_at(k, i as int);
                }
                let (_, previous) = self.inner.remove(i);
                self.inner.insert(i, (key, entry));
                assert(self.inner@ =~= pre.update(i as int, self.inner@[i as int]));
                assert(self.wf()) by {
                    assert forall|a: int, b: int|
                        0 <= a < self.inner@.len() && 0 <= b < self.inner@.len() && a != b
                            implies #[trigger] self.inner@[a].0@ != #[trigger] self.inner@[b].0@ by {
                        assert(pre[a].0@ != pre[b].0@);
                    }
                }
                assert forall|q: Seq<char>| #![trigger self.items().contains_key(q)]
                    self.items().contains_key(q) == old(self).items().insert(k, e).contains_key(q)
                    && (self.items().contains_key(q) ==> self.items()[q] == old(self).items().insert(k, e)[q]) by {
                    if q == k {
                        self.lemma_item_at(q, i as int);
                    } else {
                        if exists|j: int| self.holds(q, j) {
                            let j = choose|j: int| self.holds(q, j);
                            self.lemma_item_at(q, j);
                            old(self).lemma_item_at(q, j);
                        }
                        if exists|j: int| old(self).holds(q, j) {
                            let j = choose|j: int| old(self).holds(q, j);
                            assert(self.holds(q, j));
                        }
                    }
                }
                assert(self.items() =~= old(self).items().insert(k, e));
                assert(self.items().remove(k) =~= old(self).items().remove(k));
                assert(self.view() =~= old(self).view().insert(k, e.value()));
                previous.remove_after(elapsed_nanos)
            },
            None => {
                self.inner.push((key, entry));
                assert(self.wf()) by {
                    assert forall|a: int, b: int|
                        0 <= a < self.inner@.len() && 0 <= b < self.inner@.len() && a != b
                            implies #[trigger] self.inner@[a].0@ != #[trigger] self.inner@[b].0@ by {
                        if a < pre.len() && b < pre.len() {
                            assert(pre[a].0@ != pre[b].0@);
                        } else if a < pre.len() {
                            assert(!old(self).holds(k, a));
                        } else {
                            assert(!old(self).holds(k, b));
                        }
                    }
                }
                let ghost n = pre.len() as int;
                assert forall|q: Seq<char>| #![trigger self.items().contains_key(q)]
                    self.items().contains_key(q) == old(self).items().insert(k, e).contains_key(q)
                    && (self.items().contains_key(q) ==> self.items()[q] == old(self).items().insert(k, e)[q]) by {
                    if q == k {
                        self.lemma_item_at(q, n);
                    } else {
                        if exists|j: int| self.holds(q, j) {
                            let j = choose|j: int| self.holds(q, j);
                            self.lemma_item_at(q, j);
                            old(self).lemma_item_at(q, j);
                        }
                        if exists|j: int| old(self).holds(q, j) {
                            let j = choose|j: int| old(self).holds(q, j);
                            assert(self.holds(q, j));
                        }
                    }
                }
                assert(self.items() =~= old(self).items().insert(k, e));
                assert(self.items().remove(k) =~= old(self).items().remove(k));
                assert(self.view() =~= old(self).view().insert(k, e.value()));
                None
            },
        }
    }

    /// Adds an entry, stamped now and living for the cache's time to live,
    /// and gives back the previous value stored under the key when it had
    /// not expired: `add_after` of the time passed since the previous entry
    /// was stored, which the clock gives.
    pub fn add(&mut self, key: String, item: V) -> (r: Option<V>)
        requires
            old(self).wf(),
        ensures
            final(self).wf(),
            final(self).ttl_nanos() == old(self).ttl_nanos(),
            final(self).items().remove(key@) == old(self).items().remove(key@),
            final(self).items().contains_key(key@),
            final(self).items()[key@].value() == item,
            final(self).entry_ttl(key@) == old(self).ttl_nanos(),
            final(self).view() == old(self).view().insert(key@, item),
            r is Some ==> old(self).view().contains_key(key@) && r == Some(old(self).view()[key@]),
            !old(self).view().contains_key(key@) ==> r is None,
            old(self).items().contains_key(key@) && old(self).entry_ttl(key@) == u128::MAX ==> r
                == Some(old(self).view()[key@]),
    {
        let e = self.age_of(key.as_str());
        self.add_after(key, item, e)
    }

    /// Removes the entry with key `key` and gives back its value when it had
    /// not expired after `elapsed_nanos` nanoseconds.
    pub fn remove_after(&mut self, key: &str, elapsed_nanos: u128) -> (r: Option<V>)
        requires
            old(self).wf(),
        ensures
            final(self).wf(),
            final(self).ttl_nanos() == old(self).ttl_nanos(),
            final(self).items() == old(self).items().remove(key@),
            final(self).view() == old(self).view().remove(key@),
            r == old(self).read_at(key@, elapsed_nanos as int),
    {
        let ghost k = key@;
        let ghost pre = self.inner@;
        match self.find(key) {
            Some(i) => {
                proof {
                    old(self).lemma_item_at(k, i as int);
                }
                let (_, previous) = self.inner.remove(i);
                assert(self.wf()) by {
                    assert forall|a: int, b: int|
                        0 <= a < self.inner@.len() && 0 <= b < self.inner@.len() && a != b
                            implies #[trigger] self.inner@[a].0@ != #[trigger] self.inner@[b].0@ by {
                        let a0 = if a < i { a } else { a + 1 };
                        let b0 = if b < i { b } else { b + 1 };
                        assert(self.inner@[a] == pre[a0]);
                        assert(self.inner@[b] == pre[b0]);
                        assert(pre[a0].0@ != pre[b0].0@);
                    }
                }
                assert forall|q: Seq<char>| #![trigger self.items().contains_key(q)]
                    self.items().contains_key(q) == old(self).items().remove(k).contains_key(q)
                    && (self.items().contains_key(q) ==> self.items()[q] == old(self).items().remove(k)[q]) by {
                    if exists|j: int| self.holds(q, j) {
                        let j = choose|j: int| self.holds(q, j);
                        let j0 = if j < i { j } else { j + 1 };
                        assert(self.inner@[j] == pre[j0]);
                        self.lemma_item_at(q, j);
                        old(self).lemma_item_at(q, j0);
                        assert(q != k) by {
                            assert(pre[j0].0@ != pre[i as int].0@);
                        }
                    }
                    if q != k && exists|j: int| old(self).holds(q, j) {
                        let j0 = choose|j: int| old(self).holds(q, j);
                        assert(j0 != i);
                        let j = if j0 < i { j0 } else { j0 - 1 };
                        assert(self.inner@[j] == pre[j0]);
                        assert(self.holds(q, j));
                    }
                }
                assert(self.items() =~= old(self).items().remove(k));
                assert(self.view() =~= old(self).view().remove(k));
                previous.remove_after(elapsed_nanos)
            },
            None => {
                assert(self.items() =~= old(self).items().remove(k));
                assert(self.view() =~= old(self).view().remove(k));
                None
            },
        }
    }

    /// Removes the entry with key `key` and gives back its value when it had
    /// not expired: `remove_after` of the time passed since the entry was
    /// stored, which the clock gives.
    pub fn remove(&mut self, key: &str) -> (r: Option<V>)
        requires
            old(self).wf(),
        ensures
            final(self).wf(),
            final(self).ttl_nanos() == old(self).ttl_nanos(),
            final(self).items() == old(self).items().remove(key@),
            final(self).view() == old(self).view().remove(key@),
            r is Some ==> old(self).view().contains_key(key@) && r == Some(old(self).view()[key@]),
            !old(self).view().contains_key(key@) ==> r is None,
            old(self).items().contains_key(key@) && old(self).entry_ttl(key@) == u128::MAX ==> r
                == Some(old(self).view()[key@]),
    {
        let e = self.age_of(key);
        self.remove_after(key, e)
    }

    /// The value stored under `key` when its entry has not expired after
    /// `elapsed_nanos` nanoseconds.
    pub fn get_after(&self, key: &str, elapsed_nanos: u128) -> (r: Option<&V>)
        requires
            self.wf(),
        ensures
            match self.read_at(key@, elapsed_nanos as int) {
                Some(v) => r is Some && *r.unwrap() == v,
                None => r is None,
            },
    {
        match self.find(key) {
            Some(i) => {
                proof {
                    self.lemma_item_at(key@, i as int);
                }
                self.inner[i].1.get_after(elapsed_nanos)
            },
            None => None,
        }
    }

    /// The value stored under `key` when its entry has not expired:
    /// `get_after` of the time passed since the entry was stored, which the
    /// clock gives. A missing key gives nothing, any value given back is
    /// the stored one, and an entry whose time to live is the largest there
    /// is is always read.
    pub fn get(&self, key: &str) -> (r: Option<&V>)
        requires
            self.wf(),
        ensures
            r is Some ==> self.view().contains_key(key@) && *r.unwrap() == self.view()[key@],
            !self.view().contains_key(key@) ==> r is None,
            self.items().contains_key(key@) && self.entry_ttl(key@) == u128::MAX ==> r is Some,
    {
        let e = self.age_of(key);
        self.get_after(key, e)
    }

    /// The value stored under `key`, expired or not.
    pub fn peek(&self, key: &str) -> (r: Option<&V>)
        requires
            self.wf(),
        ensures
            r is Some <==> self.view().contains_key(key@),
            r is Some ==> *r.unwrap() == self.view()[key@],
    {
        match self.find(key) {
            Some(i) => {
                proof {
                    self.lemma_item_at(key@, i as int);
                }
                Some(self.inner[i].1.peek())
            },
            None => None,
        }
    }
}

/// What a read gives back of a write: once `add(k, v)` has turned `before`
/// into `after`, a read of `k` gives `v` for as long as the cache's time to
/// live has not passed since, and nothing after; reads of other keys are
/// as before.
pub proof fn lemma_add_then_get<V>(before: Cache<V>, after: Cache<V>, k: Seq<char>, v: V, other: Seq<char>, elapsed: int)
    requires
        after.items().remove(k) == before.items().remove(k),
        after.items().contains_key(k),
        after.items()[k].value() == v,
        after.entry_ttl(k) == before.ttl_nanos(),
        other != k,
    ensures
        0 <= elapsed <= before.ttl_nanos() ==> after.read_at(k, elapsed) == Some(v),
        elapsed > before.ttl_nanos() ==> after.read_at(k, elapsed) is None,
        after.read_at(other, elapsed) == before.read_at(other, elapsed),
{
    assert(after.items().remove(k).contains_key(other) == after.items().contains_key(other));
    assert(before.items().remove(k).contains_key(other) == before.items().contains_key(other));
    if after.items().contains_key(other) {
        assert(after.items().remove(k)[other] == after.items()[other]);
        assert(before.items().remove(k)[other] == before.items()[other]);
    }
}

/// Reads expire for good: a key read as missing or expired after some time
/// is read so after any longer time too.
pub proof fn lemma_read_expiry_monotone<V>(c: Cache<V>, k: Seq<char>, e1: int, e2: int)
    requires
        e1 <= e2,
        c.read_at(k, e1) is None,
    ensures
        c.read_at(k, e2) is None,
{
}

/// What a cache gives back of a write: once `add(k, v)` has turned
/// `before` into `after`, `k` holds `v` (which `peek` gives back, and `get`
/// too until it expires), and every other key holds what it held before.
pub proof fn lemma_add_then_read<V>(before: Cache<V>, after: Cache<V>, k: Seq<char>, v: V, other: Seq<char>)
    requires
        after.view() == before.view().insert(k, v),
        other != k,
    ensures
        after.view().contains_key(k),
        after.view()[k] == v,
        after.view().contains_key(other) == before.view().contains_key(other),
        before.view().contains_key(other) ==> after.view()[other] == before.view()[other],
{
}

/// Once `remove(k)` has turned `before` into `after`, nothing is stored
/// under `k`, and every other key holds what it held before.
pub proof fn lemma_remove_then_read<V>(before: Cache<V>, after: Cache<V>, k: Seq<char>, other: Seq<char>)
    requires
        after.view() == before.view().remove(k),
        other != k,
    ensures
        !after.view().contains_key(k),
        after.view().contains_key(other) == before.view().contains_key(other),
        before.view().contains_key(other) ==> after.view()[other] == before.view()[other],
{
}

} // verus!
