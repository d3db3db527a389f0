//! TTL cache of decoded OCR regions keyed by `(region_id, fidelity)`, with
//! oldest-by-insertion eviction at capacity. Time is passed in as
//! milliseconds on a caller-chosen monotonic clock.
use vstd::prelude::*;

use crate::text::{copy_str, str_eq};
use crate::vision::{opt_view, DecodedRegion, DecodedRegionView, FidelityLevel};

verus! {

/// A cache entry as the contracts see it.
pub struct EntryView {
    pub region_id: Seq<char>,
    pub fidelity: FidelityLevel,
    pub value: DecodedRegionView,
    pub inserted_at: u64,
}

/// Age of an entry at `now` (0 when `now` precedes the insertion).
pub open spec fn age(inserted_at: u64, now: u64) -> int {
    if now >= inserted_at {
        now - inserted_at
    } else {
        0
    }
}

/// The entry is still served: younger than the TTL.
pub open spec fn is_fresh(e: EntryView, now: u64, ttl_ms: u64) -> bool {
    age(e.inserted_at, now) < ttl_ms
}

pub open spec fn has_key(e: EntryView, region_id: Seq<char>, fidelity: FidelityLevel) -> bool {
    e.region_id == region_id && e.fidelity == fidelity
}

/// Index of the last entry with this key, or -1.
pub open spec fn key_index(s: Seq<EntryView>, region_id: Seq<char>, fidelity: FidelityLevel) -> int
    decreases s.len(),
{
    if s.len() == 0 {
        -1
    } else if has_key(s.last(), region_id, fidelity) {
        s.len() - 1
    } else {
        key_index(s.drop_last(), region_id, fidelity)
    }
}

/// Entries after storing `e`: a cache of capacity 0 stores nothing; a
/// previous entry with its key is replaced; else, at capacity, the entry
/// inserted first (the front) is evicted. Entries stay in insertion order.
pub open spec fn stored(s: Seq<EntryView>, max_size: usize, e: EntryView) -> Seq<EntryView> {
    let i = key_index(s, e.region_id, e.fidelity);
    if max_size == 0 {
        s
    } else if i >= 0 {
        s.remove(i).push(e)
    } else if s.len() >= max_size {
        s.remove(0).push(e)
    } else {
        s.push(e)
    }
}

/// No two entries share a key.
pub open spec fn unique_keys(s: Seq<EntryView>) -> bool {
    forall|a: int, b: int|
        0 <= a < b < s.len() ==> !(#[trigger] s[a].region_id == #[trigger] s[b].region_id
            && s[a].fidelity == s[b].fidelity)
}

/// What `get` returns.
pub open spec fn lookup(
    s: Seq<EntryView>,
    region_id: Seq<char>,
    fidelity: FidelityLevel,
    now: u64,
    ttl_ms: u64,
) -> Option<DecodedRegionView> {
    let i = key_index(s, region_id, fidelity);
    if i >= 0 && is_fresh(s[i], now, ttl_ms) {
        Some(s[i].value)
    } else {
        None
    }
}

/// Entries after `get`: an expired entry for the key is removed.
pub open spec fn after_lookup(
    s: Seq<EntryView>,
    region_id: Seq<char>,
    fidelity: FidelityLevel,
    now: u64,
    ttl_ms: u64,
) -> Seq<EntryView> {
    let i = key_index(s, region_id, fidelity);
    if i >= 0 && !is_fresh(s[i], now, ttl_ms) {
        s.remove(i)
    } else {
        s
    }
}

/// Ids of `ids` with no fresh entry, in order.
pub open spec fn misses_of(
    s: Seq<EntryView>,
    ids: Seq<Seq<char>>,
    fidelity: FidelityLevel,
    now: u64,
    ttl_ms: u64,
) -> Seq<Seq<char>>
    decreases ids.len(),
{
    if ids.len() == 0 {
        seq![]
    } else {
        let rest = misses_of(s, ids.drop_last(), fidelity, now, ttl_ms);
        if lookup(s, ids.last(), fidelity, now, ttl_ms) is Some {
            rest
        } else {
            rest.push(ids.last())
        }
    }
}

/// Cached results for the ids of `ids` with a fresh entry, in order.
pub open spec fn hits_of(
    s: Seq<EntryView>,
    ids: Seq<Seq<char>>,
    fidelity: FidelityLevel,
    now: u64,
    ttl_ms: u64,
) -> Seq<DecodedRegionView>
    decreases ids.len(),
{
    if ids.len() == 0 {
        seq![]
    } else {
        let rest = hits_of(s, ids.drop_last(), fidelity, now, ttl_ms);
        match lookup(s, ids.last(), fidelity, now, ttl_ms) {
            Some(v) => rest.push(v),
            None => rest,
        }
    }
}

/// Entries that survive `clear_expired`.
pub open spec fn fresh_only(s: Seq<EntryView>, now: u64, ttl_ms: u64) -> Seq<EntryView>
    decreases s.len(),
{
    if s.len() == 0 {
        seq![]
    } else {
        let rest = fresh_only(s.drop_last(), now, ttl_ms);
        if is_fresh(s.last(), now, ttl_ms) {
            rest.push(s.last())
        } else {
            rest
        }
    }
}

/// Entries after storing each result under its own region id, in order.
pub open spec fn stored_all(
    s: Seq<EntryView>,
    max_size: usize,
    results: Seq<DecodedRegionView>,
    fidelity: FidelityLevel,
    now: u64,
) -> Seq<EntryView>
    decreases results.len(),
{
    if results.len() == 0 {
        s
    } else {
        let before = stored_all(s, max_size, results.drop_last(), fidelity, now);
        stored(
            before,
            max_size,
            EntryView {
                region_id: results.last().region_id,
                fidelity,
                value: results.last(),
                inserted_at: now,
            },
        )
    }
}

/// One stored entry.
pub struct CacheEntry {
    pub region_id: String,
    pub fidelity: FidelityLevel,
    pub result: DecodedRegion,
    pub inserted_at: u64,
}

impl CacheEntry {
    pub open spec fn view(&self) -> EntryView {
        EntryView {
            region_id: self.region_id@,
            fidelity: self.fidelity,
            value: self.result.view(),
            inserted_at: self.inserted_at,
        }
    }
}

/// Counts of entries, fresh and expired, at one instant.
#[derive(Debug, Clone, Copy)]
pub struct CacheStats {
    pub total_entries: usize,
    pub valid_entries: usize,
    pub expired_entries: usize,
}

/// TTL cache of decoded regions.
pub struct DecodeCache {
    entries: Vec<CacheEntry>,
    ttl_ms: u64,
    max_size: usize,
}

impl DecodeCache {
    pub closed spec fn view(&self) -> Seq<EntryView> {
        self.entries@.map_values(|e: CacheEntry| e.view())
    }

    pub closed spec fn ttl(&self) -> u64 {
        self.ttl_ms
    }

    pub closed spec fn capacity(&self) -> usize {
        self.max_size
    }

    /// Size never exceeds the capacity, and keys are unique.
    pub open spec fn wf(&self) -> bool {
        &&& self.view().len() <= self.capacity()
        &&& unique_keys(self.view())
    }

    /// An empty cache with the given TTL (milliseconds) and capacity.
    pub fn new(ttl_ms: u64, max_size: usize) -> (r: Self)
        ensures
            r.wf(),
            r.view() == Seq::<EntryView>::empty(),
            r.ttl() == ttl_ms,
            r.capacity() == max_size,
    {
        let c = DecodeCache { entries: Vec::new(), ttl_ms, max_size };
        assert(c.view() =~= Seq::<EntryView>::empty());
        c
    }

    fn find(&self, region_id: &str, fidelity: FidelityLevel) -> (r: Option<usize>)
        ensures
            key_index(self.view(), region_id@, fidelity) == (match r {
                Some(i) => i as int,
                None => -1,
            }),
            r matches Some(i) ==> i < self.view().len(),
    {
        let mut i: usize = self.entries.len();
        assert(self.view().subrange(0, i as int) =~= self.view());
        while i > 0
            invariant
                i <= self.entries@.len(),
                key_index(self.view(), region_id@, fidelity) == key_index(
                    self.view().subrange(0, i as int),
                    region_id@,
                    fidelity,
                ),
            decreases i,
        {
            let ghost pre = self.view().subrange(0, i as int);
            assert(pre.drop_last() =~= self.view().subrange(0, i - 1));
            let e = &self.entries[i - 1];
            if e.fidelity == fidelity && str_eq(e.region_id.as_str(), region_id) {
                return Some(i - 1);
            }
            i = i - 1;
        }
        None
    }

    /// The cached result for the key if younger than the TTL; an expired entry
    /// is removed.
    pub fn get(&mut self, region_id: &str, fidelity: FidelityLevel, now: u64) -> (r: Option<
        DecodedRegion,
    >)
        requires
            old(self).wf(),
        ensures
            final(self).wf(),
            final(self).ttl() == old(self).ttl(),
            final(self).capacity() == old(self).capacity(),
            opt_view(r) == lookup(
                old(self).view(),
                region_id@,
                fidelity,
                now,
                old(self).ttl(),
            ),
            final(self).view() == after_lookup(
                old(self).view(),
                region_id@,
                fidelity,
                now,
                old(self).ttl(),
            ),
    {
        match self.find(region_id, fidelity) {
            None => None,
            Some(i) => {
                let t = self.entries[i].inserted_at;
                let age: u64 = if now >= t {
                    now - t
                } else {
                    0
                };
                if age < self.ttl_ms {
                    Some(self.entries[i].result.duplicate())
                } else {
                    let ghost v = self.view();
                    self.entries.remove(i);
                    assert(self.view() =~= v.remove(i as int));
                    proof {
                        lemma_remove_unique(v, i as int);
                    }
                    None
                }
            },
        }
    }

    /// The cached result for the key if younger than the TTL, leaving the
    /// cache as it is.
    pub fn peek(&self, region_id: &str, fidelity: FidelityLevel, now: u64) -> (r: Option<
        DecodedRegion,
    >)
        ensures
            opt_view(r) == lookup(
                self.view(),
                region_id@,
                fidelity,
                now,
                self.ttl(),
            ),
    {
        match self.find(region_id, fidelity) {
            None => None,
            Some(i) => {
                let t = self.entries[i].inserted_at;
                let age: u64 = if now >= t {
                    now - t
                } else {
                    0
                };
                if age < self.ttl_ms {
                    Some(self.entries[i].result.duplicate())
                } else {
                    None
                }
            },
        }
    }

    /// Stores a result under `(region_id, fidelity)` at time `now`.
    pub fn store(&mut self, region_id: &str, fidelity: FidelityLevel, result: DecodedRegion, now: u64)
        requires
            old(self).wf(),
        ensures
            final(self).wf(),
            final(self).ttl() == old(self).ttl(),
            final(self).capacity() == old(self).capacity(),
            final(self).view() == stored(
                old(self).view(),
                old(self).capacity(),
                EntryView {
                    region_id: region_id@,
                    fidelity,
                    value: result.view(),
                    inserted_at: now,
                },
            ),
    {
        let ghost v = self.view();
        let ghost e = EntryView {
            region_id: region_id@,
            fidelity,
            value: result.view(),
            inserted_at: now,
        };
        proof {
            lemma_stored_wf(v, self.max_size, e);
        }
        if self.max_size == 0 {
            return;
        }
        let entry = CacheEntry {
            region_id: String::from_str(region_id),
            fidelity,
            result,
            inserted_at: now,
        };
        match self.find(region_id, fidelity) {
            Some(i) => {
                self.entries.remove(i);
                assert(self.view() =~= v.remove(i as int));
            },
            None => {
                if self.entries.len() >= self.max_size {
                    self.entries.remove(0);
                    assert(self.view() =~= v.remove(0));
                }
            },
        }
        let ghost mid = self.view();
        self.entries.push(entry);
        assert(self.view() =~= mid.push(entry.view()));
    }

    /// Stores each result under its own region id, in order, at time `now`.
    pub fn store_batch(&mut self, results: &Vec<DecodedRegion>, fidelity: FidelityLevel, now: u64)
        requires
            old(self).wf(),
        ensures
            final(self).wf(),
            final(self).ttl() == old(self).ttl(),
            final(self).capacity() == old(self).capacity(),
            final(self).view() == stored_all(
                old(self).view(),
                old(self).capacity(),
                results@.map_values(|d: DecodedRegion| d.view()),
                fidelity,
                now,
            ),
    {
        let ghost start = self.view();
        let ghost rs = results@.map_values(|d: DecodedRegion| d.view());
        let mut i: usize = 0;
        while i < results.len()
            invariant
                i <= results@.len(),
                self.wf(),
                self.ttl() == old(self).ttl(),
                self.capacity() == old(self).capacity(),
                start == old(self).view(),
                rs == results@.map_values(|d: DecodedRegion| d.view()),
                self.view() == stored_all(
                    start,
                    self.capacity(),
                    rs.subrange(0, i as int),
                    fidelity,
                    now,
                ),
            decreases results@.len() - i,
        {
            let ghost pre = rs.subrange(0, i + 1);
            assert(pre.drop_last() =~= rs.subrange(0, i as int));
            let d = results[i].duplicate();
            self.store(results[i].region_id.as_str(), fidelity, d, now);
            i = i + 1;
        }
        assert(rs.subrange(0, results@.len() as int) =~= rs);
    }

    /// Splits `region_ids` into cached results and the ids still to decode,
    /// both in request order. Expired entries count as misses and stay until
    /// `get` or `clear_expired` drops them.
    pub fn split_hits(&self, region_ids: &Vec<String>, fidelity: FidelityLevel, now: u64) -> (r: (
        Vec<DecodedRegion>,
        Vec<String>,
    ))
        ensures
            r.0@.map_values(|d: DecodedRegion| d.view()) == hits_of(
                self.view(),
                region_ids@.map_values(|s: String| s@),
                fidelity,
                now,
                self.ttl(),
            ),
            r.1@.map_values(|s: String| s@) == misses_of(
                self.view(),
                region_ids@.map_values(|s: String| s@),
                fidelity,
                now,
                self.ttl(),
            ),
    {
        let ghost ids = region_ids@.map_values(|s: String| s@);
        let mut hits: Vec<DecodedRegion> = Vec::new();
        let mut misses: Vec<String> = Vec::new();
        let mut i: usize = 0;
        while i < region_ids.len()
            invariant
                i <= region_ids@.len(),
                ids == region_ids@.map_values(|s: String| s@),
                hits@.map_values(|d: DecodedRegion| d.view()) == hits_of(
                    self.view(),
                    ids.subrange(0, i as int),
                    fidelity,
                    now,
                    self.ttl(),
                ),
                misses@.map_values(|s: String| s@) == misses_of(
                    self.view(),
                    ids.subrange(0, i as int),
                    fidelity,
                    now,
                    self.ttl(),
                ),
            decreases region_ids@.len() - i,
        {
            let ghost pre = ids.subrange(0, i + 1);
            assert(pre.drop_last() =~= ids.subrange(0, i as int));
            let ghost hv = hits@.map_values(|d: DecodedRegion| d.view());
            let ghost mv = misses@.map_values(|s: String| s@);
            match self.peek(region_ids[i].as_str(), fidelity, now) {
                Some(d) => {
                    hits.push(d);
                    assert(hits@.map_values(|d: DecodedRegion| d.view()) =~= hv.push(d.view()));
                },
                None => {
                    misses.push(copy_str(&region_ids[i]));
                    assert(misses@.map_values(|s: String| s@) =~= mv.push(ids[i as int]));
                },
            }
            i = i + 1;
        }
        assert(ids.subrange(0, region_ids@.len() as int) =~= ids);
        (hits, misses)
    }

    /// Drops every entry that is not younger than the TTL at `now`.
    pub fn clear_expired(&mut self, now: u64)
        requires
            old(self).wf(),
        ensures
            final(self).wf(),
            final(self).ttl() == old(self).ttl(),
            final(self).capacity() == old(self).capacity(),
            final(self).view() == fresh_only(old(self).view(), now, old(self).ttl()),
    {
        let ghost start = self.view();
        let mut kept: Vec<CacheEntry> = Vec::new();
        let mut rest: Vec<CacheEntry> = Vec::new();
        std::mem::swap(&mut self.entries, &mut rest);
        let ghost all = rest@;
        assert(all.map_values(|e: CacheEntry| e.view()) == start);
        let n = rest.len();
        let mut j: usize = 0;
        while j < n
            invariant
                n == all.len(),
                j <= n,
                rest@ == all.subrange(j as int, n as int),
                kept@.map_values(|e: CacheEntry| e.view()) == fresh_only(
                    all.subrange(0, j as int).map_values(|e: CacheEntry| e.view()),
                    now,
                    self.ttl_ms,
                ),
                kept@.len() <= j,
            decreases n - j,
        {
            let e = rest.remove(0);
            assert(e == all[j as int]);
            let ghost kv = kept@.map_values(|e: CacheEntry| e.view());
            let ghost pre = all.subrange(0, j + 1).map_values(|e: CacheEntry| e.view());
            assert(pre.drop_last() =~= all.subrange(0, j as int).map_values(
                |e: CacheEntry| e.view(),
            ));
            let age: u64 = if now >= e.inserted_at {
                now - e.inserted_at
            } else {
                0
            };
            if age < self.ttl_ms {
                kept.push(e);
                assert(kept@.map_values(|e: CacheEntry| e.view()) =~= kv.push(e.view()));
            }
            assert(rest@ =~= all.subrange(j + 1, n as int));
            j = j + 1;
        }
        assert(all.subrange(0, n as int) =~= all);
        self.entries = kept;
        proof {
            lemma_fresh_only(start, now, self.ttl_ms);
        }
    }

    /// Counts at `now`: all entries, those younger than the TTL, and the rest.
    pub fn stats(&self, now: u64) -> (r: CacheStats)
        ensures
            r.total_entries == self.view().len(),
            r.valid_entries == fresh_only(self.view(), now, self.ttl()).len(),
            r.expired_entries == r.total_entries - r.valid_entries,
    {
        let mut valid: usize = 0;
        let mut i: usize = 0;
        while i < self.entries.len()
            invariant
                i <= self.entries@.len(),
                valid == fresh_only(self.view().subrange(0, i as int), now, self.ttl_ms).len(),
                valid <= i,
            decreases self.entries@.len() - i,
        {
            let ghost pre = self.view().subrange(0, i + 1);
            assert(pre.drop_last() =~= self.view().subrange(0, i as int));
            let t = self.entries[i].inserted_at;
            let age: u64 = if now >= t {
                now - t
            } else {
                0
            };
            if age < self.ttl_ms {
                valid = valid + 1;
            }
            i = i + 1;
        }
        assert(self.view().subrange(0, i as int) =~= self.view());
        CacheStats {
            total_entries: self.entries.len(),
            valid_entries: valid,
            expired_entries: self.entries.len() - valid,
        }
    }
}

proof fn lemma_key_index(s: Seq<EntryView>, region_id: Seq<char>, fidelity: FidelityLevel)
    ensures
        -1 <= key_index(s, region_id, fidelity) < s.len(),
        key_index(s, region_id, fidelity) >= 0 ==> has_key(
            s[key_index(s, region_id, fidelity)],
            region_id,
            fidelity,
        ),
        key_index(s, region_id, fidelity) < 0 ==> forall|m: int|
            0 <= m < s.len() ==> !has_key(#[trigger] s[m], region_id, fidelity),
    decreases s.len(),
{
    if s.len() > 0 {
        lemma_key_index(s.drop_last(), region_id, fidelity);
        if key_index(s, region_id, fidelity) < 0 {
            assert forall|m: int| 0 <= m < s.len() implies !has_key(
                #[trigger] s[m],
                region_id,
                fidelity,
            ) by {
                if m < s.len() - 1 {
                    assert(s[m] == s.drop_last()[m]);
                }
            }
        }
    }
}

proof fn lemma_remove_unique(s: Seq<EntryView>, i: int)
    requires
        unique_keys(s),
        0 <= i < s.len(),
    ensures
        unique_keys(s.remove(i)),
        forall|m: int|
            0 <= m < s.remove(i).len() ==> !has_key(
                #[trigger] s.remove(i)[m],
                s[i].region_id,
                s[i].fidelity,
            ),
{
    let t = s.remove(i);
    assert forall|a: int, b: int| 0 <= a < b < t.len() implies !(#[trigger] t[a].region_id
        == #[trigger] t[b].region_id && t[a].fidelity == t[b].fidelity) by {
        let sa = if a < i { a } else { a + 1 };
        let sb = if b < i { b } else { b + 1 };
        assert(t[a] == s[sa] && t[b] == s[sb]);
    }
    assert forall|m: int| 0 <= m < t.len() implies !has_key(
        #[trigger] t[m],
        s[i].region_id,
        s[i].fidelity,
    ) by {
        let sm = if m < i { m } else { m + 1 };
        assert(t[m] == s[sm]);
        if sm < i {
            assert(!(s[sm].region_id == s[i].region_id && s[sm].fidelity == s[i].fidelity));
        } else {
            assert(!(s[i].region_id == s[sm].region_id && s[i].fidelity == s[sm].fidelity));
        }
    }
}

proof fn lemma_push_unique(t: Seq<EntryView>, e: EntryView)
    requires
        unique_keys(t),
        forall|m: int| 0 <= m < t.len() ==> !has_key(#[trigger] t[m], e.region_id, e.fidelity),
    ensures
        unique_keys(t.push(e)),
{
    let u = t.push(e);
    assert forall|a: int, b: int| 0 <= a < b < u.len() implies !(#[trigger] u[a].region_id
        == #[trigger] u[b].region_id && u[a].fidelity == u[b].fidelity) by {
        if b == t.len() {
            assert(!has_key(t[a], e.region_id, e.fidelity));
        } else {
            assert(u[a] == t[a] && u[b] == t[b]);
        }
    }
}

/// Storing keeps the size within a positive capacity and the keys unique.
proof fn lemma_stored_wf(s: Seq<EntryView>, max_size: usize, e: EntryView)
    requires
        s.len() <= max_size,
        unique_keys(s),
    ensures
        stored(s, max_size, e).len() <= max_size,
        unique_keys(stored(s, max_size, e)),
{
    lemma_key_index(s, e.region_id, e.fidelity);
    let i = key_index(s, e.region_id, e.fidelity);
    if max_size == 0 {
    } else if i >= 0 {
        lemma_remove_unique(s, i);
        lemma_push_unique(s.remove(i), e);
    } else if s.len() >= max_size {
        lemma_remove_unique(s, 0);
        let t = s.remove(0);
        assert forall|m: int| 0 <= m < t.len() implies !has_key(#[trigger] t[m], e.region_id, e.fidelity) by {
            assert(t[m] == s[m + 1]);
        }
        lemma_push_unique(t, e);
    } else {
        lemma_push_unique(s, e);
    }
}

/// `fresh_only` keeps a subset of the entries, with unique keys.
proof fn lemma_fresh_only(s: Seq<EntryView>, now: u64, ttl_ms: u64)
    requires
        unique_keys(s),
    ensures
        unique_keys(fresh_only(s, now, ttl_ms)),
        fresh_only(s, now, ttl_ms).len() <= s.len(),
        forall|m: int|
            0 <= m < fresh_only(s, now, ttl_ms).len() ==> s.contains(
                #[trigger] fresh_only(s, now, ttl_ms)[m],
            ),
    decreases s.len(),
{
    if s.len() > 0 {
        let d = s.drop_last();
        assert(unique_keys(d)) by {
            assert forall|a: int, b: int| 0 <= a < b < d.len() implies !(#[trigger] d[a].region_id
                == #[trigger] d[b].region_id && d[a].fidelity == d[b].fidelity) by {
                assert(d[a] == s[a] && d[b] == s[b]);
            }
        }
        lemma_fresh_only(d, now, ttl_ms);
        let f = fresh_only(d, now, ttl_ms);
        assert forall|m: int| 0 <= m < f.len() implies s.contains(#[trigger] f[m]) by {
            let k = choose|k: int| 0 <= k < d.len() && d[k] == f[m];
            assert(s[k] == d[k]);
        }
        if is_fresh(s.last(), now, ttl_ms) {
            assert forall|m: int| 0 <= m < f.len() implies !has_key(
                #[trigger] f[m],
                s.last().region_id,
                s.last().fidelity,
            ) by {
                let k = choose|k: int| 0 <= k < d.len() && d[k] == f[m];
                assert(s[k] == f[m]);
                assert(!(s[k].region_id == s[s.len() - 1].region_id && s[k].fidelity
                    == s[s.len() - 1].fidelity));
            }
            lemma_push_unique(f, s.last());
            let g = f.push(s.last());
            assert forall|m: int| 0 <= m < g.len() implies s.contains(#[trigger] g[m]) by {
                if m == f.len() {
                    assert(s[s.len() - 1] == g[m]);
                } else {
                    assert(g[m] == f[m]);
                }
            }
        }
    }
}

/// Splitting `ids` accounts for each id exactly once: hits and misses
/// together are as many as the ids, every miss has no fresh entry, and no id
/// with a fresh entry is among the misses.
pub proof fn lemma_split_partition(
    s: Seq<EntryView>,
    ids: Seq<Seq<char>>,
    fidelity: FidelityLevel,
    now: u64,
    ttl_ms: u64,
)
    ensures
        hits_of(s, ids, fidelity, now, ttl_ms).len() + misses_of(s, ids, fidelity, now, ttl_ms).len()
            == ids.len(),
        forall|k: int|
            0 <= k < misses_of(s, ids, fidelity, now, ttl_ms).len() ==> lookup(
                s,
                #[trigger] misses_of(s, ids, fidelity, now, ttl_ms)[k],
                fidelity,
                now,
                ttl_ms,
            ) is None,
        forall|id: Seq<char>|
            lookup(s, id, fidelity, now, ttl_ms) is Some ==> !(#[trigger] misses_of(
                s,
                ids,
                fidelity,
                now,
                ttl_ms,
            ).contains(id)),
    decreases ids.len(),
{
    if ids.len() > 0 {
        lemma_split_partition(s, ids.drop_last(), fidelity, now, ttl_ms);
        let rest = misses_of(s, ids.drop_last(), fidelity, now, ttl_ms);
        let m = misses_of(s, ids, fidelity, now, ttl_ms);
        assert forall|id: Seq<char>| lookup(s, id, fidelity, now, ttl_ms) is Some implies !(
        #[trigger] m.contains(id)) by {
            if m.contains(id) {
                let k = choose|k: int| 0 <= k < m.len() && m[k] == id;
                if k < rest.len() {
                    assert(rest.contains(id));
                }
            }
        }
    }
}

/// A result stored at `t0` and looked up at `t1 >= t0` is returned exactly
/// when `t1 - t0 < ttl`; otherwise the lookup returns nothing and removes it.
pub proof fn lemma_store_then_get(
    s: Seq<EntryView>,
    max_size: usize,
    e: EntryView,
    t1: u64,
    ttl_ms: u64,
)
    requires
        t1 >= e.inserted_at,
        max_size >= 1,
        s.len() <= max_size,
        unique_keys(s),
    ensures
        ({
            let s2 = stored(s, max_size, e);
            let s3 = after_lookup(s2, e.region_id, e.fidelity, t1, ttl_ms);
            &&& (lookup(s2, e.region_id, e.fidelity, t1, ttl_ms) == Some(e.value)) <==> (t1
                - e.inserted_at < ttl_ms)
            &&& t1 - e.inserted_at < ttl_ms ==> s3 == s2
            &&& !(t1 - e.inserted_at < ttl_ms) ==> lookup(s2, e.region_id, e.fidelity, t1, ttl_ms)
                is None && s3 == s2.drop_last() && forall|m: int|
                0 <= m < s3.len() ==> !has_key(#[trigger] s3[m], e.region_id, e.fidelity)
        }),
{
    let s2 = stored(s, max_size, e);
    lemma_stored_wf(s, max_size, e);
    assert(s2.last() == e);
    assert(key_index(s2, e.region_id, e.fidelity) == s2.len() - 1);
    lemma_remove_unique(s2, s2.len() - 1);
    assert(s2.remove(s2.len() - 1) =~= s2.drop_last());
}

/// The entry `store_batch` makes for one result.
pub open spec fn batch_entry(r: DecodedRegionView, fidelity: FidelityLevel, now: u64) -> EntryView {
    EntryView { region_id: r.region_id, fidelity, value: r, inserted_at: now }
}

proof fn lemma_key_index_at(s: Seq<EntryView>, region_id: Seq<char>, fidelity: FidelityLevel, p: int)
    requires
        0 <= p < s.len(),
        has_key(s[p], region_id, fidelity),
        forall|m: int| p < m < s.len() ==> !has_key(#[trigger] s[m], region_id, fidelity),
    ensures
        key_index(s, region_id, fidelity) == p,
    decreases s.len(),
{
    if p < s.len() - 1 {
        let d = s.drop_last();
        assert forall|m: int| p < m < d.len() implies !has_key(#[trigger] d[m], region_id, fidelity) by {
            assert(d[m] == s[m]);
        }
        lemma_key_index_at(d, region_id, fidelity, p);
    }
}

proof fn lemma_batch_suffix(
    s: Seq<EntryView>,
    max_size: usize,
    results: Seq<DecodedRegionView>,
    fidelity: FidelityLevel,
    now: u64,
    i: int,
)
    requires
        max_size >= 1,
        s.len() <= max_size,
        unique_keys(s),
        results.len() <= max_size,
        0 <= i <= results.len(),
        forall|a: int, b: int|
            0 <= a < b < results.len() ==> (#[trigger] results[a]).region_id
                != (#[trigger] results[b]).region_id,
    ensures
        ({
            let t = stored_all(s, max_size, results.subrange(0, i), fidelity, now);
            &&& t.len() <= max_size
            &&& t.len() >= i
            &&& unique_keys(t)
            &&& forall|j: int|
                0 <= j < i ==> #[trigger] t[t.len() - i + j] == batch_entry(results[j], fidelity, now)
        }),
    decreases i,
{
    if i == 0 {
        assert(results.subrange(0, 0) =~= Seq::<DecodedRegionView>::empty());
    } else {
        lemma_batch_suffix(s, max_size, results, fidelity, now, i - 1);
        let pre = results.subrange(0, i - 1);
        let cur = results.subrange(0, i);
        assert(cur.drop_last() =~= pre);
        assert(cur.last() == results[i - 1]);
        let t = stored_all(s, max_size, pre, fidelity, now);
        let e = batch_entry(results[i - 1], fidelity, now);
        let u = stored(t, max_size, e);
        assert(u == stored_all(s, max_size, cur, fidelity, now));
        lemma_stored_wf(t, max_size, e);
        lemma_key_index(t, e.region_id, e.fidelity);
        let len = t.len();
        let k = key_index(t, e.region_id, e.fidelity);
        if k >= 0 {
            if k >= len - (i - 1) {
                let j = k - (len - (i - 1));
                assert(t[len - (i - 1) + j] == batch_entry(results[j], fidelity, now));
                assert(results[j].region_id != results[i - 1].region_id);
            }
            assert forall|j: int| 0 <= j < i implies #[trigger] u[u.len() - i + j] == batch_entry(
                results[j],
                fidelity,
                now,
            ) by {
                if j < i - 1 {
                    assert(u[u.len() - i + j] == t[len - (i - 1) + j]);
                }
            }
        } else if len >= max_size {
            assert forall|j: int| 0 <= j < i implies #[trigger] u[u.len() - i + j] == batch_entry(
                results[j],
                fidelity,
                now,
            ) by {
                if j < i - 1 {
                    assert(u[u.len() - i + j] == t[len - (i - 1) + j]);
                }
            }
        } else {
            assert forall|j: int| 0 <= j < i implies #[trigger] u[u.len() - i + j] == batch_entry(
                results[j],
                fidelity,
                now,
            ) by {
                if j < i - 1 {
                    assert(u[u.len() - i + j] == t[len - (i - 1) + j]);
                }
            }
        }
    }
}

/// Read-your-writes: right after a batch of results with distinct region
/// ids, no more of them than the capacity, each is served at that instant.
pub proof fn lemma_batch_reads_back(
    s: Seq<EntryView>,
    max_size: usize,
    results: Seq<DecodedRegionView>,
    fidelity: FidelityLevel,
    now: u64,
    ttl_ms: u64,
    k: int,
)
    requires
        max_size >= 1,
        s.len() <= max_size,
        unique_keys(s),
        results.len() <= max_size,
        ttl_ms > 0,
        0 <= k < results.len(),
        forall|a: int, b: int|
            0 <= a < b < results.len() ==> (#[trigger] results[a]).region_id
                != (#[trigger] results[b]).region_id,
    ensures
        lookup(stored_all(s, max_size, results, fidelity, now), results[k].region_id, fidelity, now, ttl_ms)
            == Some(results[k]),
{
    let n = results.len() as int;
    lemma_batch_suffix(s, max_size, results, fidelity, now, n);
    assert(results.subrange(0, n) =~= results);
    let t = stored_all(s, max_size, results, fidelity, now);
    let p = t.len() - n + k;
    assert(t[p] == batch_entry(results[k], fidelity, now));
    assert forall|m: int| p < m < t.len() implies !has_key(#[trigger] t[m], results[k].region_id, fidelity) by {
        let j = m - (t.len() - n);
        assert(t[t.len() - n + j] == batch_entry(results[j], fidelity, now));
        assert(results[k].region_id != results[j].region_id);
    }
    lemma_key_index_at(t, results[k].region_id, fidelity, p);
}

} // verus!
