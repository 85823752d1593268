//! An in-memory cache of provider replies, keyed by a digest of the request,
//! with a time-to-live per entry, a byte budget and least-recently-used
//! eviction.
use vstd::prelude::*;
use crate::text::{chars_of, push_all, string_of};

verus! {

/// Counters of cache activity.
#[derive(Clone, Copy)]
pub struct CacheStats {
    pub hits: u64,
    pub misses: u64,
    pub evictions: u64,
    pub expired: u64,
}

impl CacheStats {
    /// All counters at zero.
    pub fn zero() -> (r: Self)
        ensures
            r == (CacheStats { hits: 0, misses: 0, evictions: 0, expired: 0 }),
    {
        CacheStats { hits: 0, misses: 0, evictions: 0, expired: 0 }
    }
}

impl Default for CacheStats {
    fn default() -> (r: Self)
        ensures
            r == (CacheStats { hits: 0, misses: 0, evictions: 0, expired: 0 }),
    {
        CacheStats::zero()
    }
}

/// How long entries live and how many bytes the cache may hold. Times are
/// in nanoseconds, the resolution of the clock the cache reads.
#[derive(Clone, Copy)]
pub struct ResponseCacheConfig {
    pub ttl_ns: u64,
    pub max_bytes: usize,
}

/// Default time-to-live of an entry, in seconds.
pub const DEFAULT_TTL_SECS: u64 = 600;

/// Default byte budget, in mebibytes.
pub const DEFAULT_MAX_MB: usize = 50;

pub open spec fn sat_mul_u64(a: nat, b: nat) -> u64 {
    if a * b > u64::MAX {
        u64::MAX
    } else {
        (a * b) as u64
    }
}

pub open spec fn sat_mul_usize(a: nat, b: nat) -> usize {
    if a * b > usize::MAX {
        usize::MAX
    } else {
        (a * b) as usize
    }
}

impl ResponseCacheConfig {
    /// The configuration for the given settings (`AUVRO_CACHE_TTL_SECS` and
    /// `AUVRO_CACHE_MAX_MB` once parsed): 600 seconds and 50 MiB where a
    /// setting is absent, the budget saturating at the largest `usize`.
    pub fn from_settings(ttl_secs: Option<u64>, max_mb: Option<usize>) -> (r: Self)
        ensures
            r.ttl_ns == sat_mul_u64(
                match ttl_secs {
                    Some(s) => s as nat,
                    None => DEFAULT_TTL_SECS as nat,
                },
                1_000_000_000,
            ),
            r.max_bytes == sat_mul_usize(
                match max_mb {
                    Some(m) => m as nat,
                    None => DEFAULT_MAX_MB as nat,
                },
                1048576,
            ),
    {
        let secs = match ttl_secs {
            Some(s) => s,
            None => DEFAULT_TTL_SECS,
        };
        let mb = match max_mb {
            Some(m) => m,
            None => DEFAULT_MAX_MB,
        };
        let ttl_ns = match secs.checked_mul(1_000_000_000) {
            Some(x) => x,
            None => u64::MAX,
        };
        let max_bytes = match mb.checked_mul(1048576) {
            Some(x) => x,
            None => usize::MAX,
        };
        ResponseCacheConfig { ttl_ns, max_bytes }
    }
}

/// The UTF-8 length of a text, in bytes.
pub open spec fn byte_len(s: Seq<char>) -> nat {
    vstd::utf8::encode_utf8(s).len()
}

/// The bytes that an entry counts for: its key and its reply.
pub open spec fn entry_size(key: Seq<char>, response: Seq<char>) -> nat {
    byte_len(key) + byte_len(response)
}

/// One cached reply, as the specification sees it.
pub struct CachedItem {
    pub key: Seq<char>,
    pub response: Seq<char>,
    pub inserted_at_ns: u64,
    pub size: nat,
}

struct CacheEntry {
    key: String,
    response: String,
    inserted_at_ns: u64,
    size_bytes: usize,
}

impl CacheEntry {
    spec fn item(self) -> CachedItem {
        CachedItem {
            key: self.key@,
            response: self.response@,
            inserted_at_ns: self.inserted_at_ns,
            size: self.size_bytes as nat,
        }
    }
}

spec fn items_of(es: Seq<CacheEntry>) -> Seq<CachedItem> {
    Seq::new(es.len(), |i: int| es[i].item())
}

/// The abstract state of a cache: its entries from least to most recently
/// used, the bytes they hold, the counters and the configuration.
pub struct CacheView {
    pub entries: Seq<CachedItem>,
    pub used_bytes: nat,
    pub stats: CacheStats,
    pub config: ResponseCacheConfig,
}

/// Sum of the sizes of `es`.
pub open spec fn total_size(es: Seq<CachedItem>) -> nat
    decreases es.len(),
{
    if es.len() == 0 {
        0
    } else {
        total_size(es.drop_last()) + es.last().size
    }
}

/// No key occurs twice.
pub open spec fn keys_distinct(es: Seq<CachedItem>) -> bool {
    forall|i: int, j: int|
        0 <= i < es.len() && 0 <= j < es.len() && i != j ==> #[trigger] es[i].key != #[trigger] es[j].key
}

/// Well-formed entries: distinct keys, each size the byte length of key and
/// reply.
pub open spec fn entries_wf(es: Seq<CachedItem>) -> bool {
    &&& keys_distinct(es)
    &&& forall|i: int| 0 <= i < es.len() ==> (#[trigger] es[i]).size == entry_size(es[i].key, es[i].response)
}

/// The position of `key` among `es`, if it is there.
pub open spec fn key_pos(es: Seq<CachedItem>, key: Seq<char>) -> Option<int> {
    if exists|i: int| 0 <= i < es.len() && #[trigger] es[i].key == key {
        Some(choose|i: int| 0 <= i < es.len() && #[trigger] es[i].key == key)
    } else {
        None
    }
}

/// `x.saturating_add(1)`.
pub open spec fn sat_inc(x: u64) -> u64 {
    if x == u64::MAX {
        x
    } else {
        (x + 1) as u64
    }
}

/// `a.saturating_sub(b)`.
pub open spec fn sat_sub(a: u64, b: u64) -> u64 {
    if a >= b {
        (a - b) as u64
    } else {
        0
    }
}

/// Eviction of least recently used entries while the cache is over budget.
pub open spec fn evict(es: Seq<CachedItem>, used: nat, max: nat, evictions: u64) -> (
    Seq<CachedItem>,
    nat,
    u64,
)
    decreases es.len(),
{
    if used > max && es.len() > 0 {
        evict(es.drop_first(), (used - es[0].size) as nat, max, sat_inc(evictions))
    } else {
        (es, used, evictions)
    }
}

/// The state and answer of `get` for `key` at time `now_ns`: an entry older
/// than the time-to-live is dropped and counts as a miss and an expiry; a
/// live entry becomes the most recently used and counts as a hit; a missing
/// key counts as a miss.
pub open spec fn get_spec(v: CacheView, key: Seq<char>, now_ns: u64) -> (CacheView, Option<Seq<char>>) {
    match key_pos(v.entries, key) {
        Some(i) => {
            let e = v.entries[i];
            if sat_sub(now_ns, e.inserted_at_ns) > v.config.ttl_ns {
                (
                    CacheView {
                        entries: v.entries.remove(i),
                        used_bytes: (v.used_bytes - e.size) as nat,
                        stats: CacheStats {
                            misses: sat_inc(v.stats.misses),
                            expired: sat_inc(v.stats.expired),
                            ..v.stats
                        },
                        ..v
                    },
                    None,
                )
            } else {
                (
                    CacheView {
                        entries: v.entries.remove(i).push(e),
                        stats: CacheStats { hits: sat_inc(v.stats.hits), ..v.stats },
                        ..v
                    },
                    Some(e.response),
                )
            }
        },
        None => (CacheView { stats: CacheStats { misses: sat_inc(v.stats.misses), ..v.stats }, ..v }, None),
    }
}

/// The state after `put(key, response)` at time `now_ns`: an entry for the
/// same key is replaced, the new entry becomes the most recently used, and
/// least recently used entries are evicted while the cache is over budget.
pub open spec fn put_spec(v: CacheView, key: Seq<char>, response: Seq<char>, now_ns: u64) -> CacheView {
    let (base, base_used) = match key_pos(v.entries, key) {
        Some(i) => (v.entries.remove(i), (v.used_bytes - v.entries[i].size) as nat),
        None => (v.entries, v.used_bytes),
    };
    let item = CachedItem {
        key,
        response,
        inserted_at_ns: now_ns,
        size: entry_size(key, response),
    };
    let (es, used, ev) = evict(
        base.push(item),
        base_used + item.size,
        v.config.max_bytes as nat,
        v.stats.evictions,
    );
    CacheView { entries: es, used_bytes: used, stats: CacheStats { evictions: ev, ..v.stats }, ..v }
}

/// `std::time::Instant`, held as the cache's time origin.
#[verifier::external_type_specification]
#[verifier::external_body]
pub struct ExInstant(std::time::Instant);

/// `Instant::now()`. Nothing is claimed of the instant returned.
#[verifier::external_body]
fn clock_origin() -> std::time::Instant {
    std::time::Instant::now()
}

/// `origin.elapsed()` in nanoseconds. It depends on the clock, so nothing
/// is claimed of the value.
#[verifier::external_body]
fn elapsed_ns(origin: &std::time::Instant) -> u64 {
    origin.elapsed().as_nanos() as u64
}

/// A reply cache with a time-to-live and a byte budget.
pub struct ResponseCache {
    config: ResponseCacheConfig,
    entries: Vec<CacheEntry>,
    used_bytes: usize,
    stats: CacheStats,
    origin: std::time::Instant,
}

impl ResponseCache {
    /// The abstract state.
    pub closed spec fn view(&self) -> CacheView {
        CacheView {
            entries: items_of(self.entries@),
            used_bytes: self.used_bytes as nat,
            stats: self.stats,
            config: self.config,
        }
    }

    /// The cache's internal invariant: well-formed entries whose sizes add
    /// up to the byte count.
    pub closed spec fn wf(&self) -> bool {
        &&& entries_wf(items_of(self.entries@))
        &&& self.used_bytes as nat == total_size(items_of(self.entries@))
    }

    /// An empty cache.
    pub fn new(config: ResponseCacheConfig) -> (r: Self)
        ensures
            r.wf(),
            r.view() == (CacheView {
                entries: Seq::empty(),
                used_bytes: 0,
                stats: CacheStats { hits: 0, misses: 0, evictions: 0, expired: 0 },
                config,
            }),
    {
        let r = ResponseCache {
            config,
            entries: Vec::new(),
            used_bytes: 0,
            stats: CacheStats::zero(),
            origin: clock_origin(),
        };
        assert(items_of(r.entries@) =~= Seq::<CachedItem>::empty());
        r
    }

    /// Number of entries.
    pub fn len(&self) -> (r: usize)
        ensures
            r == self.view().entries.len(),
    {
        self.entries.len()
    }

    /// Bytes held by the entries.
    pub fn used_bytes(&self) -> (r: usize)
        ensures
            r == self.view().used_bytes,
    {
        self.used_bytes
    }

    /// The counters (`stats`).
    pub fn stats(&self) -> (r: CacheStats)
        ensures
            r == self.view().stats,
    {
        self.stats
    }

    /// Empties the cache and resets the counters (`clear`).
    pub fn clear(&mut self)
        ensures
            final(self).wf(),
            final(self).view() == (CacheView {
                entries: Seq::empty(),
                used_bytes: 0,
                stats: CacheStats { hits: 0, misses: 0, evictions: 0, expired: 0 },
                config: old(self).view().config,
            }),
    {
        self.entries.clear();
        self.used_bytes = 0;
        self.stats = CacheStats::zero();
        assert(items_of(self.entries@) =~= Seq::<CachedItem>::empty());
    }

    fn position(&self, key: &String) -> (r: Option<usize>)
        ensures
            match r {
                Some(i) => i < self.entries@.len() && self.entries@[i as int].key@ == key@,
                None => forall|j: int| 0 <= j < self.entries@.len() ==> #[trigger] self.entries@[j].key@ != key@,
            },
    {
        let mut i: usize = 0;
        while i < self.entries.len()
            invariant
                i <= self.entries@.len(),
                forall|j: int| 0 <= j < i ==> #[trigger] self.entries@[j].key@ != key@,
            decreases self.entries.len() - i,
        {
            if self.entries[i].key == *key {
                return Some(i);
            }
            i += 1;
        }
        None
    }

    /// `get` at time `now_ns` (nanoseconds since the cache was made).
    pub fn get_at(&mut self, key: &str, now_ns: u64) -> (r: Option<String>)
        requires
            old(self).wf(),
        ensures
            final(self).wf(),
            (final(self).view(), match r {
                Some(s) => Some(s@),
                None => None,
            }) == get_spec(old(self).view(), key@, now_ns),
    {
        let ghost v0 = self.view();
        let key_s = key.to_owned();
        let pos = self.position(&key_s);
        proof {
            lemma_key_pos(v0.entries, key@, pos);
        }
        match pos {
            Some(i) => {
                let inserted = self.entries[i].inserted_at_ns;
                if now_ns.saturating_sub(inserted) > self.config.ttl_ns {
                    let ghost es0 = self.entries@;
                    let removed = self.entries.remove(i);
                    proof {
                        lemma_items_remove(es0, i as int);
                        lemma_total_remove(items_of(es0), i as int);
                        lemma_wf_remove(items_of(es0), i as int);
                    }
                    self.used_bytes = self.used_bytes - removed.size_bytes;
                    self.stats.misses = self.stats.misses.saturating_add(1);
                    self.stats.expired = self.stats.expired.saturating_add(1);
                    None
                } else {
                    let ghost es0 = self.entries@;
                    let entry = self.entries.remove(i);
                    let response = entry.response.clone();
                    self.entries.push(entry);
                    proof {
                        lemma_items_remove(es0, i as int);
                        lemma_total_remove(items_of(es0), i as int);
                        lemma_wf_remove(items_of(es0), i as int);
                        assert(items_of(self.entries@) =~= items_of(es0).remove(i as int).push(
                            es0[i as int].item(),
                        ));
                        lemma_wf_push_absent(items_of(es0).remove(i as int), es0[i as int].item());
                    }
                    self.stats.hits = self.stats.hits.saturating_add(1);
                    Some(response)
                }
            },
            None => {
                self.stats.misses = self.stats.misses.saturating_add(1);
                None
            },
        }
    }

    /// `get`: the cached reply for `key` if it is still live.
    pub fn get(&mut self, key: &str) -> (r: Option<String>)
        requires
            old(self).wf(),
        ensures
            final(self).wf(),
            exists|now_ns: u64|
                (final(self).view(), match r {
                    Some(s) => Some(s@),
                    None => None,
                }) == #[trigger] get_spec(old(self).view(), key@, now_ns),
    {
        let now = elapsed_ns(&self.origin);
        self.get_at(key, now)
    }

    /// `put` at time `now_ns`.
    pub fn put_at(&mut self, key: String, response: String, now_ns: u64)
        requires
            old(self).wf(),
            old(self).view().used_bytes + entry_size(key@, response@) <= usize::MAX,
        ensures
            final(self).wf(),
            final(self).view() == put_spec(old(self).view(), key@, response@, now_ns),
    {
        let ghost v0 = self.view();
        let key_len = key.as_str().len();
        let response_len = response.as_str().len();
        let new_size = key_len.saturating_add(response_len);
        assert(new_size == entry_size(key@, response@));
        let pos = self.position(&key);
        proof {
            lemma_key_pos(v0.entries, key@, pos);
        }
        match pos {
            Some(i) => {
                let ghost es0 = self.entries@;
                let existing = self.entries.remove(i);
                proof {
                    lemma_items_remove(es0, i as int);
                    lemma_total_remove(items_of(es0), i as int);
                    lemma_wf_remove(items_of(es0), i as int);
                }
                self.used_bytes = self.used_bytes - existing.size_bytes;
            },
            None => {},
        }
        let ghost base = items_of(self.entries@);
        let ghost base_used = self.used_bytes as nat;
        let entry = CacheEntry { key, response, inserted_at_ns: now_ns, size_bytes: new_size };
        let ghost item = entry.item();
        proof {
            assert forall|j: int| 0 <= j < base.len() implies #[trigger] base[j].key != item.key by {
                if pos is Some {
                    let i = pos->0 as int;
                    if j < i {
                        assert(base[j] == v0.entries[j]);
                    } else {
                        assert(base[j] == v0.entries[j + 1]);
                    }
                } else {
                    assert(base[j] == v0.entries[j]);
                }
            }
            lemma_wf_push_absent(base, item);
        }
        self.entries.push(entry);
        assert(items_of(self.entries@) =~= base.push(item));
        self.used_bytes = self.used_bytes + new_size;
        self.evict_if_needed();
    }

    /// `put`: stores `response` under `key`.
    pub fn put(&mut self, key: String, response: String)
        requires
            old(self).wf(),
            old(self).view().used_bytes + entry_size(key@, response@) <= usize::MAX,
        ensures
            final(self).wf(),
            exists|now_ns: u64|
                final(self).view() == #[trigger] put_spec(old(self).view(), key@, response@, now_ns),
    {
        let now = elapsed_ns(&self.origin);
        self.put_at(key, response, now);
    }

    fn evict_if_needed(&mut self)
        requires
            old(self).wf(),
        ensures
            final(self).wf(),
            (final(self).view().entries, final(self).view().used_bytes, final(self).view().stats.evictions)
                == evict(
                old(self).view().entries,
                old(self).view().used_bytes,
                old(self).view().config.max_bytes as nat,
                old(self).view().stats.evictions,
            ),
            final(self).view().stats == (CacheStats {
                evictions: final(self).view().stats.evictions,
                ..old(self).view().stats
            }),
            final(self).view().config == old(self).view().config,
    {
        let ghost target = evict(
            self.view().entries,
            self.view().used_bytes,
            self.config.max_bytes as nat,
            self.stats.evictions,
        );
        while self.used_bytes > self.config.max_bytes && self.entries.len() > 0
            invariant
                self.wf(),
                self.config == old(self).config,
                self.stats == (CacheStats { evictions: self.stats.evictions, ..old(self).stats }),
                evict(
                    self.view().entries,
                    self.view().used_bytes,
                    self.config.max_bytes as nat,
                    self.stats.evictions,
                ) == target,
            decreases self.entries.len(),
        {
            let ghost es0 = self.entries@;
            let oldest = self.entries.remove(0);
            proof {
                lemma_items_remove(es0, 0);
                lemma_total_remove(items_of(es0), 0);
                lemma_wf_remove(items_of(es0), 0);
                assert(items_of(es0).remove(0) =~= items_of(es0).drop_first());
            }
            self.used_bytes = self.used_bytes - oldest.size_bytes;
            self.stats.evictions = self.stats.evictions.saturating_add(1);
        }
    }
}

proof fn lemma_key_pos(es: Seq<CachedItem>, key: Seq<char>, pos: Option<usize>)
    requires
        keys_distinct(es),
        match pos {
            Some(i) => i < es.len() && es[i as int].key == key,
            None => forall|j: int| 0 <= j < es.len() ==> #[trigger] es[j].key != key,
        },
    ensures
        match pos {
            Some(i) => key_pos(es, key) == Some(i as int),
            None => key_pos(es, key) is None,
        },
{
    if let Some(i) = pos {
        assert(es[i as int].key == key);
        let c = choose|j: int| 0 <= j < es.len() && #[trigger] es[j].key == key;
        assert(c == i as int);
    }
}

proof fn lemma_items_remove(es: Seq<CacheEntry>, i: int)
    requires
        0 <= i < es.len(),
    ensures
        items_of(es.remove(i)) == items_of(es).remove(i),
{
    assert(items_of(es.remove(i)) =~= items_of(es).remove(i));
}

pub proof fn lemma_total_remove(es: Seq<CachedItem>, i: int)
    requires
        0 <= i < es.len(),
    ensures
        total_size(es.remove(i)) + es[i].size == total_size(es),
    decreases es.len(),
{
    if i == es.len() - 1 {
        assert(es.remove(i) =~= es.drop_last());
    } else {
        let d = es.drop_last();
        lemma_total_remove(d, i);
        assert(es.remove(i) =~= d.remove(i).push(es.last()));
        assert(es.remove(i).drop_last() =~= d.remove(i));
    }
}

proof fn lemma_wf_remove(es: Seq<CachedItem>, i: int)
    requires
        0 <= i < es.len(),
        entries_wf(es),
    ensures
        entries_wf(es.remove(i)),
{
    let r = es.remove(i);
    assert forall|a: int, b: int|
        0 <= a < r.len() && 0 <= b < r.len() && a != b implies #[trigger] r[a].key
        != #[trigger] r[b].key by {
        let ia = if a < i {
            a
        } else {
            a + 1
        };
        let ib = if b < i {
            b
        } else {
            b + 1
        };
        assert(r[a] == es[ia]);
        assert(r[b] == es[ib]);
    }
    assert forall|a: int| 0 <= a < r.len() implies (#[trigger] r[a]).size == entry_size(
        r[a].key,
        r[a].response,
    ) by {
        let ia = if a < i {
            a
        } else {
            a + 1
        };
        assert(r[a] == es[ia]);
    }
}

proof fn lemma_wf_push_absent(es: Seq<CachedItem>, item: CachedItem)
    requires
        entries_wf(es),
        forall|j: int| 0 <= j < es.len() ==> #[trigger] es[j].key != item.key,
        item.size == entry_size(item.key, item.response),
    ensures
        entries_wf(es.push(item)),
        total_size(es.push(item)) == total_size(es) + item.size,
{
    let r = es.push(item);
    assert(r.drop_last() =~= es);
    assert forall|a: int, b: int|
        0 <= a < r.len() && 0 <= b < r.len() && a != b implies #[trigger] r[a].key
        != #[trigger] r[b].key by {
        if a < es.len() && b < es.len() {
            assert(r[a] == es[a]);
            assert(r[b] == es[b]);
        } else if a < es.len() {
            assert(r[a] == es[a]);
        } else {
            assert(r[b] == es[b]);
        }
    }
    assert forall|a: int| 0 <= a < r.len() implies (#[trigger] r[a]).size == entry_size(
        r[a].key,
        r[a].response,
    ) by {
        if a < es.len() {
            assert(r[a] == es[a]);
        }
    }
}


/// A cache state whose entries are well formed and whose byte count is the
/// sum of their sizes.
pub open spec fn view_wf(v: CacheView) -> bool {
    entries_wf(v.entries) && v.used_bytes == total_size(v.entries)
}

impl ResponseCache {
    /// The abstract state of a well-formed cache is well formed.
    pub proof fn lemma_view_wf(&self)
        requires
            self.wf(),
        ensures
            view_wf(self.view()),
    {
    }
}

proof fn lemma_drop_first_total(es: Seq<CachedItem>)
    requires
        es.len() > 0,
    ensures
        total_size(es.drop_first()) + es[0].size == total_size(es),
{
    lemma_total_remove(es, 0);
    assert(es.remove(0) =~= es.drop_first());
}

/// Eviction keeps a suffix of the entries whose sizes add up to the new
/// byte count, which is within the budget unless nothing is left; the most
/// recent entry stays when it alone fits the budget.
pub proof fn lemma_evict(es: Seq<CachedItem>, used: nat, max: nat, ev: u64)
    requires
        used == total_size(es),
    ensures
        ({
            let r = evict(es, used, max, ev);
            &&& r.0.len() <= es.len()
            &&& r.0 == es.skip(es.len() - r.0.len())
            &&& r.1 == total_size(r.0)
            &&& (r.1 <= max || r.0.len() == 0)
            &&& (es.len() > 0 && es.last().size <= max ==> r.0.len() > 0)
        }),
    decreases es.len(),
{
    if used > max && es.len() > 0 {
        let d = es.drop_first();
        lemma_drop_first_total(es);
        lemma_evict(d, (used - es[0].size) as nat, max, sat_inc(ev));
        let r = evict(d, (used - es[0].size) as nat, max, sat_inc(ev));
        assert(r.0 =~= es.skip(es.len() - r.0.len()));
        if es.len() > 0 && es.last().size <= max {
            if es.len() == 1 {
                assert(es.drop_last().len() == 0);
                assert(total_size(es) == es[0].size);
            } else {
                assert(d.last() == es.last());
            }
        }
    } else {
        assert(es.skip(0) =~= es);
    }
}

proof fn lemma_suffix_wf(es: Seq<CachedItem>, k: int)
    requires
        0 <= k <= es.len(),
        entries_wf(es),
    ensures
        entries_wf(es.skip(k)),
{
    let r = es.skip(k);
    assert forall|a: int, b: int|
        0 <= a < r.len() && 0 <= b < r.len() && a != b implies #[trigger] r[a].key
        != #[trigger] r[b].key by {
        assert(r[a] == es[a + k]);
        assert(r[b] == es[b + k]);
    }
    assert forall|a: int| 0 <= a < r.len() implies (#[trigger] r[a]).size == entry_size(
        r[a].key,
        r[a].response,
    ) by {
        assert(r[a] == es[a + k]);
    }
}

proof fn lemma_put_parts(v: CacheView, key: Seq<char>, response: Seq<char>)
    requires
        view_wf(v),
    ensures
        ({
            let (base, base_used) = match key_pos(v.entries, key) {
                Some(i) => (v.entries.remove(i), (v.used_bytes - v.entries[i].size) as nat),
                None => (v.entries, v.used_bytes),
            };
            let item = CachedItem { key, response, inserted_at_ns: 0, size: entry_size(key, response) };
            &&& entries_wf(base)
            &&& base_used == total_size(base)
            &&& forall|j: int| 0 <= j < base.len() ==> #[trigger] base[j].key != key
        }),
{
    match key_pos(v.entries, key) {
        Some(i) => {
            let w = choose|j: int| 0 <= j < v.entries.len() && #[trigger] v.entries[j].key == key;
            assert(i == w);
            lemma_total_remove(v.entries, i);
            lemma_wf_remove(v.entries, i);
            let base = v.entries.remove(i);
            assert forall|j: int| 0 <= j < base.len() implies #[trigger] base[j].key != key by {
                if j < i {
                    assert(base[j] == v.entries[j]);
                } else {
                    assert(base[j] == v.entries[j + 1]);
                }
            }
        },
        None => {},
    }
}

/// Law (budget): after any `put`, the cache stays well formed and holds at
/// most its byte budget.
pub proof fn law_put_within_budget(v: CacheView, key: Seq<char>, response: Seq<char>, now_ns: u64)
    requires
        view_wf(v),
    ensures
        view_wf(put_spec(v, key, response, now_ns)),
        put_spec(v, key, response, now_ns).used_bytes <= v.config.max_bytes,
        put_spec(v, key, response, now_ns).config == v.config,
{
    lemma_put_parts(v, key, response);
    let (base, base_used) = match key_pos(v.entries, key) {
        Some(i) => (v.entries.remove(i), (v.used_bytes - v.entries[i].size) as nat),
        None => (v.entries, v.used_bytes),
    };
    let item = CachedItem { key, response, inserted_at_ns: now_ns, size: entry_size(key, response) };
    lemma_wf_push_absent(base, item);
    let es = base.push(item);
    lemma_evict(es, base_used + item.size, v.config.max_bytes as nat, v.stats.evictions);
    let r = evict(es, base_used + item.size, v.config.max_bytes as nat, v.stats.evictions);
    lemma_suffix_wf(es, es.len() - r.0.len());
}

proof fn lemma_evict_count(es: Seq<CachedItem>, used: nat, max: nat, ev: u64)
    ensures
        ({
            let r = evict(es, used, max, ev);
            &&& r.0.len() <= es.len()
            &&& (ev + (es.len() - r.0.len()) <= u64::MAX ==> r.2 == ev + (es.len() - r.0.len()))
        }),
    decreases es.len(),
{
    if used > max && es.len() > 0 {
        lemma_evict_count(es.drop_first(), (used - es[0].size) as nat, max, sat_inc(ev));
    }
}

/// Law (what `put` keeps): the new reply is kept, as the most recently used
/// entry, exactly when it alone fits the byte budget. The entries that stay
/// are the most recent ones of the old entries (without the key) followed
/// by the new one, so the least recently used go first; each one removed is
/// counted as an eviction (up to the counter's limit), and the hit and miss
/// counters are untouched.
pub proof fn law_put_keeps_iff_fits(v: CacheView, key: Seq<char>, response: Seq<char>, now_ns: u64)
    requires
        view_wf(v),
    ensures
        ({
            let p = put_spec(v, key, response, now_ns);
            let base = match key_pos(v.entries, key) {
                Some(i) => v.entries.remove(i),
                None => v.entries,
            };
            let item = CachedItem { key, response, inserted_at_ns: now_ns, size: entry_size(key, response) };
            let all = base.push(item);
            &&& p.entries.len() <= all.len()
            &&& p.entries == all.skip(all.len() - p.entries.len())
            &&& (entry_size(key, response) <= v.config.max_bytes ==> p.entries.len() > 0 && p.entries.last() == item)
            &&& (entry_size(key, response) > v.config.max_bytes ==> forall|j: int|
                0 <= j < p.entries.len() ==> #[trigger] p.entries[j].key != key)
            &&& (v.stats.evictions + (all.len() - p.entries.len()) <= u64::MAX ==> p.stats.evictions
                == v.stats.evictions + (all.len() - p.entries.len()))
            &&& p.stats.hits == v.stats.hits
            &&& p.stats.misses == v.stats.misses
        }),
{
    lemma_put_parts(v, key, response);
    let (base, base_used) = match key_pos(v.entries, key) {
        Some(i) => (v.entries.remove(i), (v.used_bytes - v.entries[i].size) as nat),
        None => (v.entries, v.used_bytes),
    };
    let item = CachedItem { key, response, inserted_at_ns: now_ns, size: entry_size(key, response) };
    let all = base.push(item);
    assert(all.drop_last() =~= base);
    assert(total_size(all) == base_used + item.size);
    let max = v.config.max_bytes as nat;
    lemma_evict(all, base_used + item.size, max, v.stats.evictions);
    lemma_evict_count(all, base_used + item.size, max, v.stats.evictions);
    let r = evict(all, base_used + item.size, max, v.stats.evictions);
    if r.0.len() > 0 {
        assert(r.0.last() == all.last());
        assert(r.0.drop_last().len() < r.0.len());
        assert(total_size(r.0) >= r.0.last().size);
    }
}

/// Law (counting): every `get` counts exactly one hit or one miss (while
/// the counters are below their limit): a hit exactly when a reply comes
/// back. An expiry is counted only together with a miss, so expiries never
/// outnumber misses, and evictions are untouched.
pub proof fn law_get_counts_once(v: CacheView, key: Seq<char>, now_ns: u64)
    requires
        v.stats.hits < u64::MAX,
        v.stats.misses < u64::MAX,
    ensures
        ({
            let (w, r) = get_spec(v, key, now_ns);
            &&& w.stats.hits + w.stats.misses == v.stats.hits + v.stats.misses + 1
            &&& (r is Some <==> w.stats.hits == v.stats.hits + 1)
            &&& (w.stats.expired != v.stats.expired ==> w.stats.misses == v.stats.misses + 1)
            &&& (v.stats.expired <= v.stats.misses ==> w.stats.expired <= w.stats.misses)
            &&& w.stats.evictions == v.stats.evictions
        }),
{
}

/// One call on the cache, with the clock reading it is made at.
pub enum CacheCall {
    Get { key: Seq<char>, now_ns: u64 },
    Put { key: Seq<char>, response: Seq<char>, now_ns: u64 },
}

/// The state after a sequence of calls, made in order.
pub open spec fn run_calls(v: CacheView, calls: Seq<CacheCall>) -> CacheView
    decreases calls.len(),
{
    if calls.len() == 0 {
        v
    } else {
        let w = run_calls(v, calls.drop_last());
        match calls.last() {
            CacheCall::Get { key, now_ns } => get_spec(w, key, now_ns).0,
            CacheCall::Put { key, response, now_ns } => put_spec(w, key, response, now_ns),
        }
    }
}

/// How many of the calls are `get`s.
pub open spec fn count_gets(calls: Seq<CacheCall>) -> nat
    decreases calls.len(),
{
    if calls.len() == 0 {
        0
    } else {
        count_gets(calls.drop_last()) + if calls.last() is Get {
            1nat
        } else {
            0nat
        }
    }
}

/// Law (statistics over a run): after any sequence of `get`s and `put`s on a
/// fresh or cleared cache, hits and misses add up to the number of `get`s
/// (while that number is below the counters' limit), and expiries never
/// outnumber misses.
pub proof fn law_stats_count_gets(v: CacheView, calls: Seq<CacheCall>)
    requires
        v.stats.hits == 0,
        v.stats.misses == 0,
        v.stats.expired == 0,
        count_gets(calls) < u64::MAX,
    ensures
        run_calls(v, calls).stats.hits + run_calls(v, calls).stats.misses == count_gets(calls),
        run_calls(v, calls).stats.expired <= run_calls(v, calls).stats.misses,
    decreases calls.len(),
{
    if calls.len() > 0 {
        law_stats_count_gets(v, calls.drop_last());
        let w = run_calls(v, calls.drop_last());
        match calls.last() {
            CacheCall::Get { key, now_ns } => {
                law_get_counts_once(w, key, now_ns);
            },
            CacheCall::Put { key, response, now_ns } => {},
        }
    }
}

/// Law (read back): a reply stored with `put` is returned by a `get` of the
/// same key while it is live (no longer than the time-to-live after the
/// `put`), provided that the entry alone fits the byte budget.
pub proof fn law_get_after_put(
    v: CacheView,
    key: Seq<char>,
    response: Seq<char>,
    put_ns: u64,
    get_ns: u64,
)
    requires
        view_wf(v),
        entry_size(key, response) <= v.config.max_bytes,
        sat_sub(get_ns, put_ns) <= v.config.ttl_ns,
    ensures
        get_spec(put_spec(v, key, response, put_ns), key, get_ns).1 == Some(response),
{
    lemma_put_parts(v, key, response);
    let (base, base_used) = match key_pos(v.entries, key) {
        Some(i) => (v.entries.remove(i), (v.used_bytes - v.entries[i].size) as nat),
        None => (v.entries, v.used_bytes),
    };
    let item = CachedItem { key, response, inserted_at_ns: put_ns, size: entry_size(key, response) };
    lemma_wf_push_absent(base, item);
    let es = base.push(item);
    lemma_evict(es, base_used + item.size, v.config.max_bytes as nat, v.stats.evictions);
    let r = evict(es, base_used + item.size, v.config.max_bytes as nat, v.stats.evictions);
    lemma_suffix_wf(es, es.len() - r.0.len());
    let p = put_spec(v, key, response, put_ns);
    assert(p.entries == r.0);
    let last = r.0.len() - 1;
    assert(r.0[last] == es[es.len() - 1]);
    assert(r.0[last].key == key);
    let w = choose|j: int| 0 <= j < r.0.len() && #[trigger] r.0[j].key == key;
    assert(w == last);
}

/// Law: `get` never adds bytes to the cache and keeps it well formed.
pub proof fn law_get_keeps_budget(v: CacheView, key: Seq<char>, now_ns: u64)
    requires
        view_wf(v),
    ensures
        view_wf(get_spec(v, key, now_ns).0),
        get_spec(v, key, now_ns).0.used_bytes <= v.used_bytes,
        get_spec(v, key, now_ns).0.config == v.config,
{
    match key_pos(v.entries, key) {
        Some(i) => {
            let w = choose|j: int| 0 <= j < v.entries.len() && #[trigger] v.entries[j].key == key;
            assert(i == w);
            lemma_total_remove(v.entries, i);
            lemma_wf_remove(v.entries, i);
            let base = v.entries.remove(i);
            assert forall|j: int| 0 <= j < base.len() implies #[trigger] base[j].key != key by {
                if j < i {
                    assert(base[j] == v.entries[j]);
                } else {
                    assert(base[j] == v.entries[j + 1]);
                }
            }
            lemma_wf_push_absent(base, v.entries[i]);
        },
        None => {},
    }
}

/// The 64 lowercase hexadecimal digits of the BLAKE3 digest of `data`.
pub uninterp spec fn blake3_hex(data: Seq<u8>) -> Seq<char>;

/// `blake3::hash(data).to_hex()`: the BLAKE3 digest of `data` in lowercase
/// hexadecimal. The digest itself is only named; its length, 64 characters
/// (32 bytes, two digits each), is stated.
#[verifier::external_body]
fn blake3_hex_digest(data: &[u8]) -> (r: String)
    ensures
        r@ == blake3_hex(data@),
        r@.len() == 64,
{
    blake3::hash(data).to_hex().to_string()
}

/// `make_cache_key`: the BLAKE3 hex digest of the UTF-8 bytes of
/// `prompt`, `model` and `system_prompt` concatenated.
pub fn make_cache_key(prompt: &str, model: &str, system_prompt: &str) -> (r: String)
    ensures
        r@ == blake3_hex(vstd::utf8::encode_utf8(prompt@ + model@ + system_prompt@)),
        r@.len() == 64,
{
    let mut raw = chars_of(prompt);
    push_all(&mut raw, chars_of(model).as_slice());
    push_all(&mut raw, chars_of(system_prompt).as_slice());
    let raw = string_of(raw.as_slice());
    blake3_hex_digest(raw.as_str().as_bytes())
}

/// `get_cached_response`: looks `key` up in the process-wide cache, which the
/// caller hands in.
pub fn get_cached_response(cache: &mut ResponseCache, key: &str) -> (r: Option<String>)
    requires
        old(cache).wf(),
    ensures
        final(cache).wf(),
        exists|now_ns: u64|
            (final(cache).view(), match r {
                Some(s) => Some(s@),
                None => None,
            }) == #[trigger] get_spec(old(cache).view(), key@, now_ns),
{
    cache.get(key)
}

/// `insert_cached_response`: stores `response` under `key` in the shared
/// cache. The byte count cannot pass `usize::MAX` while the entries are held
/// in memory; should it ever, the cache is left as it was.
pub fn insert_cached_response(cache: &mut ResponseCache, key: String, response: String)
    requires
        old(cache).wf(),
    ensures
        final(cache).wf(),
        old(cache).view().used_bytes + entry_size(key@, response@) <= usize::MAX ==> exists|now_ns: u64|
            final(cache).view() == #[trigger] put_spec(old(cache).view(), key@, response@, now_ns),
        old(cache).view().used_bytes + entry_size(key@, response@) > usize::MAX ==> final(cache).view()
            == old(cache).view(),
{
    let key_len = key.as_str().as_bytes().len();
    let response_len = response.as_str().as_bytes().len();
    if key_len <= usize::MAX - response_len && key_len + response_len <= usize::MAX - cache.used_bytes() {
        cache.put(key, response);
    }
}

/// `response_cache_stats`: the counters of the shared cache.
pub fn response_cache_stats(cache: &ResponseCache) -> (r: CacheStats)
    ensures
        r == cache.view().stats,
{
    cache.stats()
}

/// `reset_response_cache`: empties the shared cache and zeroes its counters.
pub fn reset_response_cache(cache: &mut ResponseCache)
    ensures
        final(cache).wf(),
        final(cache).view() == (CacheView {
            entries: Seq::empty(),
            used_bytes: 0,
            stats: CacheStats { hits: 0, misses: 0, evictions: 0, expired: 0 },
            config: old(cache).view().config,
        }),
{
    cache.clear()
}

} // verus!
