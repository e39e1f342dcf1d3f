//! The three expiring registries, backed by a concurrent hash map.
//!
//! Each registry owns a `dashmap::DashMap` whose abstract contents are
//! described by an uninterpreted map function; the handful of map
//! operations the registries need are trusted wrappers around the
//! `DashMap` methods, and everything above them is verified against those
//! contracts.
//!
//! * `FileCache` — hash-keyed object descriptors with absolute expiry and
//!   a bounded-capacity eviction fallback;
//! * `DownloadManager` — task-id-keyed retrieval progress records and
//!   their lifecycle state machine;
//! * `FileStreamManager` — session-id-keyed active delivery sessions with
//!   age-based expiry.

use crate::error::AppError;
use crate::state::DownloadProgress;
use crate::state::FileInfo;
use crate::state::StreamInfo;
use crate::state::is_terminal;
use crate::state::spec_apply_progress;
use crate::state::spec_mark_cancelled;
use crate::state::spec_mark_failed;
use crate::state::spec_new_task;
use crate::state::apply_progress;
use crate::state::mark_cancelled_record;
use crate::state::mark_failed_record;
use crate::state::new_task;
use crate::state::status_is_terminal;
use dashmap::DashMap;
use vstd::prelude::*;
use vstd::set_lib::lemma_len_subset;

verus! {

#[verifier::external_type_specification]
#[verifier::external_body]
#[verifier::reject_recursive_types(K)]
#[verifier::reject_recursive_types(V)]
#[verifier::reject_recursive_types(S)]
pub struct ExDashMap<K, V, S>(DashMap<K, V, S>);

/// The concrete map type behind the object cache.
pub type CacheMap = DashMap<String, CacheEntry>;

/// One object-cache slot: the descriptor plus the insertion sequence
/// number that breaks eviction-order ties between equal creation times.
#[derive(Debug, Clone)]
pub struct CacheEntry {
    pub seq: u64,
    pub info: FileInfo,
}

/// The abstract contents of an object-cache map: which descriptor entry
/// each hash key is bound to.
pub uninterp spec fn cache_contents(m: CacheMap) -> Map<Seq<char>, CacheEntry>;

/// The empty cache contents.
pub open spec fn cache_empty() -> Map<Seq<char>, CacheEntry> {
    Map::empty()
}

/// Relies on dashmap::DashMap::new: creates an empty map.
#[verifier::external_body]
fn cache_new() -> (m: CacheMap)
    ensures
        cache_contents(m) == cache_empty(),
{
    DashMap::new()
}

/// Relies on dashmap::DashMap::insert: binds the key to the value,
/// replacing any previous binding.
#[verifier::external_body]
fn cache_insert(m: &mut CacheMap, k: String, v: CacheEntry)
    ensures
        cache_contents(*final(m)) == cache_contents(*old(m)).insert(k@, v),
{
    m.insert(k, v);
}

/// Relies on dashmap::DashMap::get: returns the value bound to the key,
/// if any.
#[verifier::external_body]
fn cache_get(m: &CacheMap, k: &str) -> (r: Option<CacheEntry>)
    ensures
        r == cache_contents(*m).index_opt(k@),
{
    m.get(k).map(|e| e.value().clone())
}

/// Relies on dashmap::DashMap::remove: unbinds the key and returns the
/// value it was bound to, if any.
#[verifier::external_body]
fn cache_remove(m: &mut CacheMap, k: &str) -> (r: Option<CacheEntry>)
    ensures
        r == cache_contents(*old(m)).index_opt(k@),
        cache_contents(*final(m)) == cache_contents(*old(m)).remove(k@),
{
    m.remove(k).map(|(_, v)| v)
}

/// Relies on dashmap::DashMap::len: the number of bound keys.
#[verifier::external_body]
fn cache_len(m: &CacheMap) -> (r: usize)
    ensures
        r as nat == cache_contents(*m).dom().len(),
{
    m.len()
}

/// Relies on dashmap::DashMap::iter: yields every entry exactly once, in
/// no specified order.
#[verifier::external_body]
fn cache_entries(m: &CacheMap) -> (r: Vec<(String, CacheEntry)>)
    ensures
        r@.len() == cache_contents(*m).dom().len(),
        forall|i: int|
            0 <= i < r@.len() ==> cache_contents(*m).contains_pair(
                (#[trigger] r@[i]).0@,
                r@[i].1,
            ),
        forall|i: int, j: int| 0 <= i < j < r@.len() ==> r@[i].0@ != r@[j].0@,
        forall|k: Seq<char>|
            #[trigger] cache_contents(*m).dom().contains(k) ==> exists|i: int|
                0 <= i < r@.len() && r@[i].0@ == k,
{
    m.iter().map(|e| (e.key().clone(), e.value().clone())).collect()
}

/// An object is expired once the instant `now` has reached its expiry.
pub open spec fn spec_file_expired(f: FileInfo, now: u64) -> bool {
    f.expires_at < now
}

/// Keeps exactly the entries whose descriptor the expiry sweep at `now`
/// would retain.
pub open spec fn unexpired_part(c: Map<Seq<char>, CacheEntry>, now: u64) -> Map<
    Seq<char>,
    CacheEntry,
> {
    Map::new(|k: Seq<char>| c.dom().contains(k) && !spec_file_expired(c[k].info, now), |k| c[k])
}

fn keep_file(e: &CacheEntry, now: u64) -> (r: bool)
    ensures
        r == !spec_file_expired(e.info, now),
{
    e.info.expires_at >= now
}

/// Relies on dashmap::DashMap::retain: keeps exactly the entries the
/// predicate accepts; the predicate only calls the verified `keep_file`.
#[verifier::external_body]
fn cache_retain_unexpired(m: &mut CacheMap, now: u64)
    ensures
        cache_contents(*final(m)) == unexpired_part(cache_contents(*old(m)), now),
{
    m.retain(|_, e| keep_file(e, now));
}

/// Eviction order: by creation instant, ties broken by insertion order.
pub open spec fn entry_le(a: CacheEntry, b: CacheEntry) -> bool {
    a.info.created_at < b.info.created_at || (a.info.created_at == b.info.created_at && a.seq
        <= b.seq)
}

fn entry_before(a: &CacheEntry, b: &CacheEntry) -> (r: bool)
    ensures
        r ==> entry_le(*a, *b),
        !r ==> entry_le(*b, *a),
{
    a.info.created_at < b.info.created_at || (a.info.created_at == b.info.created_at && a.seq
        < b.seq)
}

/// The result a cache lookup at `now` owes: the descriptor bound to the
/// hash, with an entry that has already expired treated as absent
/// whether or not a sweep has removed it yet.
pub open spec fn spec_lookup(c: Map<Seq<char>, CacheEntry>, h: Seq<char>, now: u64) -> Option<
    FileInfo,
> {
    if c.dom().contains(h) && now < c[h].info.expires_at {
        Some(c[h].info)
    } else {
        None
    }
}

/// Bounded-capacity object cache keyed by content hash.
pub struct FileCache {
    cache: CacheMap,
    max_cache_size: usize,
    next_seq: u64,
}

impl FileCache {
    /// The abstract contents: hash to cache entry.
    pub closed spec fn entries(self) -> Map<Seq<char>, CacheEntry> {
        cache_contents(self.cache)
    }

    /// The configured capacity bound.
    pub closed spec fn capacity(self) -> usize {
        self.max_cache_size
    }

    /// The insertion counter used for eviction tie-breaking.
    pub closed spec fn seq_counter(self) -> u64 {
        self.next_seq
    }

    /// Well-formedness: finitely many entries, every entry keyed by its
    /// own hash, well formed, and carrying a unique insertion number
    /// below the counter.
    pub open spec fn wf(self) -> bool {
        &&& self.entries().dom().finite()
        &&& forall|k: Seq<char>| #[trigger]
            self.entries().dom().contains(k) ==> self.entries()[k].info.hash@ == k
                && self.entries()[k].info.wf() && self.entries()[k].seq < self.seq_counter()
        &&& forall|k1: Seq<char>, k2: Seq<char>|
            self.entries().dom().contains(k1) && self.entries().dom().contains(k2) && k1 != k2
                ==> (#[trigger] self.entries()[k1]).seq != (#[trigger] self.entries()[k2]).seq
    }

    /// Creates an empty cache with the given capacity bound.
    pub fn new(max_cache_size: usize) -> (r: FileCache)
        ensures
            r.wf(),
            r.entries() == cache_empty(),
            r.capacity() == max_cache_size,
    {
        FileCache { cache: cache_new(), max_cache_size, next_seq: 0 }
    }

    /// How many insertions the cache has seen; register requires this to
    /// lie below the counter limit, so callers can test it beforehand.
    pub fn insertions(&self) -> (r: u64)
        ensures
            r == self.seq_counter(),
    {
        self.next_seq
    }

    /// The number of cached objects.
    pub fn get_cache_size(&self) -> (r: usize)
        ensures
            r as nat == self.entries().dom().len(),
    {
        cache_len(&self.cache)
    }

    /// Looks an object up by hash; an expired entry is reported absent
    /// even before a sweep has removed it.
    pub fn get_file(&self, file_hash: &str, now: u64) -> (r: Option<FileInfo>)
        ensures
            r == spec_lookup(self.entries(), file_hash@, now),
    {
        match cache_get(&self.cache, file_hash) {
            Some(e) => {
                if now < e.info.expires_at {
                    Some(e.info)
                } else {
                    None
                }
            },
            None => None,
        }
    }

    /// Removes an object by hash, returning its descriptor if present.
    pub fn remove_file(&mut self, file_hash: &str) -> (r: Option<FileInfo>)
        requires
            old(self).wf(),
        ensures
            final(self).wf(),
            final(self).entries() == old(self).entries().remove(file_hash@),
            final(self).capacity() == old(self).capacity(),
            r == (if old(self).entries().dom().contains(file_hash@) {
                Some(old(self).entries()[file_hash@].info)
            } else {
                None::<FileInfo>
            }),
    {
        let r = cache_remove(&mut self.cache, file_hash);
        match r {
            Some(e) => Some(e.info),
            None => None,
        }
    }

    /// Sweeps out every entry that has expired at `now`, returning how
    /// many were removed.
    pub fn cleanup_expired_files(&mut self, now: u64) -> (count: usize)
        requires
            old(self).wf(),
        ensures
            final(self).wf(),
            final(self).entries() == unexpired_part(old(self).entries(), now),
            final(self).capacity() == old(self).capacity(),
            count as nat == old(self).entries().dom().len() - final(self).entries().dom().len(),
    {
        let before = cache_len(&self.cache);
        cache_retain_unexpired(&mut self.cache, now);
        let after = cache_len(&self.cache);
        proof {
            assert(cache_contents(self.cache).dom() <= old(self).entries().dom());
            lemma_len_subset(cache_contents(self.cache).dom(), old(self).entries().dom());
        }
        before - after
    }

    /// Evicts the oldest `capacity / 2` entries (all of them, if fewer are
    /// cached), ordered by creation instant with ties broken by insertion
    /// order — a deliberately crude amortized-halving fallback, not a
    /// recency-based policy. Returns the number of evicted entries.
    pub fn cleanup_old_files(&mut self) -> (count: usize)
        requires
            old(self).wf(),
        ensures
            final(self).wf(),
            final(self).capacity() == old(self).capacity(),
            final(self).seq_counter() == old(self).seq_counter(),
            forall|k: Seq<char>| #[trigger]
                final(self).entries().dom().contains(k) ==> old(self).entries().contains_pair(
                    k,
                    final(self).entries()[k],
                ),
            count as int == spec_min(
                old(self).entries().dom().len() as int,
                (old(self).capacity() / 2) as int,
            ),
            final(self).entries().dom().len() == old(self).entries().dom().len() - count,
            forall|kr: Seq<char>, kk: Seq<char>|
                #![trigger old(self).entries().dom().contains(kr), final(self).entries().dom().contains(kk)]
                old(self).entries().dom().contains(kr) && !final(self).entries().dom().contains(kr)
                    && final(self).entries().dom().contains(kk) ==> entry_le(
                    old(self).entries()[kr],
                    old(self).entries()[kk],
                ),
    {
        let ghost c0 = cache_contents(self.cache);
        let ghost cap0 = self.max_cache_size;
        let ghost seq0 = self.next_seq;
        let len0 = cache_len(&self.cache);
        let half = self.max_cache_size / 2;
        let target = if len0 < half {
            len0
        } else {
            half
        };
        let mut removed: usize = 0;
        while removed < target
            invariant
                removed <= target,
                target as int == spec_min(c0.dom().len() as int, (cap0 / 2) as int),
                self.max_cache_size == cap0,
                self.next_seq == seq0,
                cache_contents(self.cache).dom().finite(),
                cache_contents(self.cache).dom().len() == c0.dom().len() - removed,
                forall|k: Seq<char>| #[trigger]
                    cache_contents(self.cache).dom().contains(k) ==> c0.contains_pair(
                        k,
                        cache_contents(self.cache)[k],
                    ),
                forall|kr: Seq<char>, kk: Seq<char>|
                    #![trigger c0.dom().contains(kr), cache_contents(self.cache).dom().contains(kk)]
                    c0.dom().contains(kr) && !cache_contents(self.cache).dom().contains(kr)
                        && cache_contents(self.cache).dom().contains(kk) ==> entry_le(
                        c0[kr],
                        c0[kk],
                    ),
            decreases target - removed,
        {
            let ghost cur = cache_contents(self.cache);
            let es = cache_entries(&self.cache);
            let mi = oldest_index(&es);
            let key = es[mi].0.clone();
            proof {
                assert(cur.contains_pair(es@[mi as int].0@, es@[mi as int].1));
            }
            cache_remove(&mut self.cache, key.as_str());
            removed = removed + 1;
            proof {
                let ghost newc = cache_contents(self.cache);
                assert forall|kr: Seq<char>, kk: Seq<char>|
                    c0.dom().contains(kr) && !newc.dom().contains(kr) && newc.dom().contains(
                        kk,
                    ) implies entry_le(c0[kr], c0[kk]) by {
                    if cur.dom().contains(kr) {
                        // kr can only be the entry just removed
                        assert(kr == key@);
                        let i = choose|i: int| 0 <= i < es@.len() && es@[i].0@ == kk;
                        assert(cur.contains_pair(es@[i].0@, es@[i].1));
                        assert(entry_le(es@[mi as int].1, es@[i].1));
                        assert(c0[kr] == cur[kr]);
                        assert(c0[kk] == cur[kk]);
                    }
                }
            }
        }
        removed
    }

    /// Registers a descriptor under its hash, evicting the oldest half of
    /// the capacity first when the cache is already at its bound.
    ///
    /// Below capacity the contents grow by exactly the new binding; at
    /// capacity, with a capacity of at least two, the bound still holds
    /// afterwards.
    pub fn add_file(&mut self, file_hash: &str, file_info: FileInfo) -> (r: Result<(), AppError>)
        requires
            old(self).wf(),
            old(self).seq_counter() < u64::MAX,
            file_hash@ == file_info.hash@,
            file_info.wf(),
        ensures
            final(self).wf(),
            final(self).capacity() == old(self).capacity(),
            final(self).seq_counter() == old(self).seq_counter() + 1,
            r is Ok,
            final(self).entries().dom().contains(file_info.hash@),
            final(self).entries()[file_info.hash@].info == file_info,
            forall|k: Seq<char>|
                k != file_info.hash@ && #[trigger] final(self).entries().dom().contains(k)
                    ==> old(self).entries().contains_pair(k, final(self).entries()[k]),
            old(self).entries().dom().len() < old(self).capacity() ==> final(self).entries()
                == old(self).entries().insert(
                file_info.hash@,
                (CacheEntry { seq: old(self).seq_counter(), info: file_info }),
            ),
            forall|kr: Seq<char>, kk: Seq<char>|
                #![trigger old(self).entries().dom().contains(kr), final(self).entries().dom().contains(kk)]
                old(self).entries().dom().contains(kr) && !final(self).entries().dom().contains(kr)
                    && final(self).entries().dom().contains(kk) && kr != file_info.hash@ && kk
                    != file_info.hash@ ==> entry_le(old(self).entries()[kr], old(self).entries()[kk]),
            old(self).entries().dom().len() <= old(self).capacity() && old(self).capacity() >= 2
                ==> final(self).entries().dom().len() <= old(self).capacity(),
    {
        let len = cache_len(&self.cache);
        if len >= self.max_cache_size {
            self.cleanup_old_files();
        }
        let entry = CacheEntry { seq: self.next_seq, info: file_info };
        let key = String::from_str(file_hash);
        cache_insert(&mut self.cache, key, entry);
        self.next_seq = self.next_seq + 1;
        Ok(())
    }
}

/// Whether `v` is bound to some key of `c`.
pub open spec fn is_value_of<V>(c: Map<Seq<char>, V>, v: V) -> bool {
    exists|k: Seq<char>| #[trigger] c.contains_pair(k, v)
}

/// Law: registering a descriptor and immediately looking its hash up
/// returns the descriptor unchanged, whatever the cache held before.
pub proof fn lemma_register_then_lookup(c: Map<Seq<char>, CacheEntry>, e: CacheEntry, now: u64)
    requires
        now < e.info.expires_at,
    ensures
        spec_lookup(c.insert(e.info.hash@, e), e.info.hash@, now) == Some(e.info),
{
}

/// Law: after an expiry sweep at `now`, a descriptor whose expiry lies in
/// the past is gone, and a lookup for its hash finds nothing.
pub proof fn lemma_purge_removes_expired(c: Map<Seq<char>, CacheEntry>, h: Seq<char>, now: u64)
    requires
        c.dom().contains(h) ==> c[h].info.expires_at < now,
    ensures
        !unexpired_part(c, now).dom().contains(h),
        spec_lookup(unexpired_part(c, now), h, now) is None,
{
}

/// Law: closing a session twice is harmless — the second close finds
/// nothing and leaves the registry exactly as the first close left it.
pub proof fn lemma_close_idempotent(c: Map<Seq<char>, StreamInfo>, session_id: Seq<char>)
    ensures
        c.remove(session_id).remove(session_id) == c.remove(session_id),
        c.remove(session_id).index_opt(session_id) is None,
{
    assert(c.remove(session_id).remove(session_id) =~= c.remove(session_id));
}

/// The contents after a batch of upserts, applied first to last.
pub open spec fn upsert_all<V>(c: Map<Seq<char>, V>, batch: Seq<(Seq<char>, V)>) -> Map<
    Seq<char>,
    V,
>
    decreases batch.len(),
{
    if batch.len() == 0 {
        c
    } else {
        upsert_all(c, batch.drop_last()).insert(batch.last().0, batch.last().1)
    }
}

/// Law: upserts on pairwise distinct keys lose nothing — after the whole
/// batch, every key reads back exactly the value written for it.
pub proof fn lemma_distinct_upserts_all_observed<V>(
    c: Map<Seq<char>, V>,
    batch: Seq<(Seq<char>, V)>,
    i: int,
)
    requires
        0 <= i < batch.len(),
        forall|a: int, b: int|
            0 <= a < b < batch.len() ==> (#[trigger] batch[a]).0 != (#[trigger] batch[b]).0,
    ensures
        upsert_all(c, batch).dom().contains(batch[i].0),
        upsert_all(c, batch)[batch[i].0] == batch[i].1,
    decreases batch.len(),
{
    if i < batch.len() - 1 {
        assert(batch.drop_last()[i] == batch[i]);
        lemma_distinct_upserts_all_observed(c, batch.drop_last(), i);
        assert(batch[i].0 != batch.last().0);
    }
}

/// Law: two upserts on distinct keys may be observed in either
/// interleaving — the contents come out the same.
pub proof fn lemma_distinct_upserts_commute<V>(
    c: Map<Seq<char>, V>,
    k1: Seq<char>,
    v1: V,
    k2: Seq<char>,
    v2: V,
)
    requires
        k1 != k2,
    ensures
        c.insert(k1, v1).insert(k2, v2) == c.insert(k2, v2).insert(k1, v1),
{
    assert(c.insert(k1, v1).insert(k2, v2) =~= c.insert(k2, v2).insert(k1, v1));
}

/// The smaller of two integers.
pub open spec fn spec_min(a: int, b: int) -> int {
    if a < b {
        a
    } else {
        b
    }
}

/// The concrete map type behind the download-task tracker.
pub type TaskMap = DashMap<String, DownloadProgress>;

/// The abstract contents of a task map: which progress record each task
/// id is bound to.
pub uninterp spec fn task_contents(m: TaskMap) -> Map<Seq<char>, DownloadProgress>;

/// The empty task-tracker contents.
pub open spec fn task_empty() -> Map<Seq<char>, DownloadProgress> {
    Map::empty()
}

/// Relies on dashmap::DashMap::new: creates an empty map.
#[verifier::external_body]
fn task_new() -> (m: TaskMap)
    ensures
        task_contents(m) == task_empty(),
{
    DashMap::new()
}

/// Relies on dashmap::DashMap::insert: binds the key to the value,
/// replacing any previous binding.
#[verifier::external_body]
fn task_insert(m: &mut TaskMap, k: String, v: DownloadProgress)
    ensures
        task_contents(*final(m)) == task_contents(*old(m)).insert(k@, v),
{
    m.insert(k, v);
}

/// Relies on dashmap::DashMap::get: returns the value bound to the key,
/// if any.
#[verifier::external_body]
fn task_get(m: &TaskMap, k: &str) -> (r: Option<DownloadProgress>)
    ensures
        r == task_contents(*m).index_opt(k@),
{
    m.get(k).map(|e| e.value().clone())
}

/// Relies on dashmap::DashMap::remove: unbinds the key and returns the
/// value it was bound to, if any.
#[verifier::external_body]
fn task_remove(m: &mut TaskMap, k: &str) -> (r: Option<DownloadProgress>)
    ensures
        r == task_contents(*old(m)).index_opt(k@),
        task_contents(*final(m)) == task_contents(*old(m)).remove(k@),
{
    m.remove(k).map(|(_, v)| v)
}

/// Relies on dashmap::DashMap::len: the number of bound keys.
#[verifier::external_body]
fn task_len(m: &TaskMap) -> (r: usize)
    ensures
        r as nat == task_contents(*m).dom().len(),
{
    m.len()
}

/// Relies on dashmap::DashMap::iter: yields every entry exactly once, in
/// no specified order.
#[verifier::external_body]
fn task_entries(m: &TaskMap) -> (r: Vec<(String, DownloadProgress)>)
    ensures
        r@.len() == task_contents(*m).dom().len(),
        forall|i: int|
            0 <= i < r@.len() ==> task_contents(*m).contains_pair((#[trigger] r@[i]).0@, r@[i].1),
        forall|i: int, j: int| 0 <= i < j < r@.len() ==> r@[i].0@ != r@[j].0@,
        forall|k: Seq<char>|
            #[trigger] task_contents(*m).dom().contains(k) ==> exists|i: int|
                0 <= i < r@.len() && r@[i].0@ == k,
{
    m.iter().map(|e| (e.key().clone(), e.value().clone())).collect()
}

/// A terminal record is purgeable once it has rested unchanged for longer
/// than the retention window.
pub open spec fn task_purgeable(t: DownloadProgress, now: u64, retention: u64) -> bool {
    is_terminal(t.status) && now - t.updated_at > retention
}

/// Keeps exactly the records the terminal-task sweep would retain.
pub open spec fn retained_tasks(
    c: Map<Seq<char>, DownloadProgress>,
    now: u64,
    retention: u64,
) -> Map<Seq<char>, DownloadProgress> {
    Map::new(|k: Seq<char>| c.dom().contains(k) && !task_purgeable(c[k], now, retention), |k| c[k])
}

fn keep_task(t: &DownloadProgress, now: u64, retention: u64) -> (r: bool)
    ensures
        r == !task_purgeable(*t, now, retention),
{
    if status_is_terminal(&t.status) {
        !(now > t.updated_at && now - t.updated_at > retention)
    } else {
        true
    }
}

/// Relies on dashmap::DashMap::retain: keeps exactly the entries the
/// predicate accepts; the predicate only calls the verified `keep_task`.
#[verifier::external_body]
fn task_retain_fresh(m: &mut TaskMap, now: u64, retention: u64)
    ensures
        task_contents(*final(m)) == retained_tasks(task_contents(*old(m)), now, retention),
{
    m.retain(|_, t| keep_task(t, now, retention));
}

/// Tracker of in-flight and recently finished retrieval tasks, keyed by
/// task id; owns the task lifecycle state machine.
pub struct DownloadManager {
    active_downloads: TaskMap,
}

impl DownloadManager {
    /// The abstract contents: task id to progress record.
    pub closed spec fn tasks(self) -> Map<Seq<char>, DownloadProgress> {
        task_contents(self.active_downloads)
    }

    /// Well-formedness: finitely many records, each keyed by its own task
    /// id and internally consistent.
    pub open spec fn wf(self) -> bool {
        &&& self.tasks().dom().finite()
        &&& forall|k: Seq<char>| #[trigger]
            self.tasks().dom().contains(k) ==> self.tasks()[k].task_id@ == k
                && self.tasks()[k].wf()
    }

    /// Creates an empty tracker.
    pub fn new() -> (r: DownloadManager)
        ensures
            r.wf(),
            r.tasks() == task_empty(),
    {
        DownloadManager { active_downloads: task_new() }
    }

    /// Creates a task record in `Pending` under the given id, replacing
    /// any record already stored there.
    pub fn create_download_task(&mut self, task_id: String, url: String, now: u64) -> (r: Result<
        (),
        AppError,
    >)
        requires
            old(self).wf(),
        ensures
            final(self).wf(),
            r is Ok,
            final(self).tasks() == old(self).tasks().insert(
                task_id@,
                spec_new_task(task_id, url, now),
            ),
    {
        let key = task_id.clone();
        let rec = new_task(task_id, url, now);
        task_insert(&mut self.active_downloads, key, rec);
        Ok(())
    }

    /// Applies one progress report to the record under `task_id`, failing
    /// with `NotFound` exactly when the id is unknown.
    pub fn update_download_progress(
        &mut self,
        task_id: &str,
        transferred: u64,
        total: u64,
        speed: u64,
        now: u64,
    ) -> (r: Result<(), AppError>)
        requires
            old(self).wf(),
        ensures
            final(self).wf(),
            r is Ok <==> old(self).tasks().dom().contains(task_id@),
            r is Ok ==> final(self).tasks() == old(self).tasks().insert(
                task_id@,
                spec_apply_progress(old(self).tasks()[task_id@], transferred, total, speed, now),
            ),
            r is Err ==> final(self).tasks() == old(self).tasks(),
            r matches Err(e) ==> e matches AppError::NotFound(m) && m@ == "Download task "@
                + task_id@ + " not found"@,
    {
        match task_get(&self.active_downloads, task_id) {
            Some(t) => {
                let updated = apply_progress(&t, transferred, total, speed, now);
                task_insert(&mut self.active_downloads, String::from_str(task_id), updated);
                Ok(())
            },
            None => {
                let mut m = String::from_str("Download task ");
                m.append(task_id);
                m.append(" not found");
                Err(AppError::NotFound(m))
            },
        }
    }

    /// Marks the record under `task_id` failed; a record already in a
    /// terminal state is left exactly as it is, and an unknown id fails
    /// with `NotFound`.
    pub fn mark_failed(&mut self, task_id: &str, reason: String, now: u64) -> (r: Result<
        (),
        AppError,
    >)
        requires
            old(self).wf(),
        ensures
            final(self).wf(),
            r is Ok <==> old(self).tasks().dom().contains(task_id@),
            r is Ok ==> final(self).tasks() == old(self).tasks().insert(
                task_id@,
                spec_mark_failed(old(self).tasks()[task_id@], reason, now),
            ),
            r is Err ==> final(self).tasks() == old(self).tasks(),
            r matches Err(e) ==> e matches AppError::NotFound(m) && m@ == "Download task "@
                + task_id@ + " not found"@,
    {
        match task_get(&self.active_downloads, task_id) {
            Some(t) => {
                let updated = mark_failed_record(&t, reason, now);
                task_insert(&mut self.active_downloads, String::from_str(task_id), updated);
                Ok(())
            },
            None => {
                let mut m = String::from_str("Download task ");
                m.append(task_id);
                m.append(" not found");
                Err(AppError::NotFound(m))
            },
        }
    }

    /// Cancels the record under `task_id`; a record already in a terminal
    /// state is left exactly as it is, and an unknown id fails with
    /// `NotFound`.
    pub fn mark_cancelled(&mut self, task_id: &str, now: u64) -> (r: Result<(), AppError>)
        requires
            old(self).wf(),
        ensures
            final(self).wf(),
            r is Ok <==> old(self).tasks().dom().contains(task_id@),
            r is Ok ==> final(self).tasks() == old(self).tasks().insert(
                task_id@,
                spec_mark_cancelled(old(self).tasks()[task_id@], now),
            ),
            r is Err ==> final(self).tasks() == old(self).tasks(),
            r matches Err(e) ==> e matches AppError::NotFound(m) && m@ == "Download task "@
                + task_id@ + " not found"@,
    {
        match task_get(&self.active_downloads, task_id) {
            Some(t) => {
                let updated = mark_cancelled_record(&t, now);
                task_insert(&mut self.active_downloads, String::from_str(task_id), updated);
                Ok(())
            },
            None => {
                let mut m = String::from_str("Download task ");
                m.append(task_id);
                m.append(" not found");
                Err(AppError::NotFound(m))
            },
        }
    }

    /// Returns a snapshot copy of the record under `task_id`, if any.
    pub fn get_download_progress(&self, task_id: &str) -> (r: Option<DownloadProgress>)
        ensures
            r == self.tasks().index_opt(task_id@),
    {
        task_get(&self.active_downloads, task_id)
    }

    /// The number of tracked tasks.
    pub fn len(&self) -> (r: usize)
        ensures
            r as nat == self.tasks().dom().len(),
    {
        task_len(&self.active_downloads)
    }

    /// Returns a point-in-time copy of every tracked record, in no
    /// specified order.
    pub fn get_all_downloads(&self) -> (r: Vec<DownloadProgress>)
        ensures
            r@.len() == self.tasks().dom().len(),
            forall|i: int| 0 <= i < r@.len() ==> is_value_of(self.tasks(), #[trigger] r@[i]),
            forall|k: Seq<char>|
                #[trigger] self.tasks().dom().contains(k) ==> exists|i: int|
                    0 <= i < r@.len() && r@[i] == self.tasks()[k],
    {
        let es = task_entries(&self.active_downloads);
        let mut out: Vec<DownloadProgress> = Vec::new();
        let mut i: usize = 0;
        while i < es.len()
            invariant
                i <= es@.len(),
                out@.len() == i,
                forall|j: int| 0 <= j < i ==> (#[trigger] out@[j]) == es@[j].1,
            decreases es@.len() - i,
        {
            let rec = es[i].1.clone_record();
            out.push(rec);
            i = i + 1;
        }
        proof {
            assert forall|i: int| 0 <= i < out@.len() implies is_value_of(
                self.tasks(),
                #[trigger] out@[i],
            ) by {
                assert(out@[i] == es@[i].1);
                assert(self.tasks().contains_pair(es@[i].0@, out@[i]));
            }
            assert forall|k: Seq<char>| #[trigger]
                self.tasks().dom().contains(k) implies exists|i: int|
                0 <= i < out@.len() && out@[i] == self.tasks()[k] by {
                let j = choose|j: int| 0 <= j < es@.len() && es@[j].0@ == k;
                assert(self.tasks().contains_pair(es@[j].0@, es@[j].1));
                assert(out@[j] == self.tasks()[k]);
            }
        }
        out
    }

    /// Removes the record under `task_id`, whether or not one exists.
    pub fn remove_download_task(&mut self, task_id: &str) -> (r: Result<(), AppError>)
        requires
            old(self).wf(),
        ensures
            final(self).wf(),
            r is Ok,
            final(self).tasks() == old(self).tasks().remove(task_id@),
    {
        task_remove(&mut self.active_downloads, task_id);
        Ok(())
    }

    /// Sweeps out every terminal record older than the retention window,
    /// returning how many were removed.
    pub fn cleanup_completed_downloads(&mut self, now: u64, retention: u64) -> (count: usize)
        requires
            old(self).wf(),
        ensures
            final(self).wf(),
            final(self).tasks() == retained_tasks(old(self).tasks(), now, retention),
            count as nat == old(self).tasks().dom().len() - final(self).tasks().dom().len(),
    {
        let before = task_len(&self.active_downloads);
        task_retain_fresh(&mut self.active_downloads, now, retention);
        let after = task_len(&self.active_downloads);
        proof {
            assert(task_contents(self.active_downloads).dom() <= old(self).tasks().dom());
            lemma_len_subset(task_contents(self.active_downloads).dom(), old(self).tasks().dom());
        }
        before - after
    }
}

/// The concrete map type behind the session registry.
pub type SessionMap = DashMap<String, StreamInfo>;

/// The abstract contents of a session map: which session record each
/// session id is bound to.
pub uninterp spec fn session_contents(m: SessionMap) -> Map<Seq<char>, StreamInfo>;

/// The empty session-registry contents.
pub open spec fn session_empty() -> Map<Seq<char>, StreamInfo> {
    Map::empty()
}

/// Relies on dashmap::DashMap::new: creates an empty map.
#[verifier::external_body]
fn session_new() -> (m: SessionMap)
    ensures
        session_contents(m) == session_empty(),
{
    DashMap::new()
}

/// Relies on dashmap::DashMap::insert: binds the key to the value,
/// replacing any previous binding.
#[verifier::external_body]
fn session_insert(m: &mut SessionMap, k: String, v: StreamInfo)
    ensures
        session_contents(*final(m)) == session_contents(*old(m)).insert(k@, v),
{
    m.insert(k, v);
}

/// Relies on dashmap::DashMap::get: returns the value bound to the key,
/// if any.
#[verifier::external_body]
fn session_get(m: &SessionMap, k: &str) -> (r: Option<StreamInfo>)
    ensures
        r == session_contents(*m).index_opt(k@),
{
    m.get(k).map(|e| e.value().clone())
}

/// Relies on dashmap::DashMap::remove: unbinds the key and returns the
/// value it was bound to, if any.
#[verifier::external_body]
fn session_remove(m: &mut SessionMap, k: &str) -> (r: Option<StreamInfo>)
    ensures
        r == session_contents(*old(m)).index_opt(k@),
        session_contents(*final(m)) == session_contents(*old(m)).remove(k@),
{
    m.remove(k).map(|(_, v)| v)
}

/// Relies on dashmap::DashMap::len: the number of bound keys.
#[verifier::external_body]
fn session_len(m: &SessionMap) -> (r: usize)
    ensures
        r as nat == session_contents(*m).dom().len(),
{
    m.len()
}

/// Relies on dashmap::DashMap::iter: yields every entry exactly once, in
/// no specified order.
#[verifier::external_body]
fn session_entries(m: &SessionMap) -> (r: Vec<(String, StreamInfo)>)
    ensures
        r@.len() == session_contents(*m).dom().len(),
        forall|i: int|
            0 <= i < r@.len() ==> session_contents(*m).contains_pair(
                (#[trigger] r@[i]).0@,
                r@[i].1,
            ),
        forall|i: int, j: int| 0 <= i < j < r@.len() ==> r@[i].0@ != r@[j].0@,
        forall|k: Seq<char>|
            #[trigger] session_contents(*m).dom().contains(k) ==> exists|i: int|
                0 <= i < r@.len() && r@[i].0@ == k,
{
    m.iter().map(|e| (e.key().clone(), e.value().clone())).collect()
}

/// A session is stale once its age at `now` exceeds the ceiling.
pub open spec fn session_stale(s: StreamInfo, now: u64, max_age: u64) -> bool {
    now - s.start_time > max_age
}

/// Keeps exactly the sessions the age-based sweep would retain.
pub open spec fn retained_sessions(c: Map<Seq<char>, StreamInfo>, now: u64, max_age: u64) -> Map<
    Seq<char>,
    StreamInfo,
> {
    Map::new(|k: Seq<char>| c.dom().contains(k) && !session_stale(c[k], now, max_age), |k| c[k])
}

fn keep_session(s: &StreamInfo, now: u64, max_age: u64) -> (r: bool)
    ensures
        r == !session_stale(*s, now, max_age),
{
    !(now > s.start_time && now - s.start_time > max_age)
}

/// Relies on dashmap::DashMap::retain: keeps exactly the entries the
/// predicate accepts; the predicate only calls the verified
/// `keep_session`.
#[verifier::external_body]
fn session_retain_fresh(m: &mut SessionMap, now: u64, max_age: u64)
    ensures
        session_contents(*final(m)) == retained_sessions(session_contents(*old(m)), now, max_age),
{
    m.retain(|_, s| keep_session(s, now, max_age));
}

/// Relies on uuid::Uuid::new_v4 and its hyphenated rendering: a fresh
/// random identifier. Nothing is assumed of the value returned.
#[verifier::external_body]
pub(crate) fn new_unique_id() -> (r: String) {
    uuid::Uuid::new_v4().to_string()
}

/// Registry of active delivery sessions, keyed by session id.
pub struct FileStreamManager {
    active_streams: SessionMap,
}

impl FileStreamManager {
    /// The abstract contents: session id to session record.
    pub closed spec fn sessions(self) -> Map<Seq<char>, StreamInfo> {
        session_contents(self.active_streams)
    }

    /// Well-formedness: finitely many sessions, each keyed by its own id.
    pub open spec fn wf(self) -> bool {
        &&& self.sessions().dom().finite()
        &&& forall|k: Seq<char>| #[trigger]
            self.sessions().dom().contains(k) ==> self.sessions()[k].session_id@ == k
    }

    /// Creates an empty registry.
    pub fn new() -> (r: FileStreamManager)
        ensures
            r.wf(),
            r.sessions() == session_empty(),
    {
        FileStreamManager { active_streams: session_new() }
    }

    /// Opens a delivery session for the given object under a freshly
    /// generated session id and returns a copy of the stored record;
    /// opening always succeeds.
    pub fn create_stream_session(
        &mut self,
        file_hash: &str,
        file_info: FileInfo,
        client_ip: String,
        now: u64,
    ) -> (r: StreamInfo)
        requires
            old(self).wf(),
        ensures
            final(self).wf(),
            r.file_hash@ == file_hash@,
            r.file_name == file_info.file_name,
            r.file_size == file_info.file_size,
            r.start_time == now,
            r.client_ip == client_ip,
            final(self).sessions() == old(self).sessions().insert(r.session_id@, r),
    {
        let session_id = new_unique_id();
        let session = StreamInfo {
            session_id: session_id,
            file_hash: String::from_str(file_hash),
            file_name: file_info.file_name,
            file_size: file_info.file_size,
            start_time: now,
            client_ip: client_ip,
        };
        let copy = session.clone_record();
        let key = session.session_id.clone();
        session_insert(&mut self.active_streams, key, session);
        copy
    }

    /// Inserts an already-built session record under its own id,
    /// replacing any record stored there.
    pub fn insert_session(&mut self, session_info: StreamInfo)
        requires
            old(self).wf(),
        ensures
            final(self).wf(),
            final(self).sessions() == old(self).sessions().insert(
                session_info.session_id@,
                session_info,
            ),
    {
        let key = session_info.session_id.clone();
        session_insert(&mut self.active_streams, key, session_info);
    }

    /// Closes a session and returns its record; closing an unknown or
    /// already-closed session is a no-op, not an error.
    pub fn end_stream_session(&mut self, session_id: &str) -> (r: Option<StreamInfo>)
        requires
            old(self).wf(),
        ensures
            final(self).wf(),
            final(self).sessions() == old(self).sessions().remove(session_id@),
            r == old(self).sessions().index_opt(session_id@),
    {
        session_remove(&mut self.active_streams, session_id)
    }

    /// Returns a snapshot copy of the session under `session_id`, if any.
    pub fn get_session(&self, session_id: &str) -> (r: Option<StreamInfo>)
        ensures
            r == self.sessions().index_opt(session_id@),
    {
        session_get(&self.active_streams, session_id)
    }

    /// The number of active sessions.
    pub fn len(&self) -> (r: usize)
        ensures
            r as nat == self.sessions().dom().len(),
    {
        session_len(&self.active_streams)
    }

    /// Returns a point-in-time copy of every active session, in no
    /// specified order.
    pub fn get_active_streams(&self) -> (r: Vec<StreamInfo>)
        ensures
            r@.len() == self.sessions().dom().len(),
            forall|i: int| 0 <= i < r@.len() ==> is_value_of(self.sessions(), #[trigger] r@[i]),
            forall|k: Seq<char>|
                #[trigger] self.sessions().dom().contains(k) ==> exists|i: int|
                    0 <= i < r@.len() && r@[i] == self.sessions()[k],
    {
        let es = session_entries(&self.active_streams);
        let mut out: Vec<StreamInfo> = Vec::new();
        let mut i: usize = 0;
        while i < es.len()
            invariant
                i <= es@.len(),
                out@.len() == i,
                forall|j: int| 0 <= j < i ==> (#[trigger] out@[j]) == es@[j].1,
            decreases es@.len() - i,
        {
            let rec = es[i].1.clone_record();
            out.push(rec);
            i = i + 1;
        }
        proof {
            assert forall|i: int| 0 <= i < out@.len() implies is_value_of(
                self.sessions(),
                #[trigger] out@[i],
            ) by {
                assert(out@[i] == es@[i].1);
                assert(self.sessions().contains_pair(es@[i].0@, out@[i]));
            }
            assert forall|k: Seq<char>| #[trigger]
                self.sessions().dom().contains(k) implies exists|i: int|
                0 <= i < out@.len() && out@[i] == self.sessions()[k] by {
                let j = choose|j: int| 0 <= j < es@.len() && es@[j].0@ == k;
                assert(self.sessions().contains_pair(es@[j].0@, es@[j].1));
                assert(out@[j] == self.sessions()[k]);
            }
        }
        out
    }

    /// Sweeps out every session older than `max_age` at `now`, returning
    /// how many were removed.
    pub fn cleanup_expired_streams(&mut self, now: u64, max_age: u64) -> (count: usize)
        requires
            old(self).wf(),
        ensures
            final(self).wf(),
            final(self).sessions() == retained_sessions(old(self).sessions(), now, max_age),
            count as nat == old(self).sessions().dom().len() - final(self).sessions().dom().len(),
    {
        let before = session_len(&self.active_streams);
        session_retain_fresh(&mut self.active_streams, now, max_age);
        let after = session_len(&self.active_streams);
        proof {
            assert(session_contents(self.active_streams).dom() <= old(self).sessions().dom());
            lemma_len_subset(
                session_contents(self.active_streams).dom(),
                old(self).sessions().dom(),
            );
        }
        before - after
    }
}

/// The index of a minimal entry under the eviction order.
fn oldest_index(es: &Vec<(String, CacheEntry)>) -> (mi: usize)
    requires
        es@.len() > 0,
    ensures
        mi < es@.len(),
        forall|j: int| 0 <= j < es@.len() ==> entry_le(es@[mi as int].1, (#[trigger] es@[j]).1),
{
    let mut mi: usize = 0;
    let mut i: usize = 1;
    while i < es.len()
        invariant
            mi < i <= es@.len(),
            forall|j: int| 0 <= j < i ==> entry_le(es@[mi as int].1, (#[trigger] es@[j]).1),
        decreases es@.len() - i,
    {
        if entry_before(&es[i].1, &es[mi].1) {
            mi = i;
        }
        i = i + 1;
    }
    mi
}

} // verus!
