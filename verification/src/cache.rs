//! The content-addressed cache.
//!
//! A cache key is the lower-case hex MD5 digest of the full request URL.
//! The in-memory tier is a verified key-to-entry map with lazy TTL expiry:
//! an expired entry is left in place but never served. The filesystem tier
//! performs file I/O and so lives with the embedding program; the rules it
//! must follow — the file name of a key ([`fs_cache_file_name`]), the
//! freshness test ([`entry_is_fresh`]) and the substring pattern rule of a
//! selective clear ([`crate::text::str_contains`]) — are verified here and
//! shared by both tiers.

use vstd::prelude::*;
use vstd::string::StringExecFns;
use crate::config::CacheMode;
use crate::frame::clone_df;
use crate::text::{contains_seq, str_contains, str_eq};
use polars::prelude::DataFrame;

verus! {

/// What `md5::compute` returns on a URL: a function of the URL alone.
pub uninterp spec fn md5_of(s: Seq<char>) -> Seq<u8>;

/// Relies on `md5::compute`: the 16-byte MD5 digest of the input bytes,
/// a pure function of the input.
#[verifier::external_body]
fn md5_digest(s: &str) -> (r: Vec<u8>)
    ensures
        r@ == md5_of(s@),
        r@.len() == 16,
{
    md5::compute(s.as_bytes()).0.to_vec()
}

/// The sixteen lower-case hex digits.
pub open spec fn hex_char(v: int) -> char {
    if v == 0 {
        '0'
    } else if v == 1 {
        '1'
    } else if v == 2 {
        '2'
    } else if v == 3 {
        '3'
    } else if v == 4 {
        '4'
    } else if v == 5 {
        '5'
    } else if v == 6 {
        '6'
    } else if v == 7 {
        '7'
    } else if v == 8 {
        '8'
    } else if v == 9 {
        '9'
    } else if v == 10 {
        'a'
    } else if v == 11 {
        'b'
    } else if v == 12 {
        'c'
    } else if v == 13 {
        'd'
    } else if v == 14 {
        'e'
    } else {
        'f'
    }
}

/// Lower-case hex encoding: two digits per byte, high nibble first.
pub open spec fn hex_of(data: Seq<u8>) -> Seq<char>
    decreases data.len(),
{
    if data.len() == 0 {
        Seq::empty()
    } else {
        hex_of(data.drop_last()) + seq![
            hex_char(data.last() as int / 16),
            hex_char(data.last() as int % 16),
        ]
    }
}

fn hex_digit(v: u8) -> (c: &'static str)
    requires
        v < 16,
    ensures
        c@.len() == 1,
        c@[0] == hex_char(v as int),
{
    proof {
        reveal_strlit("0");
        reveal_strlit("1");
        reveal_strlit("2");
        reveal_strlit("3");
        reveal_strlit("4");
        reveal_strlit("5");
        reveal_strlit("6");
        reveal_strlit("7");
        reveal_strlit("8");
        reveal_strlit("9");
        reveal_strlit("a");
        reveal_strlit("b");
        reveal_strlit("c");
        reveal_strlit("d");
        reveal_strlit("e");
        reveal_strlit("f");
    }
    if v == 0 {
        "0"
    } else if v == 1 {
        "1"
    } else if v == 2 {
        "2"
    } else if v == 3 {
        "3"
    } else if v == 4 {
        "4"
    } else if v == 5 {
        "5"
    } else if v == 6 {
        "6"
    } else if v == 7 {
        "7"
    } else if v == 8 {
        "8"
    } else if v == 9 {
        "9"
    } else if v == 10 {
        "a"
    } else if v == 11 {
        "b"
    } else if v == 12 {
        "c"
    } else if v == 13 {
        "d"
    } else if v == 14 {
        "e"
    } else {
        "f"
    }
}

fn to_hex(data: &Vec<u8>) -> (s: String)
    ensures
        s@ == hex_of(data@),
{
    let mut s = String::new();
    let n = data.len();
    let mut i: usize = 0;
    while i < n
        invariant
            i <= n,
            n == data@.len(),
            s@ == hex_of(data@.take(i as int)),
        decreases n - i,
    {
        let b = data[i];
        s.append(hex_digit(b / 16));
        s.append(hex_digit(b % 16));
        proof {
            assert(data@.take(i + 1).drop_last() =~= data@.take(i as int));
            assert(data@.take(i + 1).last() == data@[i as int]);
            assert(s@ =~= hex_of(data@.take(i + 1)));
        }
        i += 1;
    }
    proof {
        assert(data@.take(n as int) =~= data@);
    }
    s
}

/// The key a URL is cached under.
pub open spec fn spec_cache_key(url: Seq<char>) -> Seq<char> {
    hex_of(md5_of(url))
}

/// Derive the cache key of a URL: the lower-case hex MD5 digest of the URL.
pub fn make_cache_key(url: &str) -> (key: String)
    ensures
        key@ == spec_cache_key(url@),
{
    let digest = md5_digest(url);
    to_hex(&digest)
}

/// Law: the cache key is a pure function of the URL, so equal URLs always
/// give equal keys. (That distinct URLs give distinct keys is assumed of the
/// digest, not proven.)
pub proof fn lemma_cache_key_deterministic(u1: Seq<char>, u2: Seq<char>)
    requires
        u1 == u2,
    ensures
        spec_cache_key(u1) == spec_cache_key(u2),
{
}

/// An entry written at `timestamp` is fresh at `now` iff fewer than
/// `duration` seconds have elapsed since it was written.
pub open spec fn is_fresh(now: u64, timestamp: u64, duration: u64) -> bool {
    now - timestamp < duration
}

/// The freshness rule of both tiers; for the filesystem tier, `timestamp`
/// is the cache file's modification time.
pub fn entry_is_fresh(now: u64, timestamp: u64, duration: u64) -> (b: bool)
    ensures
        b == is_fresh(now, timestamp, duration),
{
    if now >= timestamp {
        now - timestamp < duration
    } else {
        true
    }
}

/// The file a key maps to inside the cache directory, on the filesystem tier.
pub fn fs_cache_file_name(key: &str) -> (name: String)
    ensures
        name@ == key@ + ".parquet"@,
{
    let mut name = String::from_str(key);
    name.append(".parquet");
    name
}

/// One cached table and the time it was stored.
pub struct CacheEntry {
    pub table: DataFrame,
    pub timestamp: u64,
}

/// The in-memory tier: a key-to-entry map held as an association list with
/// pairwise-distinct keys.
pub struct MemoryCache {
    entries: Vec<(String, CacheEntry)>,
}

pub open spec fn keys_distinct(s: Seq<(String, CacheEntry)>) -> bool {
    forall|i: int, j: int| 0 <= i < j < s.len() ==> s[i].0@ != s[j].0@
}

/// The map an association list denotes; a later entry would override an
/// earlier one.
pub open spec fn map_of(s: Seq<(String, CacheEntry)>) -> Map<Seq<char>, CacheEntry>
    decreases s.len(),
{
    if s.len() == 0 {
        Map::empty()
    } else {
        map_of(s.drop_last()).insert(s.last().0@, s.last().1)
    }
}

proof fn lemma_map_of_contains(s: Seq<(String, CacheEntry)>, k: Seq<char>)
    ensures
        map_of(s).contains_key(k) <==> exists|i: int| 0 <= i < s.len() && s[i].0@ == k,
    decreases s.len(),
{
    if s.len() > 0 {
        lemma_map_of_contains(s.drop_last(), k);
        if s.last().0@ == k {
            assert(s[s.len() - 1].0@ == k);
        } else if map_of(s).contains_key(k) {
            let i = choose|i: int| 0 <= i < s.drop_last().len() && s.drop_last()[i].0@ == k;
            assert(s[i].0@ == k);
        } else if exists|i: int| 0 <= i < s.len() && s[i].0@ == k {
            let i = choose|i: int| 0 <= i < s.len() && s[i].0@ == k;
            assert(s.drop_last()[i].0@ == k);
        }
    }
}

proof fn lemma_map_of_get(s: Seq<(String, CacheEntry)>, i: int)
    requires
        keys_distinct(s),
        0 <= i < s.len(),
    ensures
        map_of(s).contains_key(s[i].0@),
        map_of(s)[s[i].0@] == s[i].1,
    decreases s.len(),
{
    if i < s.len() - 1 {
        assert(keys_distinct(s.drop_last()));
        assert(s.drop_last()[i] == s[i]);
        lemma_map_of_get(s.drop_last(), i);
        assert(s[i].0@ != s.last().0@);
    }
}

proof fn lemma_map_of_remove(s: Seq<(String, CacheEntry)>, i: int)
    requires
        keys_distinct(s),
        0 <= i < s.len(),
    ensures
        keys_distinct(s.remove(i)),
        map_of(s.remove(i)) == map_of(s).remove(s[i].0@),
        forall|j: int| 0 <= j < s.remove(i).len() ==> s.remove(i)[j].0@ != s[i].0@,
    decreases s.len(),
{
    let k = s[i].0@;
    if i == s.len() - 1 {
        assert(s.remove(i) =~= s.drop_last());
        lemma_map_of_contains(s.drop_last(), k);
        assert(!map_of(s.drop_last()).contains_key(k));
        assert(map_of(s.drop_last()) =~= map_of(s).remove(k));
    } else {
        assert(keys_distinct(s.drop_last()));
        assert(s.drop_last()[i] == s[i]);
        lemma_map_of_remove(s.drop_last(), i);
        assert(s.remove(i).drop_last() =~= s.drop_last().remove(i));
        assert(s.remove(i).last() == s.last());
        assert(s.last().0@ != k);
        assert(map_of(s.remove(i)) == map_of(s.drop_last().remove(i)).insert(
            s.last().0@,
            s.last().1,
        ));
        assert(map_of(s.remove(i)) =~= map_of(s).remove(k));
    }
}

impl View for MemoryCache {
    type V = Map<Seq<char>, CacheEntry>;

    closed spec fn view(&self) -> Map<Seq<char>, CacheEntry> {
        map_of(self.entries@)
    }
}

/// The lookup rule of the in-memory tier: the stored table, only while fresh.
pub open spec fn spec_lookup(
    m: Map<Seq<char>, CacheEntry>,
    k: Seq<char>,
    now: u64,
    duration: u64,
) -> Option<DataFrame> {
    if m.contains_key(k) && is_fresh(now, m[k].timestamp, duration) {
        Some(m[k].table)
    } else {
        None
    }
}

impl MemoryCache {
    /// Keys are pairwise distinct.
    pub closed spec fn wf(self) -> bool {
        keys_distinct(self.entries@)
    }

    pub fn new() -> (c: MemoryCache)
        ensures
            c.wf(),
            c@ == Map::<Seq<char>, CacheEntry>::empty(),
    {
        MemoryCache { entries: Vec::new() }
    }

    fn find(&self, key: &str) -> (r: Option<usize>)
        ensures
            match r {
                Some(i) => i < self.entries@.len() && self.entries@[i as int].0@ == key@,
                None => forall|i: int|
                    0 <= i < self.entries@.len() ==> self.entries@[i].0@ != key@,
            },
    {
        let n = self.entries.len();
        let mut i: usize = 0;
        while i < n
            invariant
                i <= n,
                n == self.entries@.len(),
                forall|j: int| 0 <= j < i ==> self.entries@[j].0@ != key@,
            decreases n - i,
        {
            if str_eq(self.entries[i].0.as_str(), key) {
                return Some(i);
            }
            i += 1;
        }
        None
    }

    /// Return the stored table if the key is present and fresh. An expired
    /// entry is left in place — lazy expiry — but never served.
    pub fn get(&self, key: &str, now: u64, duration: u64) -> (r: Option<DataFrame>)
        requires
            self.wf(),
        ensures
            r == spec_lookup(self@, key@, now, duration),
    {
        match self.find(key) {
            Some(i) => {
                proof {
                    lemma_map_of_get(self.entries@, i as int);
                }
                let entry = &self.entries[i].1;
                if entry_is_fresh(now, entry.timestamp, duration) {
                    Some(clone_df(&entry.table))
                } else {
                    None
                }
            },
            None => {
                proof {
                    lemma_map_of_contains(self.entries@, key@);
                }
                None
            },
        }
    }

    /// Store a table under a key, overwriting any prior entry.
    pub fn set(&mut self, key: &str, table: DataFrame, now: u64)
        requires
            old(self).wf(),
        ensures
            final(self).wf(),
            final(self)@ == old(self)@.insert(key@, (CacheEntry { table, timestamp: now })),
    {
        match self.find(key) {
            Some(i) => {
                proof {
                    lemma_map_of_remove(self.entries@, i as int);
                }
                self.entries.remove(i);
            },
            None => {
                proof {
                    lemma_map_of_contains(self.entries@, key@);
                    assert(map_of(self.entries@) =~= map_of(self.entries@).remove(key@));
                }
            },
        }
        let ghost pre = self.entries@;
        self.entries.push((String::from_str(key), CacheEntry { table, timestamp: now }));
        proof {
            assert(self.entries@.drop_last() =~= pre);
            assert(map_of(self.entries@) == map_of(pre).insert(key@, (CacheEntry {
                table,
                timestamp: now,
            })));
            assert(map_of(self.entries@) =~= old(self)@.insert(key@, (CacheEntry {
                table,
                timestamp: now,
            })));
        }
    }

    fn find_matching(&self, pattern: &str) -> (r: Option<usize>)
        ensures
            match r {
                Some(i) => i < self.entries@.len() && contains_seq(
                    self.entries@[i as int].0@,
                    pattern@,
                ),
                None => forall|i: int|
                    0 <= i < self.entries@.len() ==> !contains_seq(
                        self.entries@[i].0@,
                        pattern@,
                    ),
            },
    {
        let n = self.entries.len();
        let mut i: usize = 0;
        while i < n
            invariant
                i <= n,
                n == self.entries@.len(),
                forall|j: int| 0 <= j < i ==> !contains_seq(self.entries@[j].0@, pattern@),
            decreases n - i,
        {
            if str_contains(self.entries[i].0.as_str(), pattern) {
                return Some(i);
            }
            i += 1;
        }
        None
    }

    /// Remove every entry (no pattern), or exactly those entries whose key
    /// contains the pattern as a substring.
    #[verifier::loop_isolation(false)]
    pub fn clear(&mut self, pattern: Option<&str>)
        requires
            old(self).wf(),
        ensures
            final(self).wf(),
            match pattern {
                None => final(self)@ == Map::<Seq<char>, CacheEntry>::empty(),
                Some(p) => final(self)@ == old(self)@.remove_keys(
                    Set::new(|k: Seq<char>| contains_seq(k, p@)),
                ),
            },
    {
        match pattern {
            None => {
                self.entries.clear();
            },
            Some(p) => {
                let ghost matchset = Set::new(|k: Seq<char>| contains_seq(k, p@));
                let ghost mut removed: Set<Seq<char>> = Set::empty();
                proof {
                    assert(old(self)@.remove_keys(removed) =~= map_of(self.entries@));
                }
                let mut done = false;
                while !done
                    invariant
                        keys_distinct(self.entries@),
                        removed.subset_of(matchset),
                        matchset == Set::new(|k: Seq<char>| contains_seq(k, p@)),
                        map_of(self.entries@) == old(self)@.remove_keys(removed),
                        done ==> forall|i: int|
                            0 <= i < self.entries@.len() ==> !contains_seq(
                                self.entries@[i].0@,
                                p@,
                            ),
                    decreases self.entries@.len(), (if done {
                        0int
                    } else {
                        1int
                    }),
                {
                    match self.find_matching(p) {
                        Some(i) => {
                            let ghost prev = self.entries@;
                            let ghost ki = self.entries@[i as int].0@;
                            proof {
                                lemma_map_of_remove(self.entries@, i as int);
                            }
                            self.entries.remove(i);
                            proof {
                                assert(contains_seq(ki, p@));
                                removed = removed.insert(ki);
                                assert(map_of(self.entries@) =~= old(self)@.remove_keys(removed));
                            }
                        },
                        None => {
                            done = true;
                        },
                    }
                }
                proof {
                    assert forall|k: Seq<char>|
                        map_of(self.entries@).contains_key(k) implies !contains_seq(k, p@) by {
                        lemma_map_of_contains(self.entries@, k);
                    }
                    assert forall|k: Seq<char>|
                        old(self)@.contains_key(k) && !contains_seq(k, p@) implies map_of(
                        self.entries@,
                    ).contains_key(k) by {
                        assert(!removed.contains(k));
                    }
                    assert(map_of(self.entries@) =~= old(self)@.remove_keys(matchset));
                }
            },
        }
    }
}

/// A cache handle: the selected tier, the TTL, and the in-memory map.
///
/// The `Off` tier never hits and never stores. The `Filesystem` tier keeps no
/// in-process entries: its directory of files belongs to the embedding
/// program, which applies [`entry_is_fresh`] to file ages,
/// [`fs_cache_file_name`] to names, and the substring rule to selective
/// clears.
pub struct Cache {
    pub mode: CacheMode,
    /// TTL in seconds.
    pub duration: u64,
    pub mem: MemoryCache,
}

impl Cache {
    pub open spec fn wf(self) -> bool {
        self.mem.wf()
    }

    pub fn new(mode: CacheMode, duration: u64) -> (c: Cache)
        ensures
            c.wf(),
            c.mode == mode,
            c.duration == duration,
            c.mem@ == Map::<Seq<char>, CacheEntry>::empty(),
    {
        Cache { mode, duration, mem: MemoryCache::new() }
    }
}

/// What a lookup answers: the fresh stored table on the memory tier, absent
/// on the others (the filesystem tier is looked up by the directory's owner).
pub open spec fn spec_cache_get(c: Cache, k: Seq<char>, now: u64) -> Option<DataFrame> {
    if c.mode == CacheMode::Memory {
        spec_lookup(c.mem@, k, now, c.duration)
    } else {
        None
    }
}

/// Tier-dispatching lookup.
pub fn cache_get(cache: &Cache, key: &str, now: u64) -> (r: Option<DataFrame>)
    requires
        cache.wf(),
    ensures
        r == spec_cache_get(*cache, key@, now),
{
    match cache.mode {
        CacheMode::Memory => cache.mem.get(key, now, cache.duration),
        _ => None,
    }
}

/// Tier-dispatching store: a no-op on `Off`; the memory tier records the
/// table with the given timestamp; the filesystem tier's file write is the
/// directory owner's.
pub fn cache_set(cache: &mut Cache, key: &str, table: DataFrame, now: u64)
    requires
        old(cache).wf(),
    ensures
        final(cache).wf(),
        final(cache).mode == old(cache).mode,
        final(cache).duration == old(cache).duration,
        final(cache).mem@ == (if old(cache).mode == CacheMode::Memory {
            old(cache).mem@.insert(key@, (CacheEntry { table, timestamp: now }))
        } else {
            old(cache).mem@
        }),
{
    if matches!(cache.mode, CacheMode::Memory) {
        cache.mem.set(key, table, now);
    }
}

/// Clear the in-memory map: everything, or only keys containing the pattern.
/// (The filesystem tier's directory is cleared by its owner under the same
/// substring rule.)
pub fn clear_cache(cache: &mut Cache, pattern: Option<&str>)
    requires
        old(cache).wf(),
    ensures
        final(cache).wf(),
        final(cache).mode == old(cache).mode,
        final(cache).duration == old(cache).duration,
        match pattern {
            None => final(cache).mem@ == Map::<Seq<char>, CacheEntry>::empty(),
            Some(p) => final(cache).mem@ == old(cache).mem@.remove_keys(
                Set::new(|k: Seq<char>| contains_seq(k, p@)),
            ),
        },
{
    cache.mem.clear(pattern);
}

/// Law: a store followed immediately by a lookup of the same key returns the
/// table just stored, for any positive TTL.
pub proof fn lemma_cache_round_trip(
    m: Map<Seq<char>, CacheEntry>,
    k: Seq<char>,
    table: DataFrame,
    now: u64,
    duration: u64,
)
    requires
        duration > 0,
    ensures
        spec_lookup(m.insert(k, (CacheEntry { table, timestamp: now })), k, now, duration)
            == Some(table),
{
}

/// Law: once the TTL has elapsed, a stored entry is no longer served, even
/// though it was never explicitly cleared.
pub proof fn lemma_ttl_expiry(
    m: Map<Seq<char>, CacheEntry>,
    k: Seq<char>,
    table: DataFrame,
    now: u64,
    later: u64,
    duration: u64,
)
    requires
        later >= now + duration,
    ensures
        spec_lookup(m.insert(k, (CacheEntry { table, timestamp: now })), k, later, duration)
            is None,
{
}

/// Law: while the TTL has not elapsed, a stored entry is served unchanged —
/// a repeated fetch of the same URL within the TTL needs no second download.
pub proof fn lemma_refetch_within_ttl(
    m: Map<Seq<char>, CacheEntry>,
    k: Seq<char>,
    table: DataFrame,
    now: u64,
    later: u64,
    duration: u64,
)
    requires
        later - now < duration,
    ensures
        spec_lookup(m.insert(k, (CacheEntry { table, timestamp: now })), k, later, duration)
            == Some(table),
{
}

/// Law: after a full clear, every lookup answers absent.
pub proof fn lemma_clear_all_absent(k: Seq<char>, now: u64, duration: u64)
    ensures
        spec_lookup(Map::empty(), k, now, duration) is None,
{
}

/// Law: a selective clear removes exactly the keys containing the pattern: a
/// key containing it is gone, and any other key keeps its entry.
pub proof fn lemma_clear_pattern(m: Map<Seq<char>, CacheEntry>, p: Seq<char>, k: Seq<char>)
    ensures
        contains_seq(k, p) ==> !m.remove_keys(
            Set::new(|x: Seq<char>| contains_seq(x, p)),
        ).contains_key(k),
        !contains_seq(k, p) ==> (m.remove_keys(
            Set::new(|x: Seq<char>| contains_seq(x, p)),
        ).contains_key(k) <==> m.contains_key(k)),
        !contains_seq(k, p) && m.contains_key(k) ==> m.remove_keys(
            Set::new(|x: Seq<char>| contains_seq(x, p)),
        )[k] == m[k],
{
}

} // verus!
