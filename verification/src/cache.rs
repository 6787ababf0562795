//! The cache model: TTL-keyed snapshots of prior results, looked up by the
//! hash of the query text. Expiry is a pure function of the wall-clock
//! time at lookup; there is no background sweep. The execution path does
//! not consult this component; it models the data and its laws.

use crate::clock::now_millis;
use crate::envelope::QueryResult;
use vstd::prelude::*;

verus! {

/// `x` clamped into the signed 64-bit range.
pub open spec fn sat_i64(x: int) -> int {
    if x > i64::MAX {
        i64::MAX as int
    } else if x < i64::MIN {
        i64::MIN as int
    } else {
        x
    }
}

/// When an entry created at `created` (milliseconds) with `ttl` seconds
/// to live expires, saturating at the ends of the representable range.
pub open spec fn expiry_model(created: int, ttl: int) -> int {
    sat_i64(created + sat_i64(ttl * 1000))
}

/// A cached snapshot of one executed query.
#[derive(Debug, Clone, PartialEq, Eq)]
pub struct QueryCache {
    pub id: String,
    pub query_hash: String,
    pub query_sql: String,
    pub result_data: QueryResult,
    pub data_source_id: Option<String>,
    pub created_at: i64,
    pub expires_at: i64,
}

/// Relies on `uuid::Uuid::new_v4` and its `Display` rendering: a random
/// identifier in the hyphenated form, which is always 36 characters.
#[verifier::external_body]
fn fresh_entry_id() -> (r: String)
    ensures
        r@.len() == 36,
{
    uuid::Uuid::new_v4().to_string()
}

impl QueryCache {
    /// Create an entry for a query's result, stamped with the current
    /// clock reading and expiring `ttl_seconds` later (saturating at the
    /// ends of the representable range).
    pub fn new(
        query_hash: String,
        query_sql: String,
        result_data: QueryResult,
        data_source_id: Option<String>,
        ttl_seconds: i64,
    ) -> (r: Self)
        ensures
            r.query_hash == query_hash,
            r.query_sql == query_sql,
            r.result_data == result_data,
            r.data_source_id == data_source_id,
            r.expires_at == expiry_model(r.created_at as int, ttl_seconds as int),
            r.id@.len() == 36,
    {
        let now = now_millis();
        let ttl_ms: i64 = if ttl_seconds >= 0 {
            if ttl_seconds <= i64::MAX / 1000 {
                ttl_seconds * 1000
            } else {
                i64::MAX
            }
        } else {
            if ttl_seconds >= i64::MIN / 1000 {
                ttl_seconds * 1000
            } else {
                i64::MIN
            }
        };
        let expires_at: i64 = if ttl_ms >= 0 {
            if now <= i64::MAX - ttl_ms {
                now + ttl_ms
            } else {
                i64::MAX
            }
        } else {
            if now >= i64::MIN - ttl_ms {
                now + ttl_ms
            } else {
                i64::MIN
            }
        };
        QueryCache {
            id: fresh_entry_id(),
            query_hash,
            query_sql,
            result_data,
            data_source_id,
            created_at: now,
            expires_at,
        }
    }

    /// Whether the entry is stale at the instant `now`: strictly after its
    /// expiry time.
    pub open spec fn expired_at(&self, now: int) -> bool {
        now > self.expires_at
    }

    /// Whether the entry is stale at the instant `now`.
    pub fn is_expired_at(&self, now: i64) -> (r: bool)
        ensures
            r == self.expired_at(now as int),
    {
        now > self.expires_at
    }

    /// Whether the entry is stale right now, by the wall clock.
    pub fn is_expired(&self) -> bool {
        let now = now_millis();
        self.is_expired_at(now)
    }
}

/// Law: an entry whose expiry was computed from a non-negative TTL is not
/// expired at its creation instant, and is expired at any instant more
/// than the TTL past its creation, as long as the expiry time did not
/// saturate the representable range.
pub proof fn lemma_cache_expiry(e: QueryCache, ttl_seconds: i64, now: i64)
    requires
        e.expires_at == expiry_model(e.created_at as int, ttl_seconds as int),
        0 <= ttl_seconds,
        e.created_at + ttl_seconds * 1000 <= i64::MAX,
    ensures
        !e.expired_at(e.created_at as int),
        now > e.created_at + ttl_seconds * 1000 ==> e.expired_at(now as int),
{
}

/// An in-memory store of cache entries: newest first, looked up by query
/// hash, with expiry checked lazily at lookup and no eviction pass.
#[derive(Debug, Clone, PartialEq, Eq)]
pub struct QueryCacheStore {
    pub entries: Vec<QueryCache>,
}

/// The first entry in `s` that carries `hash` and is not expired at `now`.
pub open spec fn find_live(s: Seq<QueryCache>, hash: Seq<char>, now: int) -> Option<QueryCache>
    decreases s.len(),
{
    if s.len() == 0 {
        None
    } else if s[0].query_hash@ == hash && !s[0].expired_at(now) {
        Some(s[0])
    } else {
        find_live(s.drop_first(), hash, now)
    }
}

impl QueryCacheStore {
    /// An empty store.
    pub fn new() -> (r: Self)
        ensures
            r.entries@.len() == 0,
    {
        QueryCacheStore { entries: Vec::new() }
    }

    /// Record an entry: it goes in front, shadowing any older entry with
    /// the same hash; older entries are never mutated.
    pub fn store(&mut self, entry: QueryCache)
        ensures
            final(self).entries@ == seq![entry] + old(self).entries@,
    {
        self.entries.insert(0, entry);
    }

    /// Look up the freshest entry for `hash` that is still live at `now`;
    /// expired entries are passed over and an exhausted scan yields `None`.
    pub fn lookup_at(&self, hash: &str, now: i64) -> (r: Option<&QueryCache>)
        ensures
            match r {
                Some(e) => find_live(self.entries@, hash@, now as int) == Some(*e),
                None => find_live(self.entries@, hash@, now as int) is None,
            },
    {
        let mut i: usize = 0;
        proof {
            assert(self.entries@.skip(0) =~= self.entries@);
        }
        while i < self.entries.len()
            invariant
                i <= self.entries@.len(),
                find_live(self.entries@, hash@, now as int) == find_live(
                    self.entries@.skip(i as int),
                    hash@,
                    now as int,
                ),
            decreases self.entries@.len() - i,
        {
            let e = &self.entries[i];
            proof {
                assert(self.entries@.skip(i as int)[0] == self.entries@[i as int]);
                assert(self.entries@.skip(i as int).drop_first() =~= self.entries@.skip(
                    i as int + 1,
                ));
            }
            if crate::text::str_eq(e.query_hash.as_str(), hash) && !e.is_expired_at(now) {
                return Some(e);
            }
            i += 1;
        }
        proof {
            assert(self.entries@.skip(i as int) =~= Seq::empty());
        }
        None
    }

    /// Look up by the wall clock.
    pub fn lookup(&self, hash: &str) -> Option<&QueryCache> {
        let now = now_millis();
        self.lookup_at(hash, now)
    }
}

/// Law: immediately after an entry is stored, looking its hash up at any
/// instant at which it is not expired yields exactly that entry.
pub proof fn lemma_store_then_lookup(s: Seq<QueryCache>, entry: QueryCache, now: int)
    requires
        !entry.expired_at(now),
    ensures
        find_live(seq![entry] + s, entry.query_hash@, now) == Some(entry),
{
    let combined = seq![entry] + s;
    assert(combined[0] == entry);
}

} // verus!
