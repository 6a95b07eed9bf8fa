//! Content-addressed response cache with a time to live per entry.

use vstd::prelude::*;
use vstd::string::*;
use vstd::utf8::*;
use crate::codec::{hex_encode, hex_lower, sha256, sha256_of};
use crate::text::text_eq;

verus! {

/// The bytes that a cache key is the digest of: the namespace, a colon, the
/// normalised request.
pub open spec fn key_material(namespace: Seq<char>, payload: Seq<char>) -> Seq<u8> {
    encode_utf8(namespace) + seq![0x3au8] + encode_utf8(payload)
}

/// The cache key of a request: the SHA-256 digest of its key material in
/// lower-case hexadecimal.
pub open spec fn cache_key_of(namespace: Seq<char>, payload: Seq<char>) -> Seq<char> {
    hex_lower(sha256_of(key_material(namespace, payload)))
}

/// The cache key of `body` under the namespace `endpoint`.
pub fn cache_key(endpoint: &str, body: &str) -> (key: String)
    ensures
        key@ == cache_key_of(endpoint@, body@),
        key@.len() == 64,
{
    let mut material: Vec<u8> = Vec::new();
    material.extend_from_slice(endpoint.as_bytes());
    material.push(0x3au8);
    material.extend_from_slice(body.as_bytes());
    assert(material@ =~= key_material(endpoint@, body@));
    let digest = sha256(material.as_slice());
    hex_encode(digest.as_slice())
}

/// One row of the cache table.
#[derive(Debug, Clone, PartialEq, Eq)]
pub struct CacheEntry {
    pub key: String,
    pub namespace: String,
    pub value: String,
    pub expires_at: u64,
}

/// What the store holds under a key.
pub ghost struct Stored {
    pub namespace: Seq<char>,
    pub value: Seq<char>,
    pub expires_at: u64,
}

/// A key-value store in which every entry carries the second at which it
/// expires. An expired entry is not removed; it is passed over by `get` and
/// replaced by the next `set` for its key.
#[derive(Debug)]
pub struct CacheStore {
    entries: Vec<CacheEntry>,
}

/// What the first row for `key` holds, if there is one.
pub open spec fn stored_in(entries: Seq<CacheEntry>, key: Seq<char>) -> Option<Stored>
    decreases entries.len(),
{
    if entries.len() == 0 {
        None
    } else if entries[0].key@ == key {
        Some(
            Stored {
                namespace: entries[0].namespace@,
                value: entries[0].value@,
                expires_at: entries[0].expires_at,
            },
        )
    } else {
        stored_in(entries.drop_first(), key)
    }
}

/// A key that no row is for holds nothing.
proof fn lemma_stored_absent(entries: Seq<CacheEntry>, key: Seq<char>)
    requires
        forall|i: int| 0 <= i < entries.len() ==> entries[i].key@ != key,
    ensures
        stored_in(entries, key) is None,
    decreases entries.len(),
{
    if entries.len() > 0 {
        lemma_stored_absent(entries.drop_first(), key);
    }
}

/// A key holds what its first row holds.
proof fn lemma_stored_first(entries: Seq<CacheEntry>, j: int, key: Seq<char>)
    requires
        0 <= j < entries.len(),
        entries[j].key@ == key,
        forall|i: int| 0 <= i < j ==> entries[i].key@ != key,
    ensures
        stored_in(entries, key) == Some(
            Stored {
                namespace: entries[j].namespace@,
                value: entries[j].value@,
                expires_at: entries[j].expires_at,
            },
        ),
    decreases j,
{
    if j > 0 {
        lemma_stored_first(entries.drop_first(), j - 1, key);
    }
}

/// Replacing a row by a row for the same key leaves every other key as it
/// was.
proof fn lemma_stored_update_other(entries: Seq<CacheEntry>, j: int, row: CacheEntry, key: Seq<char>)
    requires
        0 <= j < entries.len(),
        row.key@ == entries[j].key@,
        key != row.key@,
    ensures
        stored_in(entries.update(j, row), key) == stored_in(entries, key),
    decreases j,
{
    let after = entries.update(j, row);
    if j == 0 {
        assert(after.drop_first() =~= entries.drop_first());
    } else {
        lemma_stored_update_other(entries.drop_first(), j - 1, row, key);
        assert(after.drop_first() =~= entries.drop_first().update(j - 1, row));
        assert(after[0] == entries[0]);
    }
}

/// Adding a row at the end leaves every key that the row is not for as it
/// was.
proof fn lemma_stored_push_other(entries: Seq<CacheEntry>, row: CacheEntry, key: Seq<char>)
    requires
        key != row.key@,
    ensures
        stored_in(entries.push(row), key) == stored_in(entries, key),
    decreases entries.len(),
{
    let after = entries.push(row);
    if entries.len() == 0 {
        assert(after.drop_first() =~= entries);
    } else {
        lemma_stored_push_other(entries.drop_first(), row, key);
        assert(after.drop_first() =~= entries.drop_first().push(row));
        assert(after[0] == entries[0]);
    }
}

/// Adding a row for a key that no row is for makes that key hold the row.
proof fn lemma_stored_push_new(entries: Seq<CacheEntry>, row: CacheEntry)
    requires
        forall|i: int| 0 <= i < entries.len() ==> entries[i].key@ != row.key@,
    ensures
        stored_in(entries.push(row), row.key@) == Some(
            Stored { namespace: row.namespace@, value: row.value@, expires_at: row.expires_at },
        ),
    decreases entries.len(),
{
    let after = entries.push(row);
    if entries.len() == 0 {
        assert(after.drop_first() =~= entries);
    } else {
        lemma_stored_push_new(entries.drop_first(), row);
        assert(after.drop_first() =~= entries.drop_first().push(row));
        assert(after[0] == entries[0]);
    }
}

impl CacheStore {
    /// What the store holds under `key`, expired or not.
    pub closed spec fn stored(&self, key: Seq<char>) -> Option<Stored> {
        stored_in(self.entries@, key)
    }

    /// The value that a reader finds under `key` at the second `now`: the
    /// stored one as long as `now` is before its expiry, nothing otherwise.
    pub open spec fn live(&self, key: Seq<char>, now: u64) -> Option<Seq<char>> {
        match self.stored(key) {
            Some(entry) => if now < entry.expires_at {
                Some(entry.value)
            } else {
                None
            },
            None => None,
        }
    }

    /// A store that holds nothing.
    pub fn new() -> (store: CacheStore)
        ensures
            forall|key: Seq<char>| store.stored(key) is None,
    {
        CacheStore { entries: Vec::new() }
    }

    /// The place of the first row for `key`, if there is one.
    fn find(&self, key: &str) -> (at: Option<usize>)
        ensures
            match at {
                Some(j) => j < self.entries.len() && self.entries[j as int].key@ == key@
                    && forall|i: int| 0 <= i < j ==> self.entries[i].key@ != key@,
                None => forall|i: int| 0 <= i < self.entries.len() ==> self.entries[i].key@ != key@,
            },
    {
        let mut i: usize = 0;
        while i < self.entries.len()
            invariant
                i <= self.entries.len(),
                forall|k: int| 0 <= k < i ==> self.entries[k].key@ != key@,
            decreases self.entries.len() - i,
        {
            if text_eq(self.entries[i].key.as_str(), key) {
                return Some(i);
            }
            i += 1;
        }
        None
    }

    /// The value under `key` at the second `now`; `None` where the store
    /// holds none or the one it holds has expired.
    pub fn get(&self, key: &str, now: u64) -> (value: Option<String>)
        ensures
            match value {
                Some(v) => self.live(key@, now) == Some(v@),
                None => self.live(key@, now) is None,
            },
    {
        match self.find(key) {
            Some(j) => {
                proof {
                    lemma_stored_first(self.entries@, j as int, key@);
                }
                if now < self.entries[j].expires_at {
                    Some(self.entries[j].value.clone())
                } else {
                    None
                }
            },
            None => {
                proof {
                    lemma_stored_absent(self.entries@, key@);
                }
                None
            },
        }
    }

    /// Stores `value` under `key` for `ttl_seconds` from the second `now`,
    /// in place of whatever the key held, and changes no other key.
    pub fn set(&mut self, key: &str, namespace: &str, value: &str, ttl_seconds: u64, now: u64)
        requires
            now + ttl_seconds <= u64::MAX,
        ensures
            final(self).stored(key@) == Some(
                Stored {
                    namespace: namespace@,
                    value: value@,
                    expires_at: (now + ttl_seconds) as u64,
                },
            ),
            forall|other: Seq<char>| other != key@ ==> final(self).stored(other) == old(self).stored(other),
    {
        let row = CacheEntry {
            key: key.to_owned(),
            namespace: namespace.to_owned(),
            value: value.to_owned(),
            expires_at: now + ttl_seconds,
        };
        match self.find(key) {
            Some(j) => {
                proof {
                    let before = self.entries@;
                    let after = before.update(j as int, row);
                    lemma_stored_first(after, j as int, key@);
                    assert forall|other: Seq<char>| other != key@ implies stored_in(after, other)
                        == stored_in(before, other) by {
                        lemma_stored_update_other(before, j as int, row, other);
                    }
                }
                self.entries.set(j, row);
            },
            None => {
                proof {
                    let before = self.entries@;
                    lemma_stored_push_new(before, row);
                    assert forall|other: Seq<char>| other != key@ implies stored_in(
                        before.push(row),
                        other,
                    ) == stored_in(before, other) by {
                        lemma_stored_push_other(before, row, other);
                    }
                }
                self.entries.push(row);
            },
        }
    }
}

} // verus!
