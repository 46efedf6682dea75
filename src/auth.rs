//! The authentication backend's decisions: signing in with credentials,
//! looking a signed-in user up cache-first, and flat role permissions.
//!
//! The durable user store and the verification store are reached by the
//! server; these functions take what they answered and say what to return and
//! what to write back. Cache writes are best effort: the server drops their
//! failures, and every cache read failure counts as a miss.

use crate::hasher::Hasher;
use crate::keys::{framed, user_cache_key, USER_CACHE_TTL_SECONDS};
use vstd::prelude::*;
use vstd::utf8::encode_utf8;

verus! {

/// A user's role; permissions are a flat equality check on it.
#[derive(Debug, Clone, Copy, PartialEq, Eq, Structural)]
pub enum Role {
    Admin,
    User,
}

/// A user account as the durable store holds it. `password` is the stored
/// PHC hash, never the plaintext.
#[derive(Debug, Clone, PartialEq, Eq)]
pub struct User {
    pub id: String,
    pub username: String,
    pub email: String,
    pub password: String,
    pub phone_number: String,
    pub name: String,
    pub role: Role,
}

/// What a client presents to sign in; the durable store is searched by
/// exact email.
pub struct Credentials {
    pub email: String,
    pub password: String,
}

/// What one read of a key of the verification store gave.
pub enum StoreRead<T> {
    /// The store could not be reached.
    Unavailable,
    /// Nothing lives under the key (never set, deleted, or expired).
    Absent,
    /// Something lives under the key but does not decode.
    Malformed,
    /// A record that decodes.
    Found(T),
}

impl<T> StoreRead<T> {
    /// The record, where the read found one; every failure is a miss.
    pub open spec fn found_spec(self) -> Option<T> {
        match self {
            StoreRead::Found(v) => Some(v),
            _ => None,
        }
    }

    /// The record, where the read found one: an unreachable store, an empty
    /// key and an undecodable value are all treated as "nothing there".
    pub fn found(self) -> (r: Option<T>)
        ensures
            r == self.found_spec(),
    {
        match self {
            StoreRead::Found(v) => Some(v),
            _ => None,
        }
    }
}

/// A snapshot write for the verification store: the value (a user, given
/// beside it) goes under `key` and lapses after `ttl_seconds`.
pub struct CacheWrite {
    pub key: String,
    pub ttl_seconds: u64,
}

/// `w` writes the snapshot of user `id`: key `user_{id}`, sixty seconds.
pub open spec fn snapshot_write_for(id: Seq<char>, w: CacheWrite) -> bool {
    &&& w.key@ == framed("user_"@, id, ""@)
    &&& w.ttl_seconds == USER_CACHE_TTL_SECONDS
}

/// The user that signing in with `password` yields, given what the durable
/// store found for the email: that user, where the stored hash accepts the
/// password; no one otherwise (unknown email and wrong password alike).
pub open spec fn signed_in(hasher: Hasher, account: Option<User>, password: Seq<u8>) -> Option<User> {
    match account {
        Some(u) => if hasher.accepts(password, u.password@) {
            Some(u)
        } else {
            None
        },
        None => None,
    }
}

fn snapshot_write(id: &str) -> (w: CacheWrite)
    ensures
        snapshot_write_for(id@, w),
{
    CacheWrite { key: user_cache_key(id), ttl_seconds: USER_CACHE_TTL_SECONDS }
}

/// Signs in with `credentials`: `account` is what the durable store found
/// under their email. On a match it returns the user with the snapshot write
/// that caches it. A malformed stored hash is no match either.
pub fn authenticate(hasher: &Hasher, account: Option<User>, credentials: &Credentials) -> (r: Option<
    (User, CacheWrite),
>)
    ensures
        match r {
            Some((u, w)) => signed_in(*hasher, account, encode_utf8(credentials.password@)) == Some(u)
                && snapshot_write_for(u.id@, w),
            None => signed_in(*hasher, account, encode_utf8(credentials.password@)) is None,
        },
{
    match account {
        Some(u) => {
            let verdict = hasher.verify(credentials.password.as_str().as_bytes(), u.password.as_str());
            match verdict {
                Ok(true) => {
                    let w = snapshot_write(u.id.as_str());
                    Some((u, w))
                },
                _ => None,
            }
        },
        None => None,
    }
}

/// Looks a signed-in user up in the cache: the snapshot where the read
/// (with its expiry refreshed) found one. `None` means a miss, and the caller
/// goes on to `get_user_from_store`.
pub fn get_user_cached(read: StoreRead<User>) -> (r: Option<User>)
    ensures
        r == read.found_spec(),
{
    read.found()
}

/// Finishes a cache miss for user `id` with the durable store's answer: the
/// user it found, and where it found one the write that repopulates the cache.
pub fn get_user_from_store(id: &str, found: Option<User>) -> (r: (Option<User>, Option<CacheWrite>))
    ensures
        r.0 == found,
        r.1 is Some <==> found is Some,
        r.1 matches Some(w) ==> snapshot_write_for(id@, w),
{
    match found {
        Some(u) => (Some(u), Some(snapshot_write(id))),
        None => (None, None),
    }
}

/// Whether `user` holds the permission `perm`: their role is exactly `perm`.
pub fn has_perm(user: &User, perm: Role) -> (r: bool)
    ensures
        r == (user.role == perm),
{
    user.role == perm
}

/// The user snapshots in the verification store: under each key, the
/// snapshot and the second at which it lapses.
pub type SnapshotCache = Map<Seq<char>, (User, int)>;

/// The cache after `user` was written by `w` at second `now`.
pub open spec fn cache_after_write(cache: SnapshotCache, w: CacheWrite, user: User, now: int) -> SnapshotCache {
    cache.insert(w.key@, (user, now + w.ttl_seconds))
}

/// What reading `key` at second `now` gives: the snapshot until it lapses,
/// nothing from then on.
pub open spec fn cache_read(cache: SnapshotCache, key: Seq<char>, now: int) -> StoreRead<User> {
    if cache.contains_key(key) && now < cache[key].1 {
        StoreRead::Found(cache[key].0)
    } else {
        StoreRead::Absent
    }
}

/// Cache-aside: once signing in succeeds at second `signed_at` and its
/// snapshot write lands, looking that user up by id before the snapshot lapses
/// returns the same user from the cache alone; from sixty seconds on the
/// lookup misses and goes to the durable store.
pub proof fn lemma_cache_aside(
    hasher: Hasher,
    account: Option<User>,
    password: Seq<u8>,
    user: User,
    w: CacheWrite,
    cache: SnapshotCache,
    signed_at: int,
    later: int,
)
    requires
        signed_in(hasher, account, password) == Some(user),
        snapshot_write_for(user.id@, w),
        signed_at <= later,
    ensures
        later < signed_at + USER_CACHE_TTL_SECONDS ==> cache_read(
            cache_after_write(cache, w, user, signed_at),
            framed("user_"@, user.id@, ""@),
            later,
        ).found_spec() == Some(user),
        later >= signed_at + USER_CACHE_TTL_SECONDS ==> cache_read(
            cache_after_write(cache, w, user, signed_at),
            framed("user_"@, user.id@, ""@),
            later,
        ).found_spec() is None,
{
}

} // verus!
