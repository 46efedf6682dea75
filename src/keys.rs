//! Keys under which the verification store (a key-value cache with per-key
//! expiry) holds its records, and the lifetimes of those records.

use vstd::prelude::*;

verus! {

/// How long a cached user snapshot stays valid, in seconds.
pub const USER_CACHE_TTL_SECONDS: u64 = 60;

/// `prefix` followed by `id`, then `suffix`.
pub open spec fn framed(prefix: Seq<char>, id: Seq<char>, suffix: Seq<char>) -> Seq<char> {
    prefix + id + suffix
}

fn frame(prefix: &str, id: &str, suffix: &str) -> (r: String)
    ensures
        r@ == framed(prefix@, id@, suffix@),
{
    let mut s = String::from_str(prefix);
    s.append(id);
    s.append(suffix);
    s
}

/// Key of the cached snapshot of the user with identifier `id`: `user_{id}`.
pub fn user_cache_key(id: &str) -> (r: String)
    ensures
        r@ == framed("user_"@, id@, ""@),
{
    frame("user_", id, "")
}

/// Key of the password-reset state of the account registered under `email`:
/// `password_reset:{email}`.
pub fn reset_key(email: &str) -> (r: String)
    ensures
        r@ == framed("password_reset:"@, email@, ""@),
{
    frame("password_reset:", email, "")
}

/// Key of the cached classroom `id`: `classroom_{id}`.
pub fn classroom_key(id: &str) -> (r: String)
    ensures
        r@ == framed("classroom_"@, id@, ""@),
{
    frame("classroom_", id, "")
}

/// Key of the cached classroom `id` together with its keys: `classroom_{id}_keys`.
pub fn classroom_with_keys_key(id: &str) -> (r: String)
    ensures
        r@ == framed("classroom_"@, id@, "_keys"@),
{
    frame("classroom_", id, "_keys")
}

/// Key of the cached classroom `id` together with its reservations:
/// `classroom_{id}_reservations`.
pub fn classroom_with_reservations_key(id: &str) -> (r: String)
    ensures
        r@ == framed("classroom_"@, id@, "_reservations"@),
{
    frame("classroom_", id, "_reservations")
}

/// Key of the cached classroom `id` together with its keys and reservations:
/// `classroom_{id}_keys_reservations`.
pub fn classroom_with_keys_and_reservations_key(id: &str) -> (r: String)
    ensures
        r@ == framed("classroom_"@, id@, "_keys_reservations"@),
{
    frame("classroom_", id, "_keys_reservations")
}

} // verus!
