//! Password hashing with Argon2id and a deployment-wide secret ("pepper").
//!
//! A [`Hasher`] is built once from a [`Config`] and then shared read-only; the
//! expensive derivation itself runs wherever the caller puts it (the server
//! runs it on a blocking worker so that the async scheduler never stalls).

use argon2::password_hash::rand_core::{OsRng, RngCore};
use argon2::password_hash::{PasswordHash, PasswordHasher, PasswordVerifier, SaltString};
use argon2::{Algorithm, Argon2, Params, Version};
use vstd::prelude::*;
use vstd::string::StrSliceExecFns;

verus! {

#[verifier::external_type_specification]
#[verifier::external_body]
pub struct ExParams(argon2::Params);

#[verifier::external_type_specification]
#[verifier::external_body]
pub struct ExArgon2Error(argon2::Error);

#[verifier::external_type_specification]
#[verifier::external_body]
pub struct ExPasswordHashError(argon2::password_hash::Error);

/// Largest secret that Argon2 accepts, in bytes.
pub const MAX_SECRET_LEN: usize = 0xFFFF_FFFF;

/// Largest degree of parallelism that Argon2 accepts.
pub const MAX_PARALLELISM: u32 = 0xFF_FFFF;

/// The outcome of checking `password` against the PHC string `phc` with an
/// Argon2 engine that holds `secret`: `Some(true)` on a match, `Some(false)`
/// on a well-formed hash that does not match (or records no salt or
/// digest), `None` where the string cannot
/// be parsed, names parameters that Argon2 refuses, or the secret is longer
/// than Argon2 accepts.
pub uninterp spec fn argon2_verdict(secret: Seq<u8>, password: Seq<u8>, phc: Seq<char>) -> Option<
    bool,
>;

/// Cost parameters that Argon2 accepts: at least one pass, between one and
/// `MAX_PARALLELISM` lanes, and at least eight KiB of memory per lane.
pub open spec fn params_acceptable(memory_cost: u32, iterations: u32, parallelism: u32) -> bool {
    &&& 1 <= iterations
    &&& 1 <= parallelism <= MAX_PARALLELISM
    &&& 8 <= memory_cost
    &&& 8 * parallelism <= memory_cost
}

/// Relies on argon2's `Params::new`, which accepts exactly the cost
/// parameters described by `params_acceptable` (no explicit output length).
#[verifier::external_body]
fn argon2_params(memory_cost: u32, iterations: u32, parallelism: u32) -> (r: Result<
    Params,
    argon2::Error,
>)
    requires
        8 * parallelism <= u32::MAX,
    ensures
        r is Ok <==> params_acceptable(memory_cost, iterations, parallelism),
{
    Params::new(memory_cost, iterations, parallelism, None)
}

/// Length of the random salt drawn for every hash, in bytes.
pub const SALT_LEN: usize = 16;

/// Longest password Argon2 accepts, in bytes.
pub const MAX_PASSWORD_LEN: usize = 0xFFFF_FFFF;

/// Relies on rand_core's `OsRng` (`RngCore::fill_bytes`): sixteen bytes from
/// the operating system's random source, fresh on every call.
#[verifier::external_body]
fn random_salt() -> (r: Vec<u8>)
    ensures
        r@.len() == SALT_LEN,
{
    let mut bytes = [0u8; 16];
    OsRng.fill_bytes(&mut bytes);
    bytes.to_vec()
}

/// The decimal digit `d`.
pub open spec fn digit_char(d: nat) -> char {
    if d == 0 { '0' } else if d == 1 { '1' } else if d == 2 { '2' } else if d == 3 { '3' }
    else if d == 4 { '4' } else if d == 5 { '5' } else if d == 6 { '6' } else if d == 7 { '7' }
    else if d == 8 { '8' } else { '9' }
}

/// `n` written in decimal, without leading zeros.
pub open spec fn decimal(n: nat) -> Seq<char>
    decreases n,
{
    if n < 10 {
        seq![digit_char(n)]
    } else {
        decimal(n / 10).push(digit_char(n % 10))
    }
}

/// The start of the PHC string of an Argon2id (version 0x13) hash with
/// the given costs: `$argon2id$v=19$m=M,t=T,p=P$`, followed by the salt,
/// `$` and the digest.
pub open spec fn phc_header(memory_cost: u32, iterations: u32, parallelism: u32) -> Seq<char> {
    "$argon2id$v=19$m="@ + decimal(memory_cost as nat) + ",t="@ + decimal(iterations as nat)
        + ",p="@ + decimal(parallelism as nat) + "$"@
}

/// `phc` is a PHC string that records these costs.
pub open spec fn records_costs(phc: Seq<char>, memory_cost: u32, iterations: u32, parallelism: u32) -> bool {
    let header = phc_header(memory_cost, iterations, parallelism);
    header.len() <= phc.len() && phc.subrange(0, header.len() as int) == header
}

/// A character of the standard Base64 alphabet (`A-Z`, `a-z`, `0-9`, `+`, `/`).
pub open spec fn is_b64_char(c: char) -> bool {
    ||| 'A' <= c <= 'Z'
    ||| 'a' <= c <= 'z'
    ||| '0' <= c <= '9'
    ||| c == '+'
    ||| c == '/'
}

/// Every character of `s` is a Base64 character.
pub open spec fn all_b64(s: Seq<char>) -> bool {
    forall|i: int| 0 <= i < s.len() ==> is_b64_char(#[trigger] s[i])
}

/// `bytes` in unpadded standard Base64, as password_hash encodes a salt.
pub uninterp spec fn b64_of(bytes: Seq<u8>) -> Seq<char>;

/// The unpadded Base64 of the Argon2id digest of `password` under `secret`,
/// the given costs and `salt`.
pub uninterp spec fn argon2_digest(
    secret: Seq<u8>,
    memory_cost: u32,
    iterations: u32,
    parallelism: u32,
    password: Seq<u8>,
    salt: Seq<u8>,
) -> Seq<char>;

/// An ASCII decimal digit.
pub open spec fn is_ascii_digit(c: char) -> bool {
    '0' <= c <= '9'
}

/// At `i`, `s` holds `p=` followed by at least nine digits: a lane count of
/// 100000000 or more (PHC decimals have no leading zeros), which Argon2's
/// parameter parsing cannot take without overflowing.
pub open spec fn long_lanes_at(s: Seq<char>, i: int) -> bool {
    &&& 0 <= i
    &&& i + 11 <= s.len()
    &&& s[i] == 'p'
    &&& s[i + 1] == '='
    &&& forall|j: int| 0 <= j < 9 ==> is_ascii_digit(#[trigger] s[i + 2 + j])
}

/// `phc` records no lane count of nine or more digits.
pub open spec fn lanes_bounded(phc: Seq<char>) -> bool {
    forall|i: int| !long_lanes_at(phc, i)
}

/// A string that every check can judge: within the lane bound, and with a
/// verdict (match or mismatch, never an error) for any pepper and password
/// that Argon2 accepts.
pub open spec fn judgeable(phc: Seq<char>) -> bool {
    &&& lanes_bounded(phc)
    &&& forall|secret: Seq<u8>, password: Seq<u8>|
        secret.len() <= MAX_SECRET_LEN && password.len() <= MAX_PASSWORD_LEN
            ==> #[trigger] argon2_verdict(secret, password, phc) is Some
}

/// Relies on argon2's `Params::new` (costs to parameters), password_hash's
/// `SaltString::encode_b64` (salt bytes to the B64 salt), and argon2's
/// `Argon2::new_with_secret` and `hash_password`. With costs that `Params::new`
/// accepts and a secret and password of at most `u32::MAX` bytes nothing
/// fails. The string is the header, the B64 salt, `$` and the B64 digest; no
/// part of it holds the secret. Checking any password against it with any
/// secret of at most `u32::MAX` bytes re-derives a digest from the recorded
/// salt and costs and gives a verdict; for the same password and secret, a
/// match.
#[verifier::external_body]
fn argon2_hash(
    secret: &[u8],
    memory_cost: u32,
    iterations: u32,
    parallelism: u32,
    password: &[u8],
    salt: &[u8],
) -> (r: Result<String, argon2::password_hash::Error>)
    requires
        8 * parallelism <= u32::MAX,
        8 <= salt@.len() <= 48,
    ensures
        params_acceptable(memory_cost, iterations, parallelism) && secret@.len() <= MAX_SECRET_LEN
            && password@.len() <= MAX_PASSWORD_LEN ==> r is Ok,
        r matches Ok(h) ==> {
            &&& h@ == phc_header(memory_cost, iterations, parallelism) + b64_of(salt@) + "$"@
                + argon2_digest(secret@, memory_cost, iterations, parallelism, password@, salt@)
            &&& all_b64(b64_of(salt@))
            &&& all_b64(argon2_digest(secret@, memory_cost, iterations, parallelism, password@, salt@))
            &&& argon2_verdict(secret@, password@, h@) == Some(true)
            &&& forall|other_secret: Seq<u8>, other: Seq<u8>|
                other_secret.len() <= MAX_SECRET_LEN && other.len() <= MAX_PASSWORD_LEN
                    ==> #[trigger] argon2_verdict(other_secret, other, h@) is Some
        },
{
    let params = Params::new(memory_cost, iterations, parallelism, None)?;
    let salt = SaltString::encode_b64(salt)?;
    let engine = Argon2::new_with_secret(secret, Algorithm::Argon2id, Version::V0x13, params)?;
    engine.hash_password(password, &salt).map(|h| h.to_string())
}

/// Relies on password_hash's `PasswordHash::new` (parsing the PHC string) and
/// argon2's `verify_password`, which re-derives the digest from the parameters
/// recorded in the string and the engine's secret alone; its `Password` error
/// is a mismatch, every other error a string that cannot be used. Its
/// parameter parsing computes `8 * p` before bounding `p`, which overflows for
/// a lane count of 2^29 or more; such strings are kept out.
#[verifier::external_body]
fn argon2_verify(secret: &[u8], password: &[u8], phc: &str) -> (r: Result<
    bool,
    argon2::password_hash::Error,
>)
    requires
        lanes_bounded(phc@),
    ensures
        r is Ok <==> argon2_verdict(secret@, password@, phc@) is Some,
        r matches Ok(b) ==> argon2_verdict(secret@, password@, phc@) == Some(b),
{
    let parsed = PasswordHash::new(phc)?;
    let engine = Argon2::new_with_secret(secret, Algorithm::default(), Version::default(), Params::default())?;
    match engine.verify_password(password, &parsed) {
        Ok(()) => Ok(true),
        Err(argon2::password_hash::Error::Password) => Ok(false),
        Err(e) => Err(e),
    }
}

/// Whether `phc` is within the lane bound.
fn lanes_within_bound(phc: &str) -> (r: bool)
    ensures
        r == lanes_bounded(phc@),
{
    let n = phc.unicode_len();
    let mut i: usize = 0;
    while n >= 11 && i <= n - 11
        invariant
            n == phc@.len(),
            i <= n,
            forall|k: int| 0 <= k < i ==> !long_lanes_at(phc@, k),
        decreases n - i,
    {
        if phc.get_char(i) == 'p' && phc.get_char(i + 1) == '=' {
            let mut j: usize = 0;
            let mut all_digits = true;
            while j < 9
                invariant
                    i + 11 <= n,
                    n == phc@.len(),
                    j <= 9,
                    all_digits == forall|l: int| 0 <= l < j ==> is_ascii_digit(#[trigger] phc@[i + 2 + l]),
                decreases 9 - j,
            {
                let c = phc.get_char(i + 2 + j);
                if !('0' <= c && c <= '9') {
                    all_digits = false;
                }
                j += 1;
            }
            if all_digits {
                assert(long_lanes_at(phc@, i as int));
                return false;
            }
        }
        i += 1;
    }
    assert forall|k: int| !long_lanes_at(phc@, k) by {
        if 0 <= k < i {
        }
    }
    true
}

/// Ten to the power `k`.
pub open spec fn pow10(k: nat) -> nat
    decreases k,
{
    if k == 0 {
        1
    } else {
        10 * pow10((k - 1) as nat)
    }
}

proof fn lemma_decimal_digits(n: nat)
    ensures
        1 <= decimal(n).len(),
        forall|i: int| 0 <= i < decimal(n).len() ==> is_ascii_digit(#[trigger] decimal(n)[i]),
    decreases n,
{
    if n >= 10 {
        lemma_decimal_digits(n / 10);
    }
}

proof fn lemma_decimal_len(n: nat, k: nat)
    requires
        1 <= k,
        n < pow10(k),
    ensures
        decimal(n).len() <= k,
    decreases n,
{
    if n >= 10 {
        assert(pow10(1) == 10) by {
            assert(pow10(0) == 1);
        }
        if k == 1 {
            assert(false);
        }
        let q = pow10((k - 1) as nat);
        assert(pow10(k) == 10 * q);
        assert(n / 10 < q) by (nonlinear_arith)
            requires
                n < 10 * q,
        ;
        lemma_decimal_len(n / 10, (k - 1) as nat);
    }
}

/// A string laid out as `hash` lays it out (header, B64 salt, `$`, B64
/// digest) with at most `MAX_PARALLELISM` lanes is within the lane bound.
proof fn lemma_issued_lanes_bounded(m: u32, t: u32, p: u32, salt: Seq<char>, digest: Seq<char>)
    requires
        p <= MAX_PARALLELISM,
        all_b64(salt),
        all_b64(digest),
    ensures
        lanes_bounded(phc_header(m, t, p) + salt + "$"@ + digest),
{
    reveal_strlit("$argon2id$v=19$m=");
    reveal_strlit(",t=");
    reveal_strlit(",p=");
    reveal_strlit("$");
    let lead = "$argon2id$v=19$m="@;
    let dm = decimal(m as nat);
    let dt = decimal(t as nat);
    let dp = decimal(p as nat);
    lemma_decimal_digits(m as nat);
    lemma_decimal_digits(t as nat);
    lemma_decimal_digits(p as nat);
    assert(pow10(8) == 100000000) by {
        assert(pow10(0) == 1);
        assert(pow10(1) == 10);
        assert(pow10(2) == 100);
        assert(pow10(3) == 1000);
        assert(pow10(4) == 10000);
        assert(pow10(5) == 100000);
        assert(pow10(6) == 1000000);
        assert(pow10(7) == 10000000);
    }
    lemma_decimal_len(p as nat, 8);
    let x = lead + dm + ",t="@ + dt + ",p="@;
    let h = x + dp + "$"@;
    let tail = salt + "$"@ + digest;
    let s = h + tail;
    assert(phc_header(m, t, p) + salt + "$"@ + digest =~= s);
    assert forall|i: int| 0 <= i < tail.len() implies #[trigger] tail[i] != '=' by {
        if i < salt.len() {
            assert(is_b64_char(salt[i]));
        } else if i > salt.len() {
            assert(tail[i] == digest[i - salt.len() - 1]);
            assert(is_b64_char(digest[i - salt.len() - 1]));
        }
    }
    assert forall|k: int| !long_lanes_at(s, k) by {
        if long_lanes_at(s, k) {
            if k + 1 >= h.len() {
                assert(s[k + 1] == tail[k + 1 - h.len()]);
            } else if k >= x.len() {
                if k < x.len() + dp.len() {
                    assert(s[k] == dp[k - x.len()]);
                    assert(is_ascii_digit(dp[k - x.len()]));
                }
            } else if k == x.len() - 2 {
                let j = dp.len() as int;
                assert(s[k + 2 + j] == '$');
                assert(is_ascii_digit(s[k + 2 + j]));
            } else if k < x.len() - 3 {
                let a = lead.len() as int;
                let b = a + dm.len();
                let c = b + 3;
                let d = c + dt.len();
                if k < a {
                    assert(s[k] == lead[k]);
                } else if k < b {
                    assert(s[k] == dm[k - a]);
                    assert(is_ascii_digit(dm[k - a]));
                } else if k < c {
                    assert(s[k] == (",t="@)[k - b]);
                } else if k < d {
                    assert(s[k] == dt[k - c]);
                    assert(is_ascii_digit(dt[k - c]));
                }
            }
        }
    }
}

/// Why hashing could not be configured or carried out.
#[derive(Debug, Clone, Copy, PartialEq, Eq, Structural)]
pub enum HashingError {
    /// The cost parameters are out of Argon2's range.
    InvalidParams,
    /// The secret pepper is longer than Argon2 accepts.
    SecretTooLong,
    /// The primitive refused to hash the input.
    Rejected,
    /// The stored hash string is malformed or unusable.
    MalformedHash,
}

/// Deployment-wide hashing settings: the secret pepper and the Argon2 costs.
pub struct Config {
    pub secret_key: Vec<u8>,
    pub iterations: u32,
    pub parallelism: u32,
    pub memory_cost: u32,
}

/// A configured Argon2id hasher. It holds the pepper and checked costs
/// and never changes after construction, so one instance can be shared by
/// every request (behind an `Arc`).
pub struct Hasher {
    secret: Vec<u8>,
    memory_cost: u32,
    iterations: u32,
    parallelism: u32,
}

/// Whether `config` is one that `set_config` accepts.
pub open spec fn config_acceptable(config: Config) -> bool {
    &&& config.secret_key@.len() <= MAX_SECRET_LEN
    &&& params_acceptable(config.memory_cost, config.iterations, config.parallelism)
}

/// Builds the hasher that every hash and check of this deployment uses,
/// with exactly the configured pepper and costs. Fails with `SecretTooLong` or
/// `InvalidParams` where the configuration is outside what Argon2 accepts (a
/// zero cost, too little memory per lane).
pub fn set_config(config: Config) -> (r: Result<Hasher, HashingError>)
    ensures
        r is Ok <==> config_acceptable(config),
        r matches Ok(h) ==> {
            &&& h.pepper() == config.secret_key@
            &&& h.costs() == (config.memory_cost, config.iterations, config.parallelism)
        },
        r matches Err(e) ==> e == (if config.secret_key@.len() > MAX_SECRET_LEN {
            HashingError::SecretTooLong
        } else {
            HashingError::InvalidParams
        }),
{
    if config.secret_key.len() > MAX_SECRET_LEN {
        return Err(HashingError::SecretTooLong);
    }
    if config.parallelism > MAX_PARALLELISM {
        return Err(HashingError::InvalidParams);
    }
    match argon2_params(config.memory_cost, config.iterations, config.parallelism) {
        Ok(_) => Ok(
            Hasher {
                secret: config.secret_key,
                memory_cost: config.memory_cost,
                iterations: config.iterations,
                parallelism: config.parallelism,
            },
        ),
        Err(_) => Err(HashingError::InvalidParams),
    }
}

impl Hasher {
    /// The pepper fits Argon2 and the costs are ones it accepts.
    #[verifier::type_invariant]
    spec fn well_formed(&self) -> bool {
        &&& self.secret@.len() <= MAX_SECRET_LEN
        &&& params_acceptable(self.memory_cost, self.iterations, self.parallelism)
    }

    /// The secret pepper mixed into every hash.
    pub closed spec fn pepper(&self) -> Seq<u8> {
        self.secret@
    }

    /// The Argon2 costs: memory in KiB, passes, lanes.
    pub closed spec fn costs(&self) -> (u32, u32, u32) {
        (self.memory_cost, self.iterations, self.parallelism)
    }

    /// What checking `password` against `phc` yields under this hasher: the
    /// Argon2 verdict, or `MalformedHash` where the string is outside the lane
    /// bound or cannot be used.
    pub open spec fn verify_result(&self, password: Seq<u8>, phc: Seq<char>) -> Result<
        bool,
        HashingError,
    > {
        if !lanes_bounded(phc) {
            Err(HashingError::MalformedHash)
        } else {
            match argon2_verdict(self.pepper(), password, phc) {
                Some(b) => Ok(b),
                None => Err(HashingError::MalformedHash),
            }
        }
    }

    /// Whether `phc` is a hash under which this hasher accepts `password`.
    pub open spec fn accepts(&self, password: Seq<u8>, phc: Seq<char>) -> bool {
        self.verify_result(password, phc) == Ok::<bool, HashingError>(true)
    }

    /// `phc` is what `hash` hands back for `password`: accepted by this
    /// hasher, recording its costs, and judgeable under any pepper.
    pub open spec fn issued(&self, password: Seq<u8>, phc: Seq<char>) -> bool {
        &&& self.accepts(password, phc)
        &&& records_costs(phc, self.costs().0, self.costs().1, self.costs().2)
        &&& judgeable(phc)
    }

    /// Hashes `password` with a fresh random salt into a self-describing PHC
    /// string: the header with this hasher's costs, the B64 salt and the B64
    /// digest, never the pepper. Any password of at most `MAX_PASSWORD_LEN`
    /// bytes is hashed; whatever salt was drawn, the string is one under which
    /// this hasher accepts `password`.
    pub fn hash(&self, password: &[u8]) -> (r: Result<String, HashingError>)
        ensures
            password@.len() <= MAX_PASSWORD_LEN ==> r is Ok,
            r matches Ok(h) ==> {
                &&& self.issued(password@, h@)
                &&& exists|salt: Seq<u8>| h@ == phc_header(
                    self.costs().0,
                    self.costs().1,
                    self.costs().2,
                ) + #[trigger] b64_of(salt) + "$"@ + argon2_digest(
                    self.pepper(),
                    self.costs().0,
                    self.costs().1,
                    self.costs().2,
                    password@,
                    salt,
                )
            },
            r matches Err(e) ==> e == HashingError::Rejected,
    {
        proof {
            use_type_invariant(self);
        }
        let salt = random_salt();
        match argon2_hash(
            self.secret.as_slice(),
            self.memory_cost,
            self.iterations,
            self.parallelism,
            password,
            salt.as_slice(),
        ) {
            Ok(h) => {
                proof {
                    let header = phc_header(self.memory_cost, self.iterations, self.parallelism);
                    let digest = argon2_digest(
                        self.secret@,
                        self.memory_cost,
                        self.iterations,
                        self.parallelism,
                        password@,
                        salt@,
                    );
                    lemma_issued_lanes_bounded(
                        self.memory_cost,
                        self.iterations,
                        self.parallelism,
                        b64_of(salt@),
                        digest,
                    );
                    assert(h@.subrange(0, header.len() as int) =~= header);
                }
                Ok(h)
            },
            Err(_) => Err(HashingError::Rejected),
        }
    }

    /// Checks `password` against the stored hash `phc`, re-deriving with the
    /// salt and costs that `phc` records and this hasher's pepper: `Ok(false)`
    /// on a mismatch, `Err(MalformedHash)` where `phc` cannot be used
    /// (including a lane count of nine or more digits, which Argon2 could not
    /// parse safely).
    pub fn verify(&self, password: &[u8], phc: &str) -> (r: Result<bool, HashingError>)
        ensures
            r == self.verify_result(password@, phc@),
    {
        if !lanes_within_bound(phc) {
            return Err(HashingError::MalformedHash);
        }
        match argon2_verify(self.secret.as_slice(), password, phc) {
            Ok(b) => Ok(b),
            Err(_) => Err(HashingError::MalformedHash),
        }
    }
}

/// A hash that `hash` hands back verifies against the password it was made
/// from under the same hasher; and checking any other password against it,
/// under any hasher (another pepper included), gives a verdict, a match or a
/// mismatch, never an error.
pub proof fn lemma_issued_hash_is_judged(
    maker: Hasher,
    checker: Hasher,
    password: Seq<u8>,
    other: Seq<u8>,
    phc: Seq<char>,
)
    requires
        maker.issued(password, phc),
        checker.pepper().len() <= MAX_SECRET_LEN,
        other.len() <= MAX_PASSWORD_LEN,
    ensures
        maker.verify_result(password, phc) == Ok::<bool, HashingError>(true),
        checker.verify_result(other, phc) is Ok,
{
    assert(argon2_verdict(checker.pepper(), other, phc) is Some);
}

} // verus!
