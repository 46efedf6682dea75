//! The three-step password-reset protocol: request a one-time code by email,
//! trade the code for a short-lived reset token, and spend the token to
//! replace the password.
//!
//! The reset state of an email is one tagged value in the verification store
//! (under `keys::reset_key`), so a code and a token for the same email are
//! never live at once. Each step here takes what the stores answered and
//! returns the state to write back and the answer to give; the server performs
//! the reads and writes in between.

use crate::auth::{signed_in, StoreRead, User};
use crate::hasher::{Hasher, MAX_PASSWORD_LEN};
use crate::ids::{is_code, is_digit, is_token, is_token_char};
use crate::keys::{framed, user_cache_key};
use crate::mail::Mail;
use vstd::prelude::*;
use vstd::string::StrSliceExecFns;
use vstd::utf8::encode_utf8;

verus! {

/// How long an issued code stays usable, in seconds (ten minutes).
pub const CODE_TTL_SECONDS: u64 = 600;

/// How long an issued reset token stays usable, in seconds (fifteen minutes).
pub const TOKEN_TTL_SECONDS: u64 = 900;

/// Latest instant (Unix seconds) at which a step can issue a code or token
/// without its expiry leaving the `i64` range.
pub const LATEST_INSTANT: i64 = 0x7FFF_FFFF_FFFF_FFFF - 900;

/// A character with the Unicode `White_Space` property, as
/// `char::is_whitespace` tests it.
pub open spec fn is_white_space(c: char) -> bool {
    let v = c as u32;
    ||| 0x09 <= v <= 0x0D
    ||| v == 0x20
    ||| v == 0x85
    ||| v == 0xA0
    ||| v == 0x1680
    ||| 0x2000 <= v <= 0x200A
    ||| v == 0x2028
    ||| v == 0x2029
    ||| v == 0x202F
    ||| v == 0x205F
    ||| v == 0x3000
}

/// `s` without its leading whitespace.
pub open spec fn trim_start_of(s: Seq<char>) -> Seq<char>
    decreases s.len(),
{
    if s.len() > 0 && is_white_space(s[0]) {
        trim_start_of(s.drop_first())
    } else {
        s
    }
}

/// `s` without its trailing whitespace.
pub open spec fn trim_end_of(s: Seq<char>) -> Seq<char>
    decreases s.len(),
{
    if s.len() > 0 && is_white_space(s.last()) {
        trim_end_of(s.drop_last())
    } else {
        s
    }
}

/// `s` with leading and trailing whitespace removed, as `str::trim` does.
pub open spec fn trim_of(s: Seq<char>) -> Seq<char> {
    trim_end_of(trim_start_of(s))
}

/// A printable ASCII character other than space; none is whitespace.
pub open spec fn is_ascii_graphic(c: char) -> bool {
    '!' <= c <= '~'
}

/// `s` is empty or starts and ends with a printable ASCII character, so
/// trimming leaves it as it is.
pub open spec fn has_graphic_ends(s: Seq<char>) -> bool {
    s.len() == 0 || (is_ascii_graphic(s[0]) && is_ascii_graphic(s[s.len() - 1]))
}

/// Trimming leaves a string with printable ASCII ends as it is.
pub proof fn lemma_graphic_ends_trim_to_self(s: Seq<char>)
    requires
        has_graphic_ends(s),
    ensures
        trim_of(s) == s,
{
}

fn white_space(c: char) -> (r: bool)
    ensures
        r == is_white_space(c),
{
    let v = c as u32;
    (0x09 <= v && v <= 0x0D) || v == 0x20 || v == 0x85 || v == 0xA0 || v == 0x1680 || (0x2000 <= v
        && v <= 0x200A) || v == 0x2028 || v == 0x2029 || v == 0x202F || v == 0x205F || v == 0x3000
}

/// `s` with leading and trailing whitespace removed.
fn trim(s: &str) -> (r: String)
    ensures
        r@ == trim_of(s@),
{
    let n = s.unicode_len();
    let mut i: usize = 0;
    assert(s@.subrange(0, n as int) =~= s@);
    while i < n && white_space(s.get_char(i))
        invariant
            n == s@.len(),
            i <= n,
            trim_start_of(s@) == trim_start_of(s@.subrange(i as int, n as int)),
        decreases n - i,
    {
        assert(s@.subrange(i as int, n as int).drop_first() =~= s@.subrange(i + 1, n as int));
        i += 1;
    }
    let mut j: usize = n;
    while j > i && white_space(s.get_char(j - 1))
        invariant
            n == s@.len(),
            i <= j <= n,
            trim_start_of(s@) == s@.subrange(i as int, n as int),
            trim_of(s@) == trim_end_of(s@.subrange(i as int, j as int)),
        decreases j - i,
    {
        assert(s@.subrange(i as int, j as int).drop_last() =~= s@.subrange(i as int, j - 1));
        j -= 1;
    }
    String::from_str(s.substring_char(i, j))
}

/// Normalises an email address as every step keys it: surrounding
/// whitespace removed.
pub fn normalize_email(raw: &str) -> (r: String)
    ensures
        r@ == trim_of(raw@),
        has_graphic_ends(raw@) ==> trim_of(raw@) == raw@,
{
    trim(raw)
}

/// Reset codes and tokens have no surrounding whitespace: they trim to
/// themselves.
pub proof fn lemma_codes_and_tokens_have_graphic_ends(s: Seq<char>)
    requires
        is_code(s) || is_token(s),
    ensures
        has_graphic_ends(s),
{
    if is_code(s) {
        assert(is_digit(s[0]) && is_digit(s[s.len() - 1]));
    } else {
        assert(is_token_char(s[0]) && is_token_char(s[s.len() - 1]));
    }
}

/// Step one's request: the email to send a code to.
pub struct ForgotPasswordBody {
    pub email: String,
}

/// Step two's request: the email and the code it received.
pub struct VerifyCodeBody {
    pub email: String,
    pub code: String,
}

/// Step two's answer: the token for step three.
pub struct VerifyCodeResponse {
    pub reset_token: String,
}

/// Step three's request: the email, the token, and the new password twice.
pub struct ResetPasswordBody {
    pub email: String,
    pub reset_token: String,
    pub new_password: String,
    pub confirm: String,
}

/// The password-reset state of one email.
#[derive(Debug, Clone, PartialEq, Eq)]
pub enum ResetState {
    /// No reset under way.
    NoActiveReset,
    /// A code was mailed; it is usable while the clock is before `expires_at`.
    CodeIssued { code: String, expires_at: i64 },
    /// The code was traded for a token; usable while before `expires_at`.
    TokenIssued { token: String, expires_at: i64 },
}

impl ResetState {
    /// How long the store keeps this state, in seconds; `None` where the key
    /// is to be deleted instead.
    pub open spec fn ttl_spec(&self) -> Option<u64> {
        match self {
            ResetState::NoActiveReset => None,
            ResetState::CodeIssued { .. } => Some(CODE_TTL_SECONDS),
            ResetState::TokenIssued { .. } => Some(TOKEN_TTL_SECONDS),
        }
    }

    /// How long the store keeps this state, in seconds; `None` where the key
    /// is to be deleted instead.
    pub fn ttl_seconds(&self) -> (r: Option<u64>)
        ensures
            r == self.ttl_spec(),
    {
        match self {
            ResetState::NoActiveReset => None,
            ResetState::CodeIssued { .. } => Some(CODE_TTL_SECONDS),
            ResetState::TokenIssued { .. } => Some(TOKEN_TTL_SECONDS),
        }
    }

    /// The state as read from the store: whatever decodes, and no active
    /// reset for an unreachable store, an empty key or an undecodable value,
    /// so that a failed read can only reject.
    pub open spec fn from_read_spec(read: StoreRead<ResetState>) -> ResetState {
        match read {
            StoreRead::Found(s) => s,
            _ => ResetState::NoActiveReset,
        }
    }

    /// The state as read from the store; every failed read counts as no
    /// active reset.
    pub fn from_read(read: StoreRead<ResetState>) -> (r: ResetState)
        ensures
            r == Self::from_read_spec(read),
    {
        match read {
            StoreRead::Found(s) => s,
            _ => ResetState::NoActiveReset,
        }
    }
}

/// Why a reset step failed.
#[derive(Debug, Clone, Copy, PartialEq, Eq, Structural)]
pub enum ResetError {
    /// A client-supplied field fails a precondition (password and
    /// confirmation differ).
    ValidationError,
    /// The code or token is wrong, expired, or was never issued; the three
    /// are not told apart.
    InvalidOrExpired,
    /// No account is registered under the email.
    NotFound,
    /// The new password could not be hashed.
    Hashing,
    /// The verification store or the durable store refused a write or query.
    StoreUnavailable,
    /// The code could not be mailed.
    MailFailed,
}

impl ResetError {
    /// The HTTP status the error is answered with: client errors for rejected
    /// input, not-found for a missing account, server errors for the rest.
    pub open spec fn status_spec(self) -> u16 {
        match self {
            ResetError::ValidationError => 400,
            ResetError::InvalidOrExpired => 400,
            ResetError::NotFound => 404,
            _ => 500,
        }
    }

    /// The HTTP status the error is answered with.
    pub fn status_code(&self) -> (r: u16)
        ensures
            r == self.status_spec(),
    {
        match self {
            ResetError::ValidationError => 400,
            ResetError::InvalidOrExpired => 400,
            ResetError::NotFound => 404,
            _ => 500,
        }
    }
}

/// Subject of the mail that carries a reset code.
pub open spec fn code_mail_subject() -> Seq<char> {
    "Password Reset Verification Code"@
}

/// Body of the mail that carries reset code `code`.
pub open spec fn code_mail_body(code: Seq<char>) -> Seq<char> {
    "Your password reset verification code is: "@ + code
        + "\n\nThis code will expire in 10 minutes."@
}

/// The state after a request for an email at second `now`: a fresh code
/// that supersedes whatever was there, or no change for an unknown email.
pub open spec fn requested(old: ResetState, account_exists: bool, code: String, now: int) -> ResetState {
    if account_exists {
        ResetState::CodeIssued { code, expires_at: (now + CODE_TTL_SECONDS) as i64 }
    } else {
        old
    }
}

/// Whether `state` holds a live code equal to `candidate` at second `now`.
pub open spec fn code_accepted(state: ResetState, candidate: Seq<char>, now: int) -> bool {
    match state {
        ResetState::CodeIssued { code, expires_at } => code@ == candidate && now < expires_at,
        _ => false,
    }
}

/// The outcome of presenting `candidate` at second `now`: on a live, equal
/// code, the token-holding state that replaces the code (so the code cannot be
/// used again) together with the token; otherwise `InvalidOrExpired`.
pub open spec fn verified(state: ResetState, candidate: Seq<char>, token: String, now: int) -> Result<
    (ResetState, String),
    ResetError,
> {
    if code_accepted(state, candidate, now) {
        Ok((ResetState::TokenIssued { token, expires_at: (now + TOKEN_TTL_SECONDS) as i64 }, token))
    } else {
        Err(ResetError::InvalidOrExpired)
    }
}

/// Whether `state` holds a live token equal to `candidate` at second `now`.
pub open spec fn token_accepted(state: ResetState, candidate: Seq<char>, now: int) -> bool {
    match state {
        ResetState::TokenIssued { token, expires_at } => token@ == candidate && now < expires_at,
        _ => false,
    }
}

/// Step one, request: for an email with an account, a fresh code with a
/// ten-minute life replaces any earlier code or token, and the code is to be
/// mailed to the (trimmed) address. For an unknown email nothing is written or
/// sent; the caller answers both cases alike.
pub fn request_reset(body: &ForgotPasswordBody, account_exists: bool, code: String, now: i64) -> (r: Option<
    (ResetState, Mail),
>)
    requires
        now <= LATEST_INSTANT,
    ensures
        r is None <==> !account_exists,
        r matches Some((s, m)) ==> {
            &&& s == requested(ResetState::NoActiveReset, true, code, now as int)
            &&& m.to@ == trim_of(body.email@)
            &&& m.subject@ == code_mail_subject()
            &&& m.body@ == code_mail_body(code@)
        },
{
    if !account_exists {
        return None;
    }
    let mut text = String::from_str("Your password reset verification code is: ");
    text.append(code.as_str());
    text.append("\n\nThis code will expire in 10 minutes.");
    let mail = Mail {
        to: normalize_email(body.email.as_str()),
        subject: String::from_str("Password Reset Verification Code"),
        body: text,
    };
    let expires_at: i64 = now + CODE_TTL_SECONDS as i64;
    Some((ResetState::CodeIssued { code, expires_at }, mail))
}

/// The answer to a reset request once its work was attempted: `stored`
/// and `mailed` tell whether writing the new state and sending the mail
/// succeeded, `None` where that was not attempted (an unknown email). Either
/// failure is a server error; everything else is the one uniform success.
pub open spec fn request_answer_spec(stored: Option<bool>, mailed: Option<bool>) -> Result<(), ResetError> {
    if stored == Some(false) {
        Err(ResetError::StoreUnavailable)
    } else if mailed == Some(false) {
        Err(ResetError::MailFailed)
    } else {
        Ok(())
    }
}

/// The answer to a reset request once its work was attempted.
pub fn request_answer(stored: Option<bool>, mailed: Option<bool>) -> (r: Result<(), ResetError>)
    ensures
        r == request_answer_spec(stored, mailed),
{
    if stored == Some(false) {
        Err(ResetError::StoreUnavailable)
    } else if mailed == Some(false) {
        Err(ResetError::MailFailed)
    } else {
        Ok(())
    }
}

/// Step two, verify: `state` is what the store holds for the email (a failed
/// read counts as no reset) and the body's code, trimmed, the candidate. A
/// live, equal code is traded for `token`, valid fifteen minutes; the returned
/// state replaces the code, retiring it.
pub fn verify_reset_code(state: ResetState, body: &VerifyCodeBody, token: String, now: i64) -> (r: Result<
    (ResetState, VerifyCodeResponse),
    ResetError,
>)
    requires
        now <= LATEST_INSTANT,
    ensures
        match verified(state, trim_of(body.code@), token, now as int) {
            Ok((s, t)) => r matches Ok((s2, resp)) && s2 == s && resp.reset_token == t,
            Err(e) => r == Err::<(ResetState, VerifyCodeResponse), ResetError>(e),
        },
        has_graphic_ends(body.code@) ==> trim_of(body.code@) == body.code@,
{
    let candidate = trim(body.code.as_str());
    let accepted = match &state {
        ResetState::CodeIssued { code, expires_at } => *code == candidate && now < *expires_at,
        _ => false,
    };
    if accepted {
        let expires_at: i64 = now + TOKEN_TTL_SECONDS as i64;
        let handed = token.clone();
        Ok((ResetState::TokenIssued { token, expires_at }, VerifyCodeResponse { reset_token: handed }))
    } else {
        Err(ResetError::InvalidOrExpired)
    }
}

/// The outcome of comparing a new password with its confirmation.
pub open spec fn confirmation(new_password: Seq<char>, confirm: Seq<char>) -> Result<(), ResetError> {
    if new_password == confirm {
        Ok(())
    } else {
        Err(ResetError::ValidationError)
    }
}

/// Step three begins here, before any store is touched: the new password
/// must equal its confirmation.
pub fn check_confirmation(body: &ResetPasswordBody) -> (r: Result<(), ResetError>)
    ensures
        r == confirmation(body.new_password@, body.confirm@),
{
    if body.new_password == body.confirm {
        Ok(())
    } else {
        Err(ResetError::ValidationError)
    }
}

/// Step three, token check: `state` is what the store holds for the email
/// (a failed read counts as no reset) and the body's token, trimmed, the
/// candidate.
pub fn check_reset_token(state: &ResetState, body: &ResetPasswordBody, now: i64) -> (r: Result<
    (),
    ResetError,
>)
    ensures
        r is Ok <==> token_accepted(*state, trim_of(body.reset_token@), now as int),
        r matches Err(e) ==> e == ResetError::InvalidOrExpired,
        has_graphic_ends(body.reset_token@) ==> trim_of(body.reset_token@) == body.reset_token@,
{
    let candidate = trim(body.reset_token.as_str());
    let accepted = match state {
        ResetState::TokenIssued { token, expires_at } => *token == candidate && now < *expires_at,
        _ => false,
    };
    if accepted {
        Ok(())
    } else {
        Err(ResetError::InvalidOrExpired)
    }
}

/// Step three, new hash: `account` is what the durable store found under
/// the email. Returns the account with its stored hash replaced by a hash of
/// the new password; the caller persists it, deletes the user's cached snapshot
/// (its hash is stale) and then deletes the reset state, which spends the
/// token.
pub fn rehash_account(hasher: &Hasher, account: Option<User>, body: &ResetPasswordBody) -> (r: Result<
    User,
    ResetError,
>)
    ensures
        account is None ==> r == Err::<User, ResetError>(ResetError::NotFound),
        account is Some && encode_utf8(body.new_password@).len() <= MAX_PASSWORD_LEN ==> r is Ok,
        account is Some && r is Err ==> r == Err::<User, ResetError>(ResetError::Hashing),
        r matches Ok(u) ==> {
            let a = account->Some_0;
            &&& account is Some
            &&& u.id == a.id
            &&& u.username == a.username
            &&& u.email == a.email
            &&& u.phone_number == a.phone_number
            &&& u.name == a.name
            &&& u.role == a.role
            &&& hasher.accepts(encode_utf8(body.new_password@), u.password@)
        },
{
    match account {
        None => Err(ResetError::NotFound),
        Some(a) => match hasher.hash(body.new_password.as_str().as_bytes()) {
            Ok(h) => {
                let User { id, username, email, password: _, phone_number, name, role } = a;
                Ok(User { id, username, email, password: h, phone_number, name, role })
            },
            Err(_) => Err(ResetError::Hashing),
        },
    }
}

/// Step two's answer once the token-holding state was written (`stored`):
/// the token goes to the client only if the write succeeded; otherwise the
/// step fails as a server error and the token is never handed out.
pub fn hand_out_token(stored: bool, resp: VerifyCodeResponse) -> (r: Result<
    VerifyCodeResponse,
    ResetError,
>)
    ensures
        stored ==> (r matches Ok(x) && x == resp),
        !stored ==> (r matches Err(e) && e == ResetError::StoreUnavailable),
{
    if stored {
        Ok(resp)
    } else {
        Err(ResetError::StoreUnavailable)
    }
}

/// What finishing step three writes: the email's state becomes "no active
/// reset" (its key is deleted, which spends the token) and the snapshot of the
/// user, whose cached hash is now stale, is deleted.
pub struct ResetCompletion {
    pub next: ResetState,
    pub stale_snapshot_key: String,
}

/// Step three, finish: `persisted` tells whether the durable store took the
/// account with its new hash. If it did, the reset completes; if not, the step
/// fails as a server error and nothing else is written, so the token stays.
pub fn complete_reset(updated: &User, persisted: bool) -> (r: Result<ResetCompletion, ResetError>)
    ensures
        !persisted ==> (r matches Err(e) && e == ResetError::StoreUnavailable),
        persisted ==> (r matches Ok(c) && {
            &&& c.next == ResetState::NoActiveReset
            &&& c.next.ttl_spec() is None
            &&& c.stale_snapshot_key@ == framed("user_"@, updated.id@, ""@)
        }),
{
    if !persisted {
        return Err(ResetError::StoreUnavailable);
    }
    Ok(
        ResetCompletion {
            next: ResetState::NoActiveReset,
            stale_snapshot_key: user_cache_key(updated.id.as_str()),
        },
    )
}

/// A token works once: after the reset completes, the email has no active
/// reset, and presenting the same (or any) token again is rejected.
pub proof fn lemma_spent_token_rejected(token: Seq<char>, now: int)
    ensures
        !token_accepted(ResetState::NoActiveReset, token, now),
{
}

/// A code works once: after it has been traded for a token, presenting it
/// again, at any time and with any fresh token, is rejected.
pub proof fn lemma_code_single_use(
    state: ResetState,
    candidate: Seq<char>,
    first: String,
    second: String,
    first_at: i64,
    second_at: i64,
)
    requires
        verified(state, candidate, first, first_at as int) is Ok,
    ensures
        verified(verified(state, candidate, first, first_at as int)->Ok_0.0, candidate, second, second_at as int)
            == Err::<(ResetState, String), ResetError>(ResetError::InvalidOrExpired),
{
}

/// A new request supersedes the previous one: after two requests for the
/// same email, the first code is rejected even inside its own ten minutes,
/// and the second works until its own ten minutes are up.
pub proof fn lemma_request_supersedes(
    state: ResetState,
    first: String,
    second: String,
    first_at: i64,
    second_at: i64,
    now: i64,
    token: String,
)
    requires
        first@ != second@,
        first_at <= LATEST_INSTANT,
        second_at <= LATEST_INSTANT,
    ensures
        verified(
            requested(requested(state, true, first, first_at as int), true, second, second_at as int),
            first@,
            token,
            now as int,
        ) == Err::<(ResetState, String), ResetError>(ResetError::InvalidOrExpired),
        now < second_at + CODE_TTL_SECONDS as int ==> verified(
            requested(requested(state, true, first, first_at as int), true, second, second_at as int),
            second@,
            token,
            now as int,
        ) is Ok,
{
}

/// A code presented ten minutes or more after it was issued is rejected,
/// even when it matches exactly.
pub proof fn lemma_expired_code(
    state: ResetState,
    code: String,
    issued_at: i64,
    now: i64,
    token: String,
)
    requires
        issued_at <= LATEST_INSTANT,
        now >= issued_at + CODE_TTL_SECONDS as int,
    ensures
        verified(requested(state, true, code, issued_at as int), code@, token, now as int) == Err::<
            (ResetState, String),
            ResetError,
        >(ResetError::InvalidOrExpired),
{
}

/// A request for an email without an account changes no state, sends
/// nothing (by `request_reset`), and is answered exactly as a request whose
/// code was stored and mailed.
pub proof fn lemma_unknown_email_untouched(state: ResetState, code: String, now: int)
    ensures
        requested(state, false, code, now) == state,
        request_answer_spec(None, None) == request_answer_spec(Some(true), Some(true)),
        request_answer_spec(None, None) == Ok::<(), ResetError>(()),
{
}

/// A password that differs from its confirmation is refused with
/// `ValidationError` before the store is read, so a live token stays live.
pub proof fn lemma_mismatch_keeps_token(
    state: ResetState,
    token: Seq<char>,
    new_password: Seq<char>,
    confirm: Seq<char>,
    now: i64,
)
    requires
        new_password != confirm,
        token_accepted(state, token, now as int),
    ensures
        confirmation(new_password, confirm) == Err::<(), ResetError>(ResetError::ValidationError),
        token_accepted(state, token, now as int),
{
}

/// The whole protocol for an existing account: a code requested at
/// `requested_at` and presented within ten minutes yields a token; the token
/// presented within fifteen minutes is accepted; once the reset completes the
/// state is cleared and the token is spent; and the account holding the new
/// hash signs in with the new password.
pub proof fn lemma_reset_happy_path(
    hasher: Hasher,
    state: ResetState,
    code: String,
    token: String,
    requested_at: i64,
    verified_at: i64,
    reset_at: i64,
    updated: User,
    new_password: Seq<u8>,
)
    requires
        requested_at <= verified_at < requested_at + CODE_TTL_SECONDS as int,
        verified_at <= reset_at < verified_at + TOKEN_TTL_SECONDS as int,
        verified_at <= LATEST_INSTANT,
        hasher.accepts(new_password, updated.password@),
    ensures
        verified(requested(state, true, code, requested_at as int), code@, token, verified_at as int) is Ok,
        verified(requested(state, true, code, requested_at as int), code@, token, verified_at as int)->Ok_0.1
            == token,
        token_accepted(
            verified(requested(state, true, code, requested_at as int), code@, token, verified_at as int)->Ok_0.0,
            token@,
            reset_at as int,
        ),
        !token_accepted(ResetState::NoActiveReset, token@, reset_at as int),
        signed_in(hasher, Some(updated), new_password) == Some(updated),
{
}

} // verus!
