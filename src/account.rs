//! Account changes that touch credentials or the cached snapshot:
//! registration, a signed-in user's password change, and profile updates.
//!
//! Each function returns the account to persist and the snapshot write that
//! refreshes the cache after the durable store has accepted it.

use crate::auth::{snapshot_write_for, CacheWrite, Role, User};
use crate::hasher::{Hasher, MAX_PASSWORD_LEN};
use crate::keys::{user_cache_key, USER_CACHE_TTL_SECONDS};
use crate::student_id::{student_id_valid_in, valid_student_id};
use vstd::prelude::*;
use vstd::utf8::encode_utf8;

verus! {

/// What a new user submits to register.
pub struct RegisterBody {
    pub username: String,
    pub email: String,
    pub password: String,
    pub phone_number: String,
    pub name: String,
    pub student_id: String,
}

/// What a signed-in user submits to change their password.
pub struct UpdatePasswordBody {
    pub old_password: String,
    pub new_password: String,
    pub confirm: String,
}

/// What a signed-in user submits to change their profile; absent fields
/// stay as they are.
pub struct UpdateProfileBody {
    pub username: Option<String>,
    pub email: Option<String>,
    pub phone_number: Option<String>,
    pub name: Option<String>,
}

/// Why an account change was refused.
#[derive(Debug, Clone, Copy, PartialEq, Eq, Structural)]
pub enum AccountError {
    /// The student identifier breaks the format rules.
    InvalidStudentId,
    /// The new password and its confirmation differ.
    PasswordMismatch,
    /// The old password does not match the stored hash.
    WrongOldPassword,
    /// The password could not be hashed.
    Hashing,
}

impl AccountError {
    /// The HTTP status the error is answered with.
    pub open spec fn status_spec(self) -> u16 {
        match self {
            AccountError::Hashing => 500,
            _ => 400,
        }
    }

    /// The HTTP status the error is answered with: client errors for
    /// rejected input, a server error where hashing failed.
    pub fn status_code(&self) -> (r: u16)
        ensures
            r == self.status_spec(),
    {
        match self {
            AccountError::Hashing => 500,
            _ => 400,
        }
    }
}

fn snapshot_of(u: &User) -> (w: CacheWrite)
    ensures
        snapshot_write_for(u.id@, w),
{
    CacheWrite { key: user_cache_key(u.id.as_str()), ttl_seconds: USER_CACHE_TTL_SECONDS }
}

/// Builds the account for a registration, with identifier `id` and
/// `year_bound` the last two digits of the current ROC year. The student
/// identifier is checked first; the account gets the `User` role and a hash of
/// the submitted password.
pub fn register(hasher: &Hasher, body: RegisterBody, id: String, year_bound: u8) -> (r: Result<
    (User, CacheWrite),
    AccountError,
>)
    ensures
        !valid_student_id(body.student_id@, year_bound as int) ==> r == Err::<
            (User, CacheWrite),
            AccountError,
        >(AccountError::InvalidStudentId),
        valid_student_id(body.student_id@, year_bound as int) && encode_utf8(body.password@).len()
            <= MAX_PASSWORD_LEN ==> r is Ok,
        valid_student_id(body.student_id@, year_bound as int) && r is Err ==> r == Err::<
            (User, CacheWrite),
            AccountError,
        >(AccountError::Hashing),
        r matches Ok((u, w)) ==> {
            &&& valid_student_id(body.student_id@, year_bound as int)
            &&& u.id == id
            &&& u.username == body.username
            &&& u.email == body.email
            &&& u.phone_number == body.phone_number
            &&& u.name == body.name
            &&& u.role == Role::User
            &&& hasher.accepts(encode_utf8(body.password@), u.password@)
            &&& snapshot_write_for(u.id@, w)
        },
{
    if !student_id_valid_in(body.student_id.as_str(), year_bound) {
        return Err(AccountError::InvalidStudentId);
    }
    let hashed = match hasher.hash(body.password.as_str().as_bytes()) {
        Ok(h) => h,
        Err(_) => {
            return Err(AccountError::Hashing);
        },
    };
    let RegisterBody { username, email, password: _, phone_number, name, student_id: _ } = body;
    let u = User { id, username, email, password: hashed, phone_number, name, role: Role::User };
    let w = snapshot_of(&u);
    Ok((u, w))
}

/// Changes the password of the signed-in `user`: the new password must
/// equal its confirmation, and the old one must match the stored hash (a
/// malformed stored hash matches nothing). The account comes back with a hash
/// of the new password, everything else unchanged.
pub fn change_password(hasher: &Hasher, user: User, body: &UpdatePasswordBody) -> (r: Result<
    (User, CacheWrite),
    AccountError,
>)
    ensures
        body.new_password@ != body.confirm@ ==> r == Err::<(User, CacheWrite), AccountError>(
            AccountError::PasswordMismatch,
        ),
        body.new_password@ == body.confirm@ && !hasher.accepts(
            encode_utf8(body.old_password@),
            user.password@,
        ) ==> r == Err::<(User, CacheWrite), AccountError>(AccountError::WrongOldPassword),
        body.new_password@ == body.confirm@ && hasher.accepts(
            encode_utf8(body.old_password@),
            user.password@,
        ) && encode_utf8(body.new_password@).len() <= MAX_PASSWORD_LEN ==> r is Ok,
        body.new_password@ == body.confirm@ && hasher.accepts(
            encode_utf8(body.old_password@),
            user.password@,
        ) && r is Err ==> r == Err::<(User, CacheWrite), AccountError>(AccountError::Hashing),
        r matches Ok((u, w)) ==> {
            &&& body.new_password@ == body.confirm@
            &&& hasher.accepts(encode_utf8(body.old_password@), user.password@)
            &&& u.id == user.id
            &&& u.username == user.username
            &&& u.email == user.email
            &&& u.phone_number == user.phone_number
            &&& u.name == user.name
            &&& u.role == user.role
            &&& hasher.accepts(encode_utf8(body.new_password@), u.password@)
            &&& snapshot_write_for(u.id@, w)
        },
{
    if !(body.new_password == body.confirm) {
        return Err(AccountError::PasswordMismatch);
    }
    match hasher.verify(body.old_password.as_str().as_bytes(), user.password.as_str()) {
        Ok(true) => {},
        _ => {
            return Err(AccountError::WrongOldPassword);
        },
    }
    let hashed = match hasher.hash(body.new_password.as_str().as_bytes()) {
        Ok(h) => h,
        Err(_) => {
            return Err(AccountError::Hashing);
        },
    };
    let User { id, username, email, password: _, phone_number, name, role } = user;
    let u = User { id, username, email, password: hashed, phone_number, name, role };
    let w = snapshot_of(&u);
    Ok((u, w))
}

/// `new` where it is given, `old` otherwise.
pub open spec fn updated_field(old: String, new: Option<String>) -> String {
    match new {
        Some(v) => v,
        None => old,
    }
}

fn pick(old: String, new: Option<String>) -> (r: String)
    ensures
        r == updated_field(old, new),
{
    match new {
        Some(v) => v,
        None => old,
    }
}

/// Applies a profile update to `user`: each given field replaces the old
/// one; identifier, hash and role stay.
pub fn update_profile(user: User, body: UpdateProfileBody) -> (r: (User, CacheWrite))
    ensures
        r.0.id == user.id,
        r.0.password == user.password,
        r.0.role == user.role,
        r.0.username == updated_field(user.username, body.username),
        r.0.email == updated_field(user.email, body.email),
        r.0.phone_number == updated_field(user.phone_number, body.phone_number),
        r.0.name == updated_field(user.name, body.name),
        snapshot_write_for(r.0.id@, r.1),
{
    let User { id, username, email, password, phone_number, name, role } = user;
    let u = User {
        id,
        username: pick(username, body.username),
        email: pick(email, body.email),
        password,
        phone_number: pick(phone_number, body.phone_number),
        name: pick(name, body.name),
        role,
    };
    let w = snapshot_of(&u);
    (u, w)
}

} // verus!
