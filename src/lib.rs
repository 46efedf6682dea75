//! Credential and session security for a classroom-reservation backend.
//!
//! - `hasher`: Argon2id password hashing with a server-side pepper.
//! - `keys`: the keys and lifetimes of records in the verification store.
//! - `auth`: signing in, the cache-aside lookup of signed-in users, roles.
//! - `reset`: the three-step password-reset protocol as explicit states.
//! - `account`: registration, password change and profile updates.
//! - `ids`: random reset codes, reset tokens and user identifiers.
//! - `student_id`: the student-identifier format.
//! - `listing`: classroom views, sort orders and page windows of listings.
//! - `mail`: SMTP settings and outbound messages.
//!
//! The functions here decide; the server around them performs the store
//! reads and writes, the mail and the blocking-pool offloading they call for.

pub mod account;
pub mod auth;
pub mod hasher;
pub mod ids;
pub mod keys;
pub mod listing;
pub mod mail;
pub mod reset;
pub mod student_id;
