//! Session-authentication core: signed session tokens, a TTL-bound key-value
//! store with single-active-token-per-session semantics, refresh rotation,
//! logout invalidation, and a time-boxed single-use email-verification-code
//! store.
//!
//! - [`codec`] signs and verifies token strings under a shared secret.
//! - [`store`] models the shared keyed cache with per-record time-to-live.
//! - [`session`] drives the session lifecycle: create, refresh, logout,
//!   lookup — with the store, not the signature, as the source of truth for
//!   liveness.
//! - [`verification`] keeps one short-lived, single-use verification code
//!   per (user, email) pair.
//! - [`service`] is the thin orchestration over the two: login, password
//!   hashing, email verification, new-user validation.
//! - [`text`] builds the store keys: the hyphenated form of a UUID value and
//!   the `verify/{user_id}/{email}` form.

pub mod codec;
pub mod service;
pub mod session;
pub mod store;
pub mod text;
pub mod verification;
