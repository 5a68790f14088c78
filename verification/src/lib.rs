//! A verified core for a cookie-authenticated user-management service.
//!
//! The library covers the security-sensitive logic: password hashing and
//! verification, issuing and checking the signed session cookie, the
//! middleware decision that guards protected routes, and the registration /
//! login / lookup flows against a user store with unique ids and emails.
//! Transport, routing and persistence plumbing live outside the library.

pub mod errors;
pub mod handlers;
pub mod hashing;
pub mod model;
pub mod session;
pub mod store;
