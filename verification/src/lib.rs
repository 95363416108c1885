//! Verified core of the user management service: account kinds and roles,
//! credential checks, session bookkeeping, one-time token rules, form and
//! upload validation, and the access decisions that the HTTP handlers take.

pub mod access;
pub mod bulk_add;
pub mod credentials;
pub mod error;
pub mod google;
pub mod ids;
pub mod onboarding;
pub mod password_reset;
pub mod pay_items;
pub mod requests;
pub mod roles;
pub mod sessions;
pub mod token;
pub mod user;
