//! Identity and authorization lookups over a fixed, read-only dataset:
//! token verification, user records, unit-scoped roles and unit membership,
//! together with the request-level decisions built on them.
pub mod data;
pub mod handlers;
