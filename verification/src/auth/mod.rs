//! The stored, locked state of a vault and the ways to unlock and re-key it.

pub mod auth_service;
