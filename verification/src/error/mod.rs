//! Error types of the vault.

pub mod app_error;
pub mod auth_error;
pub mod category_error;
pub mod crypto_error;
pub mod entry_error;
pub mod notation;
pub mod password_generation_error;
pub mod serializable_error;
pub mod vault_error;
