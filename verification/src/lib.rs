//! A local password vault: the key hierarchy and the authentication that
//! guard it, its sealed entries with their categories, favourites and search,
//! and its password generator.

pub mod _vault;
pub mod auth;
pub mod category_favorite;
pub mod clock;
pub mod crypto;
pub mod entry;
pub mod error;
pub mod helpers;
pub mod ids;
pub mod text;
