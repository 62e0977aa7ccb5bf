//! Categories of entries, and the entries marked as favourites.

pub mod category;
pub mod category_collection;
pub mod favorite_collection;
