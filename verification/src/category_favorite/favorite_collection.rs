//! The entries that a user has marked as favourites.

use vstd::prelude::*;
use crate::ids::holds_id;
use crate::ids::insert_id;
use crate::ids::lemma_with;
use crate::ids::lemma_without;
use crate::ids::remove_id;
use crate::ids::with;
use crate::ids::without;

verus! {

/// What a [`FavoriteCollection`] holds, as plain values.
pub struct FavoritesView {
    /// The favourites, each once, in the order in which they were marked.
    pub entries: Seq<u128>,
    /// The count kept beside them.
    pub count: usize,
}

/// The set of favourites, with a count of its own: the count goes up with
/// every marking, also of an entry that is marked already, and down with
/// every unmarking that finds the entry. It stops at the ends of its range.
#[derive(Debug)]
pub struct FavoriteCollection {
    favorite_entries: Vec<u128>,
    entry_count: usize,
}

impl View for FavoriteCollection {
    type V = FavoritesView;

    closed spec fn view(&self) -> FavoritesView {
        FavoritesView { entries: self.favorite_entries@, count: self.entry_count }
    }
}

impl FavoriteCollection {
    /// No favourites.
    pub fn new() -> (favorites: Self)
        ensures
            favorites@ == (FavoritesView { entries: Seq::empty(), count: 0 }),
    {
        Self { favorite_entries: Vec::new(), entry_count: 0 }
    }

    /// The favourites as they were stored.
    pub fn from_parts(favorite_entries: Vec<u128>, entry_count: usize) -> (favorites: Self)
        ensures
            favorites@ == (FavoritesView { entries: favorite_entries@, count: entry_count }),
    {
        Self { favorite_entries, entry_count }
    }

    /// Marks an entry, and tells whether it was not marked before.
    pub fn add_favorite(&mut self, entry_id: u128) -> (added: bool)
        ensures
            added == !old(self)@.entries.contains(entry_id),
            final(self)@.entries == with(old(self)@.entries, entry_id),
            final(self)@.count == if old(self)@.count == usize::MAX {
                usize::MAX
            } else {
                (old(self)@.count + 1) as usize
            },
            old(self)@.entries.no_duplicates() ==> final(self)@.entries.no_duplicates(),
    {
        proof {
            lemma_with(self@.entries, entry_id);
        }
        self.entry_count = self.entry_count.saturating_add(1);
        insert_id(&mut self.favorite_entries, entry_id)
    }

    /// Unmarks an entry, and tells whether it was marked.
    pub fn remove_favorite(&mut self, entry_id: &u128) -> (removed: bool)
        ensures
            removed == old(self)@.entries.contains(*entry_id),
            final(self)@.entries == without(old(self)@.entries, *entry_id),
            final(self)@.count == if removed && old(self)@.count > 0 {
                (old(self)@.count - 1) as usize
            } else {
                old(self)@.count
            },
            old(self)@.entries.no_duplicates() ==> final(self)@.entries.no_duplicates(),
    {
        proof {
            lemma_without(self@.entries, *entry_id);
        }
        if remove_id(&mut self.favorite_entries, *entry_id) {
            self.entry_count = self.entry_count.saturating_sub(1);
            true
        } else {
            false
        }
    }

    /// Marks an unmarked entry and unmarks a marked one, and tells whether
    /// the entry is marked now. The count stays as it is.
    pub fn toggle_favorite(&mut self, entry_id: u128) -> (marked: bool)
        ensures
            marked == !old(self)@.entries.contains(entry_id),
            final(self)@.entries == if marked {
                with(old(self)@.entries, entry_id)
            } else {
                without(old(self)@.entries, entry_id)
            },
            final(self)@.count == old(self)@.count,
            old(self)@.entries.no_duplicates() ==> final(self)@.entries.no_duplicates(),
    {
        proof {
            lemma_with(self@.entries, entry_id);
            lemma_without(self@.entries, entry_id);
        }
        if holds_id(&self.favorite_entries, entry_id) {
            remove_id(&mut self.favorite_entries, entry_id);
            false
        } else {
            insert_id(&mut self.favorite_entries, entry_id);
            true
        }
    }

    /// Tells whether an entry is marked.
    pub fn is_favorite(&self, entry_id: &u128) -> (marked: bool)
        ensures
            marked == self@.entries.contains(*entry_id),
    {
        holds_id(&self.favorite_entries, *entry_id)
    }

    /// All favourites.
    pub fn get_all_favorites(&self) -> (entries: &Vec<u128>)
        ensures
            entries@ == self@.entries,
    {
        &self.favorite_entries
    }

    /// The count kept beside the favourites.
    pub fn favorite_count(&self) -> (count: usize)
        ensures
            count == self@.count,
    {
        self.entry_count
    }
}

} // verus!
