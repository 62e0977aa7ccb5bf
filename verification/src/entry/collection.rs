//! The entries of a vault together with their categories, their favourites
//! and the index by which they are found.

use vstd::prelude::*;
use vstd::string::StringExecFns;
use vstd::utf8::encode_utf8;
use crate::category_favorite::category_collection::CategoryCollection;
use crate::category_favorite::category_collection::has_id;
use crate::category_favorite::category_collection::has_name;
use crate::category_favorite::category_collection::is_tidy;
use crate::category_favorite::category_collection::lemma_put_has;
use crate::category_favorite::category_collection::place_named;
use crate::category_favorite::category_collection::place_with_id;
use crate::category_favorite::category_collection::put;
use crate::category_favorite::category_collection::ShelfView;
use crate::category_favorite::category_collection::shelved;
use crate::category_favorite::category_collection::unshelved;
use crate::category_favorite::favorite_collection::FavoriteCollection;
use crate::category_favorite::favorite_collection::FavoritesView;
use crate::clock::now;
use crate::clock::Timestamp;
use crate::crypto::key_hierarchy::KeyHierarchy;
use crate::entry::entry::can_be_made;
use crate::entry::entry::DecryptedEntry;
use crate::entry::entry::Entry;
use crate::entry::entry::EntryView;
use crate::entry::entry::reports_making_fault;
use crate::entry::overview::EntryData;
use crate::entry::overview::EntryOverview;
use crate::entry::overview::reports_entry_fault;
use crate::entry::search::entered;
use crate::entry::search::entered_if;
use crate::entry::search::SearchIndex;
use crate::entry::search::SearchIndexView;
use crate::entry::search::SearchQuery;
use crate::entry::search::struck;
use crate::entry::search::struck_if;
use crate::entry::sensitive_data::field_read;
use crate::entry::sensitive_data::FieldFault;
use crate::entry::sensitive_data::nonce_for;
use crate::entry::sensitive_data::reports_field_fault;
use crate::entry::sensitive_data::text_view;
use crate::error::category_error::CategoryError;
use crate::error::crypto_error::CryptoError;
use crate::error::entry_error::EntryError;
use crate::ids::common_ids;
use crate::ids::fresh_id;
use crate::ids::unique_ids;
use crate::ids::with;
use crate::ids::without;
use crate::text::lemma_order_is_total;
use crate::text::lemma_order_is_transitive;
use crate::text::precedes_or_equals;
use crate::text::text_le;
use crate::text::trimmed;

verus! {

/// What an [`EntryCollection`] holds, as plain values.
pub struct CollectionView {
    pub entries: Seq<EntryView>,
    pub categories: Seq<ShelfView>,
    pub favorites: FavoritesView,
    pub search_index: SearchIndexView,
    pub entry_count: usize,
}

/// The entries of a vault and what is kept beside them. An entry is looked
/// up by its identifier; of several entries with one identifier the first
/// is the one found.
pub struct EntryCollection {
    pub entries: Vec<Entry>,
    pub categories: CategoryCollection,
    pub favorites: FavoriteCollection,
    pub search_index: SearchIndex,
    pub entry_count: usize,
}

/// The views of a list of entries.
pub open spec fn entries_view(entries: Vec<Entry>) -> Seq<EntryView> {
    Seq::new(entries@.len(), |i: int| entries@[i]@)
}

impl View for EntryCollection {
    type V = CollectionView;

    open spec fn view(&self) -> CollectionView {
        CollectionView {
            entries: entries_view(self.entries),
            categories: self.categories@,
            favorites: self.favorites@,
            search_index: self.search_index@,
            entry_count: self.entry_count,
        }
    }
}

/// Whether place `at` holds the first entry with the identifier.
pub open spec fn is_first_entry(entries: Seq<EntryView>, id: u128, at: int) -> bool {
    &&& 0 <= at < entries.len()
    &&& entries[at].id == id
    &&& forall|j: int| 0 <= j < at ==> (#[trigger] entries[j]).id != id
}

/// Whether some entry has the identifier.
pub open spec fn has_entry(entries: Seq<EntryView>, id: u128) -> bool {
    exists|at: int| 0 <= at < entries.len() && (#[trigger] entries[at]).id == id
}

/// Whether no two entries have the same identifier.
pub open spec fn has_unique_ids(entries: Seq<EntryView>) -> bool {
    forall|i: int, j: int|
        0 <= i < j < entries.len() ==> (#[trigger] entries[i]).id != (#[trigger] entries[j]).id
}

impl CollectionView {
    /// Whether the collection is in good order: no two entries have the same
    /// identifier, the categories are in good order, and no entry is marked
    /// as a favourite twice.
    pub open spec fn is_tidy(self) -> bool {
        &&& has_unique_ids(self.entries)
        &&& is_tidy(self.categories)
        &&& self.favorites.entries.no_duplicates()
    }
}

/// The place of the first entry with the identifier. Meaningful where some
/// entry has the identifier.
pub open spec fn place_of_entry(entries: Seq<EntryView>, id: u128) -> int {
    choose|at: int| is_first_entry(entries, id, at)
}

/// The first place with the identifier is the only first place with it.
pub proof fn lemma_place_of_entry(entries: Seq<EntryView>, id: u128, at: int)
    requires
        is_first_entry(entries, id, at),
    ensures
        has_entry(entries, id),
        place_of_entry(entries, id) == at,
{
    let chosen = place_of_entry(entries, id);
    if chosen < at {
        assert(entries[chosen].id != id);
    }
    if at < chosen {
        assert(entries[at].id != id);
    }
}

/// Whether the overview shows the entry.
pub open spec fn shows(overview: EntryOverview, entry: EntryView) -> bool {
    &&& overview.id == entry.id
    &&& overview.title@ == entry.title
    &&& text_view(overview.username) == entry.username
    &&& text_view(overview.url) == entry.url
    &&& overview.category_id == entry.category_id
    &&& text_view(overview.category_name) == entry.category_name
    &&& overview.favorite == entry.favorite
    &&& overview.created_at == entry.created_at
    &&& overview.updated_at == entry.updated_at
}

impl EntryCollection {
    /// No entries, no categories, no favourites.
    pub fn new() -> (collection: Self)
        ensures
            collection@.entries == Seq::<EntryView>::empty(),
            collection@.categories == Seq::<ShelfView>::empty(),
            collection@.favorites == (FavoritesView { entries: Seq::empty(), count: 0 }),
            collection@.search_index == (SearchIndexView {
                title_index: Seq::empty(),
                username_index: Seq::empty(),
                url_index: Seq::empty(),
            }),
            collection@.entry_count == 0,
    {
        let collection = Self {
            entries: Vec::new(),
            categories: CategoryCollection::new(),
            favorites: FavoriteCollection::new(),
            search_index: SearchIndex::new(),
            entry_count: 0,
        };
        assert(collection@.entries =~= Seq::<EntryView>::empty());
        collection
    }

    /// The place of the first entry with the identifier.
    pub fn find_entry(&self, id: &u128) -> (found: Option<usize>)
        ensures
            match found {
                Some(at) => is_first_entry(self@.entries, *id, at as int),
                None => !has_entry(self@.entries, *id),
            },
    {
        let mut at: usize = 0;
        while at < self.entries.len()
            invariant
                at <= self.entries.len(),
                forall|j: int| 0 <= j < at ==> (#[trigger] self@.entries[j]).id != *id,
            decreases self.entries.len() - at,
        {
            if *self.entries[at].id() == *id {
                return Some(at);
            }
            at = at + 1;
        }
        None
    }

    /// The entry with the identifier, with its password and notes in the
    /// clear.
    pub fn get_decrypted_entry(&self, id: &u128, key_hierarchy: &KeyHierarchy) -> (opened: Result<
        DecryptedEntry,
        EntryError,
    >)
        ensures
            match opened {
                Ok(clear) => {
                    let entry = self@.entries[place_of_entry(self@.entries, *id)];
                    &&& has_entry(self@.entries, *id)
                    &&& clear.id == *id
                    &&& clear.title@ == entry.title
                    &&& text_view(clear.username) == entry.username
                    &&& text_view(clear.url) == entry.url
                    &&& clear.category_id == entry.category_id
                    &&& text_view(clear.category_name) == entry.category_name
                    &&& clear.favorite == entry.favorite
                    &&& clear.created_at == entry.created_at
                    &&& clear.updated_at == entry.updated_at
                    &&& field_read(key_hierarchy@.mek, entry.sensitive_data.password) == Ok::<
                        Option<Seq<char>>,
                        FieldFault,
                    >(text_view(clear.password))
                    &&& field_read(key_hierarchy@.mek, entry.sensitive_data.notes) == Ok::<
                        Option<Seq<char>>,
                        FieldFault,
                    >(text_view(clear.notes))
                },
                Err(e) => if has_entry(self@.entries, *id) {
                    let entry = self@.entries[place_of_entry(self@.entries, *id)];
                    match field_read(key_hierarchy@.mek, entry.sensitive_data.password) {
                        Err(fault) => reports_field_fault(e, fault),
                        Ok(_) => match field_read(
                            key_hierarchy@.mek,
                            entry.sensitive_data.notes,
                        ) {
                            Err(fault) => reports_field_fault(e, fault),
                            Ok(_) => false,
                        },
                    }
                } else {
                    e == EntryError::NotFound(*id)
                },
            },
    {
        match self.find_entry(id) {
            Some(at) => {
                proof {
                    lemma_place_of_entry(self@.entries, *id, at as int);
                }
                self.entries[at].decrypt(key_hierarchy)
            },
            None => Err(EntryError::NotFound(*id)),
        }
    }

    /// What the dashboard shows of the entry with the identifier.
    pub fn get_entry_overview(&self, id: &u128) -> (overview: Result<EntryOverview, EntryError>)
        ensures
            match overview {
                Ok(shown) => has_entry(self@.entries, *id) && shown.id == *id && shows(
                    shown,
                    self@.entries[place_of_entry(self@.entries, *id)],
                ),
                Err(e) => !has_entry(self@.entries, *id) && e == EntryError::NotFound(*id),
            },
    {
        match self.find_entry(id) {
            Some(at) => {
                proof {
                    lemma_place_of_entry(self@.entries, *id, at as int);
                }
                Ok(self.entries[at].to_overview())
            },
            None => Err(EntryError::NotFound(*id)),
        }
    }

    /// What the dashboard shows of every entry, in the order in which the
    /// entries were created.
    pub fn get_all_overviews(&self) -> (overviews: Vec<EntryOverview>)
        ensures
            overviews@.len() == self@.entries.len(),
            forall|i: int|
                0 <= i < overviews@.len() ==> shows(#[trigger] overviews@[i], self@.entries[i]),
    {
        let mut overviews: Vec<EntryOverview> = Vec::new();
        let mut at: usize = 0;
        while at < self.entries.len()
            invariant
                at <= self.entries.len(),
                overviews@.len() == at,
                forall|i: int| 0 <= i < at ==> shows(#[trigger] overviews@[i], self@.entries[i]),
            decreases self.entries.len() - at,
        {
            overviews.push(self.entries[at].to_overview());
            at = at + 1;
        }
        overviews
    }
}

/// Why an entry cannot be filed under a category name.
pub enum NameFault {
    /// The name is empty once trimmed.
    Invalid(Seq<char>),
    /// The name, once trimmed, is taken.
    Duplicate(Seq<char>),
}

/// Whether the error `e` reports the fault `fault` of a category name.
pub open spec fn reports_name_fault(e: EntryError, fault: NameFault) -> bool {
    match fault {
        NameFault::Invalid(name) => e matches EntryError::CategoryError(
            CategoryError::InvalidName(refused),
        ) && refused@ == name,
        NameFault::Duplicate(name) => e matches EntryError::CategoryError(
            CategoryError::DuplicateName(refused),
        ) && refused@ == name,
    }
}

/// The categories after an entry is to be filed under a name, and the
/// category it is filed under: none for no name, the first category of that
/// name where there is one, else a new category of the trimmed name with
/// the identifier `fresh`.
pub open spec fn filed(categories: Seq<ShelfView>, name: Option<Seq<char>>, fresh: u128) -> Result<
    (Seq<ShelfView>, Option<u128>),
    NameFault,
> {
    match name {
        None => Ok((categories, None)),
        Some(n) => if has_name(categories, n) {
            Ok(
                (
                    categories,
                    Some(
                        categories[place_named(
                            categories,
                            n,
                        )].id,
                    ),
                ),
            )
        } else if trimmed(n).len() == 0 {
            Err(NameFault::Invalid(trimmed(n)))
        } else if has_name(categories, trimmed(n)) {
            Err(NameFault::Duplicate(trimmed(n)))
        } else {
            Ok(
                (
                    put(categories, ShelfView { id: fresh, name: trimmed(n), entries: Seq::empty() }),
                    Some(fresh),
                ),
            )
        },
    }
}

/// The favourites after an entry is marked.
pub open spec fn marked(favorites: FavoritesView, id: u128) -> FavoritesView {
    FavoritesView {
        entries: with(favorites.entries, id),
        count: if favorites.count == usize::MAX {
            usize::MAX
        } else {
            (favorites.count + 1) as usize
        },
    }
}

/// The favourites after an entry is unmarked.
pub open spec fn unmarked(favorites: FavoritesView, id: u128) -> FavoritesView {
    FavoritesView {
        entries: without(favorites.entries, id),
        count: if favorites.entries.contains(id) && favorites.count > 0 {
            (favorites.count - 1) as usize
        } else {
            favorites.count
        },
    }
}

/// The index after an entry is entered under its three texts.
pub open spec fn indexed(
    index: SearchIndexView,
    id: u128,
    title: Seq<char>,
    username: Option<Seq<char>>,
    url: Option<Seq<char>>,
) -> SearchIndexView {
    SearchIndexView {
        title_index: entered(index.title_index, title, id),
        username_index: entered_if(index.username_index, username, id),
        url_index: entered_if(index.url_index, url, id),
    }
}

/// The index after an entry is struck from under its three texts.
pub open spec fn unindexed(
    index: SearchIndexView,
    id: u128,
    title: Seq<char>,
    username: Option<Seq<char>>,
    url: Option<Seq<char>>,
) -> SearchIndexView {
    SearchIndexView {
        title_index: struck(index.title_index, title, id),
        username_index: struck_if(index.username_index, username, id),
        url_index: struck_if(index.url_index, url, id),
    }
}

/// One more than the count, as far as the count goes.
pub open spec fn one_more(count: usize) -> usize {
    if count == usize::MAX {
        usize::MAX
    } else {
        (count + 1) as usize
    }
}

/// One less than the count, as far as the count goes.
pub open spec fn one_less(count: usize) -> usize {
    if count == 0 {
        0
    } else {
        (count - 1) as usize
    }
}

/// A copy of an optional text.
fn copy_of(text: &Option<String>) -> (copy: Option<String>)
    ensures
        text_view(copy) == text_view(*text),
{
    match text {
        Some(t) => Some(t.clone()),
        None => None,
    }
}

impl EntryCollection {
    /// Finds or makes the category for a name.
    fn category_for(&mut self, name: &Option<String>, fresh: u128) -> (category: Result<
        Option<u128>,
        EntryError,
    >)
        ensures
            final(self)@.entries == old(self)@.entries,
            final(self)@.favorites == old(self)@.favorites,
            final(self)@.search_index == old(self)@.search_index,
            final(self)@.entry_count == old(self)@.entry_count,
            is_tidy(old(self)@.categories) ==> is_tidy(final(self)@.categories),
            match category {
                Ok(id) => filed(old(self)@.categories, text_view(*name), fresh) == Ok::<
                    (Seq<ShelfView>, Option<u128>),
                    NameFault,
                >((final(self)@.categories, id)) && (id matches Some(c) ==> has_id(
                    final(self)@.categories,
                    c,
                )),
                Err(e) => filed(old(self)@.categories, text_view(*name), fresh) matches Err(fault)
                    && reports_name_fault(e, fault) && final(self)@.categories == old(self)@.categories,
            },
    {
        match name {
            Some(cat_name) => match self.categories.get_category_id_by_name(cat_name.as_str()) {
                Some(id) => Ok(Some(id)),
                None => match self.categories.create_category_with_id(cat_name.clone(), fresh) {
                    Ok(id) => {
                        proof {
                            let before = old(self)@.categories;
                            let shelf = ShelfView {
                                id: fresh,
                                name: trimmed(cat_name@),
                                entries: Seq::empty(),
                            };
                            lemma_put_has(before, shelf);
                        }
                        Ok(Some(id))
                    },
                    Err(e) => Err(EntryError::CategoryError(e)),
                },
            },
            None => Ok(None),
        }
    }

    /// Adds an entry made of the input, with a fresh identifier, and returns
    /// the identifier. The entry is filed under its category, which is made
    /// if there is none of that name yet, marked as a favourite if the input
    /// says so, and entered into the index.
    ///
    /// The identifiers, the stamp and the nonces are drawn here, a nonce
    /// only for a field that is stored, so the outcome is that of
    /// [`Self::create_entry_with`] for some such material. Where the
    /// operating system gives no random bytes, that is reported as a failure
    /// to encrypt and nothing changes.
    pub fn create_entry(&mut self, entry_data: EntryData, key_hierarchy: &KeyHierarchy) -> (created:
        Result<u128, EntryError>)
        ensures
            is_tidy(old(self)@.categories) ==> is_tidy(final(self)@.categories),
            old(self)@.favorites.entries.no_duplicates() ==> final(self)@.favorites.entries.no_duplicates(),
            ((created matches Err(EntryError::EncryptionError(CryptoError::EncryptionFailed)))
                && final(self)@ == old(self)@) || (exists|
                entry_id: u128,
                category_id: u128,
                stamp: Timestamp,
                password_nonce: Seq<u8>,
                notes_nonce: Seq<u8>,
            |
                #[trigger] old(self)@.is_addition(
                    final(self)@,
                    created,
                    entry_data,
                    key_hierarchy@.mek,
                    entry_id,
                    category_id,
                    stamp,
                    password_nonce,
                    notes_nonce,
                )),
            match created {
                Ok(id) => {
                    &&& can_be_made(entry_data, key_hierarchy@.mek)
                    &&& final(self)@.entries.len() == old(self)@.entries.len() + 1
                    &&& final(self)@.entries.drop_last() == old(self)@.entries
                    &&& final(self)@.entries.last().id == id
                    &&& final(self)@.favorites == if entry_data.favorite {
                        marked(old(self)@.favorites, id)
                    } else {
                        old(self)@.favorites
                    }
                    &&& final(self)@.search_index == indexed(
                        old(self)@.search_index,
                        id,
                        entry_data.title@,
                        text_view(entry_data.username),
                        text_view(entry_data.url),
                    )
                    &&& final(self)@.entry_count == one_more(old(self)@.entry_count)
                },
                Err(e) => {
                    &&& final(self)@.entries == old(self)@.entries
                    &&& final(self)@.favorites == old(self)@.favorites
                    &&& final(self)@.search_index == old(self)@.search_index
                    &&& final(self)@.entry_count == old(self)@.entry_count
                },
            },
    {
        let password_nonce = match nonce_for(&entry_data.password) {
            Some(nonce) => nonce,
            None => {
                return Err(EntryError::EncryptionError(CryptoError::EncryptionFailed));
            },
        };
        let notes_nonce = match nonce_for(&entry_data.notes) {
            Some(nonce) => nonce,
            None => {
                return Err(EntryError::EncryptionError(CryptoError::EncryptionFailed));
            },
        };
        let entry_id = match fresh_id() {
            Some(id) => id,
            None => {
                return Err(EntryError::EncryptionError(CryptoError::EncryptionFailed));
            },
        };
        let category_id = match fresh_id() {
            Some(id) => id,
            None => {
                return Err(EntryError::EncryptionError(CryptoError::EncryptionFailed));
            },
        };
        let stamp = now();
        let ghost input = entry_data;
        let created = self.create_entry_with(
            entry_data,
            key_hierarchy,
            entry_id,
            category_id,
            stamp,
            password_nonce,
            notes_nonce,
        );
        assert(old(self)@.is_addition(
            self@,
            created,
            input,
            key_hierarchy@.mek,
            entry_id,
            category_id,
            stamp,
            password_nonce@,
            notes_nonce@,
        ));
        created
    }

    /// Adds an entry made of the input with the material given: the
    /// identifier of the entry, the identifier for a category that has to be
    /// made, the stamp, and the nonces for the password and the notes.
    ///
    /// A category that had to be made stays also where the entry is refused.
    pub fn create_entry_with(
        &mut self,
        entry_data: EntryData,
        key_hierarchy: &KeyHierarchy,
        entry_id: u128,
        category_id: u128,
        stamp: Timestamp,
        password_nonce: [u8; 12],
        notes_nonce: [u8; 12],
    ) -> (created: Result<u128, EntryError>)
        ensures
            old(self)@.is_tidy() && !has_entry(old(self)@.entries, entry_id) ==> final(self)@.is_tidy(),
            is_tidy(old(self)@.categories) ==> is_tidy(final(self)@.categories),
            old(self)@.favorites.entries.no_duplicates() ==> final(self)@.favorites.entries.no_duplicates(),
            old(self)@.is_addition(
                final(self)@,
                created,
                entry_data,
                key_hierarchy@.mek,
                entry_id,
                category_id,
                stamp,
                password_nonce@,
                notes_nonce@,
            ),
    {
        let category = match self.category_for(&entry_data.category_name, category_id) {
            Ok(category) => category,
            Err(e) => {
                return Err(e);
            },
        };
        let entry = match Entry::new_internal_with(
            entry_data,
            category,
            key_hierarchy,
            entry_id,
            stamp,
            password_nonce,
            notes_nonce,
        ) {
            Ok(entry) => entry,
            Err(e) => {
                return Err(e);
            },
        };
        if let Some(cat_id) = category {
            match self.categories.add_entry_to_category(&cat_id, entry_id) {
                Ok(()) => {},
                Err(e) => {
                    return Err(EntryError::CategoryError(e));
                },
            }
        }
        if entry.favorite() {
            self.favorites.add_favorite(entry_id);
        }
        self.search_index.add_entry(entry_id, entry.title(), entry.username_held(), entry.url_held());
        let ghost entry_view = entry@;
        self.entries.push(entry);
        self.entry_count = self.entry_count.saturating_add(1);
        proof {
            assert(self@.entries =~= old(self)@.entries.push(entry_view));
            assert(self@.entries.drop_last() =~= old(self)@.entries);
            if has_unique_ids(old(self)@.entries) && !has_entry(old(self)@.entries, entry_id) {
                assert forall|i: int, j: int| 0 <= i < j < self@.entries.len() implies (
                #[trigger] self@.entries[i]).id != (#[trigger] self@.entries[j]).id by {
                    assert(self@.entries[i] == old(self)@.entries[i]);
                    if j < old(self)@.entries.len() {
                        assert(self@.entries[j] == old(self)@.entries[j]);
                    }
                }
            }
        }
        Ok(entry_id)
    }

    /// Removes the entry with the identifier: from the entries, from its
    /// category, from the favourites and from the index. Where the entry
    /// names a category that does not exist, it is removed all the same and
    /// the missing category is reported.
    pub fn delete_entry(&mut self, id: &u128) -> (deleted: Result<(), EntryError>)
        ensures
            old(self)@.is_tidy() ==> final(self)@.is_tidy(),
            if has_entry(old(self)@.entries, *id) {
                let at = place_of_entry(old(self)@.entries, *id);
                let entry = old(self)@.entries[at];
                &&& final(self)@.entries == old(self)@.entries.remove(at)
                &&& final(self)@.entry_count == one_less(old(self)@.entry_count)
                &&& final(self)@.categories == unshelved(
                    old(self)@.categories,
                    entry.category_id,
                    *id,
                )
                &&& final(self)@.favorites == if entry.favorite {
                    unmarked(old(self)@.favorites, *id)
                } else {
                    old(self)@.favorites
                }
                &&& final(self)@.search_index == unindexed(
                    old(self)@.search_index,
                    *id,
                    entry.title,
                    entry.username,
                    entry.url,
                )
                &&& match deleted {
                    Ok(()) => entry.category_id matches Some(c) ==> has_id(
                        old(self)@.categories,
                        c,
                    ),
                    Err(e) => entry.category_id matches Some(c) && !has_id(
                        old(self)@.categories,
                        c,
                    ) && e == EntryError::CategoryError(CategoryError::NotFound(c)),
                }
            } else {
                deleted == Err::<(), EntryError>(EntryError::NotFound(*id)) && final(self)@ == old(self)@
            },
    {
        let at = match self.find_entry(id) {
            Some(at) => at,
            None => {
                return Err(EntryError::NotFound(*id));
            },
        };
        proof {
            lemma_place_of_entry(self@.entries, *id, at as int);
        }
        let entry = self.entries.remove(at);
        proof {
            assert(self@.entries =~= old(self)@.entries.remove(at as int));
            if has_unique_ids(old(self)@.entries) {
                assert forall|i: int, j: int| 0 <= i < j < self@.entries.len() implies (
                #[trigger] self@.entries[i]).id != (#[trigger] self@.entries[j]).id by {
                    let a = if i < at {
                        i
                    } else {
                        i + 1
                    };
                    let b = if j < at {
                        j
                    } else {
                        j + 1
                    };
                    assert(self@.entries[i] == old(self)@.entries[a]);
                    assert(self@.entries[j] == old(self)@.entries[b]);
                }
            }
        }
        self.entry_count = self.entry_count.saturating_sub(1);
        let unfiled = match entry.category_held() {
            Some(category_id) => self.categories.remove_entry_from_category(&category_id, id),
            None => Ok(()),
        };
        if entry.favorite() {
            self.favorites.remove_favorite(id);
        }
        self.search_index.remove_entry(*id, entry.title(), entry.username_held(), entry.url_held());
        match unfiled {
            Ok(()) => Ok(()),
            Err(e) => Err(EntryError::CategoryError(e)),
        }
    }
}

/// The category that an entry is filed under although there is no such
/// category, if there is one.
pub open spec fn dangling(categories: Seq<ShelfView>, category: Option<u128>) -> Option<u128> {
    match category {
        Some(c) => if has_id(categories, c) {
            None
        } else {
            Some(c)
        },
        None => None,
    }
}

/// The categories after an entry has moved from one category to another.
pub open spec fn moved(
    categories: Seq<ShelfView>,
    from: Option<u128>,
    to: Option<u128>,
    entry: u128,
) -> Seq<ShelfView> {
    if from == to {
        categories
    } else {
        shelved(
            unshelved(categories, from, entry),
            to,
            entry,
        )
    }
}

/// The favourites after an entry has changed its mark.
pub open spec fn remarked(favorites: FavoritesView, was: bool, is: bool, id: u128) -> FavoritesView {
    if was == is {
        favorites
    } else if is {
        marked(favorites, id)
    } else {
        unmarked(favorites, id)
    }
}

impl CollectionView {
    /// Whether `after` and `created` are what comes of adding an entry made
    /// of `input` to this collection, with `entry_id` for the entry,
    /// `category_id` for a category that has to be made, the stamp and the
    /// nonces for the password and the notes.
    ///
    /// A category name that cannot be filed is reported, and nothing
    /// changes. An input that cannot be made into an entry is reported, and
    /// only a category that had to be made stays. Else the entry comes last
    /// among the entries, is filed under its category, marked as a favourite
    /// if the input says so, and entered into the index.
    pub open spec fn is_addition(
        self,
        after: CollectionView,
        created: Result<u128, EntryError>,
        input: EntryData,
        mek: Seq<u8>,
        entry_id: u128,
        category_id: u128,
        stamp: Timestamp,
        password_nonce: Seq<u8>,
        notes_nonce: Seq<u8>,
    ) -> bool {
        match filed(
            self.categories,
            text_view(input.category_name),
            category_id,
        ) {
            Err(fault) => created matches Err(e) && reports_name_fault(e, fault)
                && after == self,
            Ok((categories, category)) => match created {
                Ok(id) => {
                    &&& id == entry_id
                    &&& can_be_made(input, mek)
                    &&& after.entries.len() == self.entries.len() + 1
                    &&& after.entries.drop_last() == self.entries
                    &&& after.entries.last().id == entry_id
                    &&& after.entries.last().created_at == stamp
                    &&& after.entries.last().updated_at == stamp
                    &&& after.entries.last().is_made_of(
                        input,
                        category,
                        mek,
                        password_nonce,
                        notes_nonce,
                    )
                    &&& after.categories == shelved(
                        categories,
                        category,
                        entry_id,
                    )
                    &&& after.favorites == if input.favorite {
                        marked(self.favorites, entry_id)
                    } else {
                        self.favorites
                    }
                    &&& after.search_index == indexed(
                        self.search_index,
                        entry_id,
                        input.title@,
                        text_view(input.username),
                        text_view(input.url),
                    )
                    &&& after.entry_count == one_more(self.entry_count)
                },
                Err(e) => {
                    &&& reports_making_fault(e, input, mek)
                    &&& after == (CollectionView { categories, ..self })
                },
            },
        }
    }

    /// Whether `after` and `updated` are what comes of replacing the entry
    /// with the identifier `id` by one made of `input`, with `category_id`
    /// for a category that has to be made, the stamp and the nonces for the
    /// password and the notes.
    ///
    /// The input is judged first, then the category is found or made, then
    /// the entry is looked up, then its old category, then the fields are
    /// sealed. What fails first is reported; apart from a category that had
    /// to be made, nothing changes then. Else the new entry stands in the
    /// place of the old one and keeps its identifier and the stamp of its
    /// making, and its category, its mark as a favourite and the index are
    /// brought up to date.
    pub open spec fn is_replacement(
        self,
        after: CollectionView,
        updated: Result<(), EntryError>,
        id: u128,
        input: EntryData,
        mek: Seq<u8>,
        category_id: u128,
        stamp: Timestamp,
        password_nonce: Seq<u8>,
        notes_nonce: Seq<u8>,
    ) -> bool {
        match input.fault() {
            Some(fault) => updated matches Err(e) && reports_entry_fault(
                e,
                fault,
            ) && after == self,
            None => match filed(
                self.categories,
                text_view(input.category_name),
                category_id,
            ) {
                Err(fault) => updated matches Err(e) && reports_name_fault(e, fault)
                    && after == self,
                Ok((categories, category)) => if !has_entry(self.entries, id) {
                    updated == Err::<(), EntryError>(EntryError::NotFound(id)) && after
                        == (CollectionView { categories, ..self })
                } else {
                    let at = place_of_entry(self.entries, id);
                    let before = self.entries[at];
                    if before.category_id != category && dangling(
                        categories,
                        before.category_id,
                    ) is Some {
                        updated == Err::<(), EntryError>(
                            EntryError::CategoryError(
                                CategoryError::NotFound(
                                    dangling(categories, before.category_id)->Some_0,
                                ),
                            ),
                        ) && after == (CollectionView { categories, ..self })
                    } else {
                        match updated {
                            Err(e) => reports_making_fault(e, input, mek)
                                && after == (CollectionView {
                                categories,
                                ..self
                            }),
                            Ok(()) => {
                                &&& can_be_made(input, mek)
                                &&& after.entries == self.entries.update(
                                    at,
                                    after.entries[at],
                                )
                                &&& after.entries[at].id == id
                                &&& after.entries[at].created_at == before.created_at
                                &&& after.entries[at].updated_at == stamp
                                &&& after.entries[at].is_made_of(
                                    input,
                                    category,
                                    mek,
                                    password_nonce,
                                    notes_nonce,
                                )
                                &&& after.categories == moved(
                                    categories,
                                    before.category_id,
                                    category,
                                    id,
                                )
                                &&& after.favorites == remarked(
                                    self.favorites,
                                    before.favorite,
                                    input.favorite,
                                    id,
                                )
                                &&& after.search_index == indexed(
                                    unindexed(
                                        self.search_index,
                                        id,
                                        before.title,
                                        before.username,
                                        before.url,
                                    ),
                                    id,
                                    input.title@,
                                    text_view(input.username),
                                    text_view(input.url),
                                )
                            },
                        }
                    }
                },
            },
        }
    }
}

impl EntryCollection {
    /// Replaces the entry with the identifier by one made of the input, and
    /// brings its category, its mark as a favourite and the index up to date.
    /// A category for the new name is made if there is none yet.
    ///
    /// Apart from a category that had to be made, nothing changes on
    /// failure.
    ///
    /// The input is judged first. Only then are the identifier for a new
    /// category, the stamp and the nonces drawn, a nonce only for a field
    /// that is stored, so the outcome is that of
    /// [`Self::update_entry_with`] for some such material. Where the
    /// operating system gives no random bytes, that is reported as a failure
    /// to encrypt and nothing changes.
    pub fn update_entry(&mut self, id: &u128, changes: EntryData, key_hierarchy: &KeyHierarchy) -> (updated:
        Result<(), EntryError>)
        ensures
            old(self)@.is_tidy() ==> final(self)@.is_tidy(),
            final(self)@.entry_count == old(self)@.entry_count,
            final(self)@.entries.len() == old(self)@.entries.len(),
            ((updated matches Err(EntryError::EncryptionError(CryptoError::EncryptionFailed)))
                && final(self)@ == old(self)@) || (exists|
                category_id: u128,
                stamp: Timestamp,
                password_nonce: Seq<u8>,
                notes_nonce: Seq<u8>,
            |
                #[trigger] old(self)@.is_replacement(
                    final(self)@,
                    updated,
                    *id,
                    changes,
                    key_hierarchy@.mek,
                    category_id,
                    stamp,
                    password_nonce,
                    notes_nonce,
                )),
            changes.fault() matches Some(fault) ==> updated matches Err(e) && reports_entry_fault(
                e,
                fault,
            ) && final(self)@ == old(self)@,
            match updated {
                Ok(()) => {
                    let at = place_of_entry(old(self)@.entries, *id);
                    let before = old(self)@.entries[at];
                    &&& has_entry(old(self)@.entries, *id)
                    &&& can_be_made(changes, key_hierarchy@.mek)
                    &&& final(self)@.entries == old(self)@.entries.update(
                        at,
                        final(self)@.entries[at],
                    )
                    &&& final(self)@.entries[at].id == *id
                    &&& final(self)@.entries[at].created_at == before.created_at
                    &&& final(self)@.entries[at].title == changes.title@
                    &&& final(self)@.favorites == remarked(
                        old(self)@.favorites,
                        before.favorite,
                        changes.favorite,
                        *id,
                    )
                    &&& final(self)@.search_index == indexed(
                        unindexed(
                            old(self)@.search_index,
                            *id,
                            before.title,
                            before.username,
                            before.url,
                        ),
                        *id,
                        changes.title@,
                        text_view(changes.username),
                        text_view(changes.url),
                    )
                },
                Err(e) => {
                    &&& final(self)@.entries == old(self)@.entries
                    &&& final(self)@.favorites == old(self)@.favorites
                    &&& final(self)@.search_index == old(self)@.search_index
                },
            },
    {
        match changes.validate() {
            Ok(()) => {},
            Err(e) => {
                assert(old(self)@.is_replacement(
                    self@,
                    Err::<(), EntryError>(e),
                    *id,
                    changes,
                    key_hierarchy@.mek,
                    0,
                    Timestamp { seconds: 0, nanos: 0 },
                    Seq::empty(),
                    Seq::empty(),
                ));
                return Err(e);
            },
        }
        let password_nonce = match nonce_for(&changes.password) {
            Some(nonce) => nonce,
            None => {
                return Err(EntryError::EncryptionError(CryptoError::EncryptionFailed));
            },
        };
        let notes_nonce = match nonce_for(&changes.notes) {
            Some(nonce) => nonce,
            None => {
                return Err(EntryError::EncryptionError(CryptoError::EncryptionFailed));
            },
        };
        let category_id = match fresh_id() {
            Some(id) => id,
            None => {
                return Err(EntryError::EncryptionError(CryptoError::EncryptionFailed));
            },
        };
        let stamp = now();
        let ghost input = changes;
        let updated = self.update_entry_with(
            id,
            changes,
            key_hierarchy,
            category_id,
            stamp,
            password_nonce,
            notes_nonce,
        );
        assert(old(self)@.is_replacement(
            self@,
            updated,
            *id,
            input,
            key_hierarchy@.mek,
            category_id,
            stamp,
            password_nonce@,
            notes_nonce@,
        ));
        updated
    }

    /// Replaces the entry with the identifier by one made of the input, with
    /// the material given: the identifier for a category that has to be
    /// made, the stamp, and the nonces for the password and the notes.
    ///
    /// The input is judged first, then the category is found or made, then
    /// the entry is looked up, then its old category, then the fields are
    /// sealed. Apart from a category that had to be made, nothing changes on
    /// failure.
    pub fn update_entry_with(
        &mut self,
        id: &u128,
        changes: EntryData,
        key_hierarchy: &KeyHierarchy,
        category_id: u128,
        stamp: Timestamp,
        password_nonce: [u8; 12],
        notes_nonce: [u8; 12],
    ) -> (updated: Result<(), EntryError>)
        ensures
            old(self)@.is_tidy() ==> final(self)@.is_tidy(),
            final(self)@.entry_count == old(self)@.entry_count,
            final(self)@.entries.len() == old(self)@.entries.len(),
            old(self)@.is_replacement(
                final(self)@,
                updated,
                *id,
                changes,
                key_hierarchy@.mek,
                category_id,
                stamp,
                password_nonce@,
                notes_nonce@,
            ),
    {
        match changes.validate() {
            Ok(()) => {},
            Err(e) => {
                return Err(e);
            },
        }
        let category = match self.category_for(&changes.category_name, category_id) {
            Ok(category) => category,
            Err(e) => {
                return Err(e);
            },
        };
        let ghost categories = self@.categories;
        let at = match self.find_entry(id) {
            Some(at) => at,
            None => {
                return Err(EntryError::NotFound(*id));
            },
        };
        proof {
            lemma_place_of_entry(self@.entries, *id, at as int);
        }
        let old_category = self.entries[at].category_held();
        let old_favorite = self.entries[at].favorite();
        let old_title = String::from_str(self.entries[at].title());
        let old_username = copy_of(self.entries[at].username_held());
        let old_url = copy_of(self.entries[at].url_held());
        let moves = match (old_category, category) {
            (Some(from), Some(to)) => from != to,
            (None, None) => false,
            _ => true,
        };
        if moves {
            if let Some(old_id) = old_category {
                if !self.categories.has_category(&old_id) {
                    return Err(EntryError::CategoryError(CategoryError::NotFound(old_id)));
                }
            }
        }
        let new_favorite = changes.favorite;
        let new_title = changes.title.clone();
        let new_username = copy_of(&changes.username);
        let new_url = copy_of(&changes.url);
        match self.entries[at].update_internal_with(
            changes,
            category,
            key_hierarchy,
            stamp,
            password_nonce,
            notes_nonce,
        ) {
            Ok(()) => {},
            Err(e) => {
                proof {
                    assert(self@.entries =~= old(self)@.entries);
                }
                return Err(e);
            },
        }
        proof {
            assert(self@.entries =~= old(self)@.entries.update(at as int, self@.entries[at as int]));
            if has_unique_ids(old(self)@.entries) {
                assert forall|i: int, j: int| 0 <= i < j < self@.entries.len() implies (
                #[trigger] self@.entries[i]).id != (#[trigger] self@.entries[j]).id by {
                    assert(self@.entries[i].id == old(self)@.entries[i].id);
                    assert(self@.entries[j].id == old(self)@.entries[j].id);
                }
            }
        }
        if moves {
            if let Some(old_id) = old_category {
                let _ = self.categories.remove_entry_from_category(&old_id, id);
            }
            if let Some(new_id) = category {
                let _ = self.categories.add_entry_to_category(&new_id, *id);
            }
        }
        if old_favorite != new_favorite {
            if new_favorite {
                self.favorites.add_favorite(*id);
            } else {
                self.favorites.remove_favorite(id);
            }
        }
        self.search_index.remove_entry(*id, old_title.as_str(), &old_username, &old_url);
        self.search_index.add_entry(*id, new_title.as_str(), &new_username, &new_url);
        Ok(())
    }
}

/// A category and the number of found entries that are filed under it.
#[derive(Debug)]
pub struct CategoryCount {
    pub id: u128,
    pub name: String,
    pub entry_count: usize,
}

/// What a search found.
#[derive(Debug)]
pub struct EnhancedSearchResults {
    /// The entries found, each once.
    pub entries: Vec<EntryOverview>,
    /// Their number.
    pub total_count: usize,
    /// The number of entries that the search would have found without its
    /// limit to a category.
    pub max_count: usize,
    /// The categories of the entries found, ordered by name, each with the
    /// number of found entries filed under it.
    pub category_distribution: Vec<CategoryCount>,
}

/// How many of the entries are filed under the category.
pub open spec fn filed_count(entries: Seq<EntryOverview>, category: u128) -> nat
    decreases entries.len(),
{
    if entries.len() == 0 {
        0
    } else {
        filed_count(entries.drop_last(), category) + if entries.last().category_id == Some(
            category,
        ) {
            1nat
        } else {
            0nat
        }
    }
}

/// Whether the names of the lines are in order.
pub open spec fn is_ordered(lines: Seq<CategoryCount>) -> bool {
    forall|i: int, j: int|
        0 <= i < j < lines.len() ==> precedes_or_equals(
            encode_utf8((#[trigger] lines[i]).name@),
            encode_utf8((#[trigger] lines[j]).name@),
        )
}

/// Whether some line counts the category.
pub open spec fn is_counted(lines: Seq<CategoryCount>, category: u128) -> bool {
    exists|i: int| 0 <= i < lines.len() && (#[trigger] lines[i]).id == category
}

/// Whether the lines are the distribution of the entries over the
/// categories: the lines are ordered by name; no category has two lines;
/// every line names a category that exists, by its name, and counts the
/// entries filed under it, of which there is at least one; and every
/// category that exists and has an entry filed under it has a line.
pub open spec fn is_distribution(
    lines: Seq<CategoryCount>,
    entries: Seq<EntryOverview>,
    categories: Seq<ShelfView>,
) -> bool {
    &&& is_ordered(lines)
    &&& forall|i: int, j: int|
        0 <= i < j < lines.len() ==> (#[trigger] lines[i]).id != (#[trigger] lines[j]).id
    &&& forall|i: int|
        0 <= i < lines.len() ==> {
            &&& has_id(categories, (#[trigger] lines[i]).id)
            &&& lines[i].name@ == categories[place_with_id(
                categories,
                lines[i].id,
            )].name
            &&& lines[i].entry_count == filed_count(entries, lines[i].id)
            &&& lines[i].entry_count > 0
        }
    &&& forall|k: int|
        0 <= k < entries.len() && (#[trigger] entries[k]).category_id is Some && has_id(
            categories,
            entries[k].category_id->Some_0,
        ) ==> is_counted(lines, entries[k].category_id->Some_0)
}

impl CollectionView {
    /// Whether an entry passes the filters of a search that come before the
    /// limit to a category: the favourites, where only those are asked for,
    /// else the entries; and the text, where one is given.
    pub open spec fn passes_first(self, query: SearchQuery, id: u128) -> bool {
        &&& if query.favorites_only {
            self.favorites.entries.contains(id)
        } else {
            has_entry(self.entries, id)
        }
        &&& query.text matches Some(text) ==> self.search_index.finds(text@, id)
    }

    /// Whether an entry passes all filters of a search.
    pub open spec fn passes(self, query: SearchQuery, id: u128) -> bool {
        &&& self.passes_first(query, id)
        &&& query.category_name matches Some(name) ==> has_name(self.categories, name@)
            && self.categories[place_named(
            self.categories,
            name@,
        )].entries.contains(id)
    }

    /// The entries that pass the filters before the limit to a category.
    pub open spec fn first_candidates(self, query: SearchQuery) -> Set<u128> {
        Set::new(|id: u128| self.passes_first(query, id))
    }

    /// Whether the overviews are what a search finds: one overview for every
    /// entry that exists and passes the filters, and no other.
    pub open spec fn is_found(self, query: SearchQuery, found: Seq<EntryOverview>) -> bool {
        &&& forall|i: int, j: int|
            0 <= i < j < found.len() ==> (#[trigger] found[i]).id != (#[trigger] found[j]).id
        &&& forall|k: int|
            0 <= k < found.len() ==> {
                &&& self.passes(query, (#[trigger] found[k]).id)
                &&& has_entry(self.entries, found[k].id)
                &&& shows(found[k], self.entries[place_of_entry(self.entries, found[k].id)])
            }
        &&& forall|id: u128|
            self.passes(query, id) && has_entry(self.entries, id) ==> exists|k: int|
                0 <= k < found.len() && (#[trigger] found[k]).id == id
    }
}

impl EntryCollection {
    /// The identifiers of the entries, each once.
    fn entry_ids(&self) -> (ids: Vec<u128>)
        ensures
            ids@.no_duplicates(),
            forall|id: u128| #[trigger] ids@.contains(id) <==> has_entry(self@.entries, id),
    {
        let mut all: Vec<u128> = Vec::new();
        let mut at: usize = 0;
        while at < self.entries.len()
            invariant
                at <= self.entries.len(),
                all@.len() == at,
                forall|i: int| 0 <= i < at ==> all@[i] == (#[trigger] self@.entries[i]).id,
            decreases self.entries.len() - at,
        {
            all.push(*self.entries[at].id());
            at = at + 1;
        }
        let ids = unique_ids(&all);
        proof {
            assert forall|id: u128| #[trigger] ids@.contains(id) <==> has_entry(
                self@.entries,
                id,
            ) by {
                if all@.contains(id) {
                    let i = choose|i: int| 0 <= i < all@.len() && all@[i] == id;
                    assert(self@.entries[i].id == id);
                }
                if has_entry(self@.entries, id) {
                    let i = choose|i: int|
                        0 <= i < self@.entries.len() && (#[trigger] self@.entries[i]).id == id;
                    assert(all@[i] == id);
                }
            }
        }
        ids
    }

    /// The overviews of the entries with the identifiers given; an
    /// identifier that no entry has is passed over.
    fn overviews_of(&self, ids: &Vec<u128>) -> (found: Vec<EntryOverview>)
        requires
            ids@.no_duplicates(),
        ensures
            forall|i: int, j: int|
                0 <= i < j < found@.len() ==> (#[trigger] found@[i]).id != (#[trigger] found@[j]).id,
            forall|k: int|
                0 <= k < found@.len() ==> {
                    &&& ids@.contains((#[trigger] found@[k]).id)
                    &&& has_entry(self@.entries, found@[k].id)
                    &&& shows(found@[k], self@.entries[place_of_entry(self@.entries, found@[k].id)])
                },
            forall|id: u128|
                ids@.contains(id) && has_entry(self@.entries, id) ==> exists|k: int|
                    0 <= k < found@.len() && (#[trigger] found@[k]).id == id,
    {
        let mut found: Vec<EntryOverview> = Vec::new();
        let mut i: usize = 0;
        while i < ids.len()
            invariant
                i <= ids.len(),
                ids@.no_duplicates(),
                forall|a: int, b: int|
                    0 <= a < b < found@.len() ==> (#[trigger] found@[a]).id != (
                    #[trigger] found@[b]).id,
                forall|k: int|
                    0 <= k < found@.len() ==> {
                        &&& exists|j: int| 0 <= j < i && ids@[j] == (#[trigger] found@[k]).id
                        &&& has_entry(self@.entries, found@[k].id)
                        &&& shows(
                            found@[k],
                            self@.entries[place_of_entry(self@.entries, found@[k].id)],
                        )
                    },
                forall|j: int|
                    0 <= j < i && has_entry(self@.entries, #[trigger] ids@[j]) ==> exists|k: int|
                        0 <= k < found@.len() && (#[trigger] found@[k]).id == ids@[j],
            decreases ids.len() - i,
        {
            let id = ids[i];
            match self.get_entry_overview(&id) {
                Ok(overview) => {
                    let ghost before = found@;
                    proof {
                        assert forall|k: int| 0 <= k < before.len() implies (
                        #[trigger] before[k]).id != id by {
                            let j = choose|j: int| 0 <= j < i && ids@[j] == before[k].id;
                            if before[k].id == id {
                                assert(ids@[j] == ids@[i as int]);
                            }
                        }
                    }
                    found.push(overview);
                    proof {
                        let added = before.len() as int;
                        assert(found@[added].id == id);
                        assert forall|k: int| 0 <= k < found@.len() implies {
                            &&& exists|j: int| 0 <= j < i + 1 && ids@[j] == (#[trigger] found@[k]).id
                            &&& has_entry(self@.entries, found@[k].id)
                            &&& shows(
                                found@[k],
                                self@.entries[place_of_entry(self@.entries, found@[k].id)],
                            )
                        } by {
                            if k < added {
                                assert(found@[k] == before[k]);
                                let j = choose|j: int| 0 <= j < i && ids@[j] == before[k].id;
                                assert(0 <= j < i + 1 && ids@[j] == found@[k].id);
                            } else {
                                assert(ids@[i as int] == found@[k].id);
                            }
                        }
                        assert forall|j: int|
                            0 <= j < i + 1 && has_entry(
                                self@.entries,
                                #[trigger] ids@[j],
                            ) implies exists|k: int|
                            0 <= k < found@.len() && (#[trigger] found@[k]).id == ids@[j] by {
                            if j < i {
                                let k = choose|k: int|
                                    0 <= k < before.len() && (#[trigger] before[k]).id == ids@[j];
                                assert(found@[k].id == ids@[j]);
                            } else {
                                assert(found@[added].id == ids@[j]);
                            }
                        }
                    }
                },
                Err(_) => {},
            }
            i = i + 1;
        }
        proof {
            assert forall|k: int| 0 <= k < found@.len() implies ids@.contains(
                (#[trigger] found@[k]).id,
            ) by {
                let j = choose|j: int| 0 <= j < i && ids@[j] == found@[k].id;
                assert(ids@[j] == found@[k].id);
            }
            assert forall|id: u128|
                ids@.contains(id) && has_entry(self@.entries, id) implies exists|k: int|
                0 <= k < found@.len() && (#[trigger] found@[k]).id == id by {
                let j = choose|j: int| 0 <= j < ids@.len() && ids@[j] == id;
                assert(has_entry(self@.entries, ids@[j]));
            }
        }
        found
    }
}

/// No more entries are filed under a category than there are entries.
proof fn lemma_count_bound(entries: Seq<EntryOverview>, category: u128)
    ensures
        filed_count(entries, category) <= entries.len(),
    decreases entries.len(),
{
    if entries.len() > 0 {
        lemma_count_bound(entries.drop_last(), category);
    }
}

/// Where no entry is filed under a category, the count is zero.
proof fn lemma_count_zero(entries: Seq<EntryOverview>, category: u128)
    requires
        forall|k: int| 0 <= k < entries.len() ==> (#[trigger] entries[k]).category_id != Some(category),
    ensures
        filed_count(entries, category) == 0,
    decreases entries.len(),
{
    if entries.len() > 0 {
        assert forall|k: int| 0 <= k < entries.drop_last().len() implies (
        #[trigger] entries.drop_last()[k]).category_id != Some(category) by {
            assert(entries.drop_last()[k] == entries[k]);
        }
        lemma_count_zero(entries.drop_last(), category);
        assert(entries.last() == entries[entries.len() - 1]);
    }
}

/// The place of the line that counts the category.
fn find_count(lines: &Vec<CategoryCount>, category: u128) -> (found: Option<usize>)
    ensures
        match found {
            Some(i) => i < lines@.len() && lines@[i as int].id == category,
            None => !is_counted(lines@, category),
        },
{
    let mut i: usize = 0;
    while i < lines.len()
        invariant
            i <= lines.len(),
            forall|j: int| 0 <= j < i ==> (#[trigger] lines@[j]).id != category,
        decreases lines.len() - i,
    {
        if lines[i].id == category {
            return Some(i);
        }
        i = i + 1;
    }
    None
}

/// The place at which a line of that name keeps the lines in order.
fn place_for(lines: &Vec<CategoryCount>, name: &str) -> (place: usize)
    requires
        is_ordered(lines@),
    ensures
        place <= lines@.len(),
        forall|i: int|
            0 <= i < place ==> precedes_or_equals(
                encode_utf8((#[trigger] lines@[i]).name@),
                encode_utf8(name@),
            ),
        forall|j: int|
            place <= j < lines@.len() ==> precedes_or_equals(
                encode_utf8(name@),
                encode_utf8((#[trigger] lines@[j]).name@),
            ),
{
    let mut place: usize = 0;
    while place < lines.len() && text_le(lines[place].name.as_str(), name)
        invariant
            place <= lines.len(),
            forall|i: int|
                0 <= i < place ==> precedes_or_equals(
                    encode_utf8((#[trigger] lines@[i]).name@),
                    encode_utf8(name@),
                ),
        decreases lines.len() - place,
    {
        place = place + 1;
    }
    proof {
        if place < lines.len() {
            let here = encode_utf8(lines@[place as int].name@);
            lemma_order_is_total(here, encode_utf8(name@));
            assert forall|j: int| place <= j < lines@.len() implies precedes_or_equals(
                encode_utf8(name@),
                encode_utf8((#[trigger] lines@[j]).name@),
            ) by {
                if j > place {
                    lemma_order_is_transitive(
                        encode_utf8(name@),
                        here,
                        encode_utf8(lines@[j].name@),
                    );
                }
            }
        }
    }
    place
}

impl EntryCollection {
    /// The distribution of the entries over the categories.
    fn distribution_of(&self, entries: &Vec<EntryOverview>) -> (lines: Vec<CategoryCount>)
        ensures
            is_distribution(lines@, entries@, self@.categories),
    {
        let ghost categories = self@.categories;
        let mut lines: Vec<CategoryCount> = Vec::new();
        let mut k: usize = 0;
        proof {
            assert(entries@.subrange(0, 0) =~= Seq::<EntryOverview>::empty());
        }
        while k < entries.len()
            invariant
                k <= entries.len(),
                categories == self@.categories,
                is_distribution(lines@, entries@.subrange(0, k as int), categories),
            decreases entries.len() - k,
        {
            let ghost prefix = entries@.subrange(0, k as int);
            let ghost longer = entries@.subrange(0, k + 1);
            let ghost before = lines@;
            proof {
                assert(longer.drop_last() =~= prefix);
                assert(longer.last() == entries@[k as int]);
                assert forall|m: int| 0 <= m < prefix.len() implies prefix[m] == longer[m] by {}
            }
            let mut counted = false;
            if let Some(category_id) = entries[k].category_id {
                if let Some(category) = self.categories.get_category(&category_id) {
                    counted = true;
                    match find_count(&lines, category_id) {
                        Some(i) => {
                            proof {
                                lemma_count_bound(prefix, category_id);
                            }
                            let raised = lines[i].entry_count + 1;
                            lines[i].entry_count = raised;
                            proof {
                                assert forall|a: int| 0 <= a < lines@.len() implies (
                                #[trigger] lines@[a]).id == before[a].id && lines@[a].name
                                    == before[a].name by {}
                                assert forall|a: int| 0 <= a < lines@.len() implies {
                                    &&& has_id(categories, (#[trigger] lines@[a]).id)
                                    &&& lines@[a].name@ == categories[place_with_id(
                                        categories,
                                        lines@[a].id,
                                    )].name
                                    &&& lines@[a].entry_count == filed_count(longer, lines@[a].id)
                                    &&& lines@[a].entry_count > 0
                                } by {
                                    if a != i {
                                        assert(lines@[a] == before[a]);
                                        assert(before[a].id != before[i as int].id);
                                    }
                                }
                                assert forall|m: int|
                                    0 <= m < longer.len() && (#[trigger] longer[m]).category_id
                                        is Some && has_id(
                                        categories,
                                        longer[m].category_id->Some_0,
                                    ) implies is_counted(lines@, longer[m].category_id->Some_0) by {
                                    let wanted = longer[m].category_id->Some_0;
                                    if m < k {
                                        assert(prefix[m] == longer[m]);
                                        let a = choose|a: int|
                                            0 <= a < before.len() && (#[trigger] before[a]).id
                                                == wanted;
                                        assert(lines@[a].id == wanted);
                                    } else {
                                        assert(lines@[i as int].id == wanted);
                                    }
                                }
                                assert(is_ordered(lines@)) by {
                                    assert forall|a: int, b: int|
                                        0 <= a < b < lines@.len() implies precedes_or_equals(
                                        encode_utf8((#[trigger] lines@[a]).name@),
                                        encode_utf8((#[trigger] lines@[b]).name@),
                                    ) by {
                                        assert(lines@[a].name == before[a].name);
                                        assert(lines@[b].name == before[b].name);
                                    }
                                }
                            }
                        },
                        None => {
                            let name = String::from_str(category.name());
                            let place = place_for(&lines, name.as_str());
                            let line = CategoryCount { id: category_id, name, entry_count: 1 };
                            proof {
                                assert forall|m: int| 0 <= m < prefix.len() implies (
                                #[trigger] prefix[m]).category_id != Some(category_id) by {
                                    if prefix[m].category_id == Some(category_id) {
                                        assert(is_counted(before, category_id));
                                    }
                                }
                                lemma_count_zero(prefix, category_id);
                            }
                            lines.insert(place, line);
                            proof {
                                assert(lines@ == before.insert(place as int, line));
                                assert forall|a: int| 0 <= a < lines@.len() implies {
                                    &&& has_id(categories, (#[trigger] lines@[a]).id)
                                    &&& lines@[a].name@ == categories[place_with_id(
                                        categories,
                                        lines@[a].id,
                                    )].name
                                    &&& lines@[a].entry_count == filed_count(longer, lines@[a].id)
                                    &&& lines@[a].entry_count > 0
                                } by {
                                    if a < place {
                                        assert(lines@[a] == before[a]);
                                    } else if a > place {
                                        assert(lines@[a] == before[a - 1]);
                                    }
                                }
                                assert forall|a: int, b: int|
                                    0 <= a < b < lines@.len() implies (#[trigger] lines@[a]).id != (
                                #[trigger] lines@[b]).id by {
                                    let old_a = if a < place {
                                        a
                                    } else {
                                        a - 1
                                    };
                                    let old_b = if b < place {
                                        b
                                    } else {
                                        b - 1
                                    };
                                    if a != place && b != place {
                                        assert(lines@[a] == before[old_a]);
                                        assert(lines@[b] == before[old_b]);
                                    } else if a == place {
                                        assert(lines@[b] == before[old_b]);
                                    } else {
                                        assert(lines@[a] == before[old_a]);
                                    }
                                }
                                assert forall|a: int, b: int|
                                    0 <= a < b < lines@.len() implies precedes_or_equals(
                                    encode_utf8((#[trigger] lines@[a]).name@),
                                    encode_utf8((#[trigger] lines@[b]).name@),
                                ) by {
                                    let old_a = if a < place {
                                        a
                                    } else {
                                        a - 1
                                    };
                                    let old_b = if b < place {
                                        b
                                    } else {
                                        b - 1
                                    };
                                    if a != place && b != place {
                                        assert(lines@[a] == before[old_a]);
                                        assert(lines@[b] == before[old_b]);
                                    } else if a == place {
                                        assert(lines@[b] == before[old_b]);
                                    } else {
                                        assert(lines@[a] == before[old_a]);
                                    }
                                }
                                assert forall|m: int|
                                    0 <= m < longer.len() && (#[trigger] longer[m]).category_id
                                        is Some && has_id(
                                        categories,
                                        longer[m].category_id->Some_0,
                                    ) implies is_counted(lines@, longer[m].category_id->Some_0) by {
                                    let wanted = longer[m].category_id->Some_0;
                                    if m < k {
                                        assert(prefix[m] == longer[m]);
                                        let a = choose|a: int|
                                            0 <= a < before.len() && (#[trigger] before[a]).id
                                                == wanted;
                                        if a < place {
                                            assert(lines@[a].id == wanted);
                                        } else {
                                            assert(lines@[a + 1] == before[a]);
                                        }
                                    } else {
                                        assert(lines@[place as int].id == wanted);
                                    }
                                }
                            }
                        },
                    }
                }
            }
            proof {
                if !counted {
                    assert forall|a: int| 0 <= a < lines@.len() implies (#[trigger] lines@[a]).entry_count
                        == filed_count(longer, lines@[a].id) by {
                        assert(has_id(categories, lines@[a].id));
                    }
                    assert forall|m: int|
                        0 <= m < longer.len() && (#[trigger] longer[m]).category_id is Some
                            && has_id(categories, longer[m].category_id->Some_0) implies is_counted(
                        lines@,
                        longer[m].category_id->Some_0,
                    ) by {
                        if m < k {
                            assert(prefix[m] == longer[m]);
                        }
                    }
                }
            }
            k = k + 1;
        }
        proof {
            assert(entries@.subrange(0, k as int) =~= entries@);
        }
        lines
    }

    /// Searches the entries: among the favourites where only those are
    /// asked for, by text where one is given, and within a category where
    /// one is named. With no filter at all, every entry is found.
    pub fn search(&self, query: SearchQuery) -> (results: EnhancedSearchResults)
        ensures
            self@.is_found(query, results.entries@),
            results.total_count == results.entries@.len(),
            results.max_count == self@.first_candidates(query).len(),
            is_distribution(results.category_distribution@, results.entries@, self@.categories),
    {
        let mut result_ids: Vec<u128> = if query.favorites_only {
            unique_ids(self.favorites.get_all_favorites())
        } else {
            self.entry_ids()
        };
        if let Some(text) = &query.text {
            let matched_ids = self.search_index.search_text(text.as_str());
            result_ids = common_ids(&result_ids, &matched_ids);
        }
        let max_count = result_ids.len();
        proof {
            assert forall|id: u128| #[trigger]
                result_ids@.contains(id) <==> self@.passes_first(query, id) by {}
            assert(result_ids@.to_set() =~= self@.first_candidates(query));
            result_ids@.unique_seq_to_set();
        }
        if let Some(category_name) = &query.category_name {
            match self.categories.get_entries_in_category(category_name.clone()) {
                Ok(category_entries) => {
                    result_ids = common_ids(&result_ids, category_entries);
                },
                Err(_) => {
                    result_ids = Vec::new();
                },
            }
        }
        proof {
            assert forall|id: u128| #[trigger]
                result_ids@.contains(id) <==> self@.passes(query, id) by {}
        }
        let entries = self.overviews_of(&result_ids);
        proof {
            assert forall|k: int| 0 <= k < entries@.len() implies self@.passes(
                query,
                (#[trigger] entries@[k]).id,
            ) by {
                assert(result_ids@.contains(entries@[k].id));
            }
            assert forall|id: u128|
                self@.passes(query, id) && has_entry(self@.entries, id) implies exists|k: int|
                0 <= k < entries@.len() && (#[trigger] entries@[k]).id == id by {
                assert(result_ids@.contains(id));
            }
        }
        let category_distribution = self.distribution_of(&entries);
        EnhancedSearchResults {
            total_count: entries.len(),
            max_count,
            entries,
            category_distribution,
        }
    }
}

} // verus!
