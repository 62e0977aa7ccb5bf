//! The categories of a vault and the entries filed under each.

use vstd::prelude::*;
use vstd::string::StringExecFns;
use vstd::utf8::encode_utf8;
use crate::category_favorite::category::Category;
use crate::category_favorite::category::CategoryView;
use crate::entry::entry::Entry;
use crate::entry::entry::EntryView;
use crate::error::category_error::CategoryError;
use crate::ids::fresh_id;
use crate::ids::holds_id;
use crate::ids::insert_id;
use crate::ids::lemma_with;
use crate::ids::lemma_without;
use crate::ids::remove_id;
use crate::ids::with;
use crate::ids::without;
use crate::text::contains_text;
use crate::text::eq_ignore_ascii_case;
use crate::text::lowercase;
use crate::text::occurs_in;
use crate::text::same_ignoring_ascii_case;
use crate::text::to_lowercase;
use crate::text::trim;
use crate::text::trimmed;

verus! {

/// A category with the entries filed under it.
pub struct Shelf {
    category: Category,
    entries: Vec<u128>,
}

/// What a shelf holds, as plain values.
pub struct ShelfView {
    pub id: u128,
    pub name: Seq<char>,
    /// The entries filed under the category, each once.
    pub entries: Seq<u128>,
}

impl View for Shelf {
    type V = ShelfView;

    closed spec fn view(&self) -> ShelfView {
        ShelfView { id: self.category@.id, name: self.category@.name, entries: self.entries@ }
    }
}

/// Whether two names are the same but for the case of ASCII letters.
pub open spec fn same_name(left: Seq<char>, right: Seq<char>) -> bool {
    same_ignoring_ascii_case(encode_utf8(left), encode_utf8(right))
}

/// Whether place `at` holds the first shelf with the identifier.
pub open spec fn is_first_with_id(shelves: Seq<ShelfView>, id: u128, at: int) -> bool {
    &&& 0 <= at < shelves.len()
    &&& shelves[at].id == id
    &&& forall|j: int| 0 <= j < at ==> (#[trigger] shelves[j]).id != id
}

/// Whether some shelf has the identifier.
pub open spec fn has_id(shelves: Seq<ShelfView>, id: u128) -> bool {
    exists|at: int| 0 <= at < shelves.len() && (#[trigger] shelves[at]).id == id
}

/// Whether place `at` holds the first shelf of that name.
pub open spec fn is_first_named(shelves: Seq<ShelfView>, name: Seq<char>, at: int) -> bool {
    &&& 0 <= at < shelves.len()
    &&& same_name(shelves[at].name, name)
    &&& forall|j: int| 0 <= j < at ==> !same_name((#[trigger] shelves[j]).name, name)
}

/// Whether some shelf has that name.
pub open spec fn has_name(shelves: Seq<ShelfView>, name: Seq<char>) -> bool {
    exists|at: int| 0 <= at < shelves.len() && same_name((#[trigger] shelves[at]).name, name)
}

/// Whether a shelf other than the one with the identifier has that name.
pub open spec fn has_name_elsewhere(shelves: Seq<ShelfView>, id: u128, name: Seq<char>) -> bool {
    exists|at: int|
        0 <= at < shelves.len() && (#[trigger] shelves[at]).id != id && same_name(
            shelves[at].name,
            name,
        )
}

/// The place of the first shelf with the identifier. Meaningful where some
/// shelf has the identifier.
pub open spec fn place_with_id(shelves: Seq<ShelfView>, id: u128) -> int {
    choose|at: int| is_first_with_id(shelves, id, at)
}

/// The place of the first shelf of that name. Meaningful where some shelf
/// has that name.
pub open spec fn place_named(shelves: Seq<ShelfView>, name: Seq<char>) -> int {
    choose|at: int| is_first_named(shelves, name, at)
}

/// The first place with the identifier is the only first place with it.
pub proof fn lemma_place_with_id(shelves: Seq<ShelfView>, id: u128, at: int)
    requires
        is_first_with_id(shelves, id, at),
    ensures
        has_id(shelves, id),
        place_with_id(shelves, id) == at,
{
    let chosen = place_with_id(shelves, id);
    if chosen < at {
        assert(shelves[chosen].id != id);
    }
    if at < chosen {
        assert(shelves[at].id != id);
    }
}

/// The first place of that name is the only first place of that name.
pub proof fn lemma_place_named(shelves: Seq<ShelfView>, name: Seq<char>, at: int)
    requires
        is_first_named(shelves, name, at),
    ensures
        has_name(shelves, name),
        place_named(shelves, name) == at,
{
    let chosen = place_named(shelves, name);
    if chosen < at {
        assert(!same_name(shelves[chosen].name, name));
    }
    if at < chosen {
        assert(!same_name(shelves[at].name, name));
    }
}

/// The shelves after an entry is filed under a category: the entry joins
/// the first shelf with the identifier. Nothing changes where no category
/// is given or no shelf has the identifier.
pub open spec fn shelved(shelves: Seq<ShelfView>, category: Option<u128>, entry: u128) -> Seq<
    ShelfView,
> {
    match category {
        Some(id) => if has_id(shelves, id) {
            let at = place_with_id(shelves, id);
            shelves.update(at, ShelfView { entries: with(shelves[at].entries, entry), ..shelves[at] })
        } else {
            shelves
        },
        None => shelves,
    }
}

/// The shelves after an entry is taken out of a category.
pub open spec fn unshelved(shelves: Seq<ShelfView>, category: Option<u128>, entry: u128) -> Seq<
    ShelfView,
> {
    match category {
        Some(id) => if has_id(shelves, id) {
            let at = place_with_id(shelves, id);
            shelves.update(
                at,
                ShelfView { entries: without(shelves[at].entries, entry), ..shelves[at] },
            )
        } else {
            shelves
        },
        None => shelves,
    }
}

/// Whether the shelves are in good order: no two have the same identifier,
/// no two have the same name but for the case of ASCII letters, and none
/// lists an entry twice.
pub open spec fn is_tidy(shelves: Seq<ShelfView>) -> bool {
    &&& forall|i: int, j: int|
        0 <= i < j < shelves.len() ==> (#[trigger] shelves[i]).id != (#[trigger] shelves[j]).id
    &&& forall|i: int, j: int|
        0 <= i < j < shelves.len() ==> !same_name(
            (#[trigger] shelves[i]).name,
            (#[trigger] shelves[j]).name,
        )
    &&& forall|i: int| 0 <= i < shelves.len() ==> (#[trigger] shelves[i]).entries.no_duplicates()
}

/// A name is the same as another exactly when the other is the same as it.
pub proof fn lemma_same_name_is_symmetric(left: Seq<char>, right: Seq<char>)
    ensures
        same_name(left, right) == same_name(right, left),
{
}

/// Putting in a shelf without entries, under a name that no shelf has, keeps
/// the shelves in good order.
pub proof fn lemma_put_keeps_tidy(shelves: Seq<ShelfView>, shelf: ShelfView)
    requires
        is_tidy(shelves),
        !has_name(shelves, shelf.name),
        shelf.entries.no_duplicates(),
    ensures
        is_tidy(put(shelves, shelf)),
{
    let after = put(shelves, shelf);
    assert forall|i: int| 0 <= i < shelves.len() implies !same_name(
        shelf.name,
        (#[trigger] shelves[i]).name,
    ) && !same_name(shelves[i].name, shelf.name) by {
        lemma_same_name_is_symmetric(shelf.name, shelves[i].name);
    }
    if has_id(shelves, shelf.id) {
        let witness = choose|k: int| 0 <= k < shelves.len() && (#[trigger] shelves[k]).id == shelf.id;
        lemma_first_exists(shelves, shelf.id, witness);
        let at = place_with_id(shelves, shelf.id);
        assert forall|i: int, j: int| 0 <= i < j < after.len() implies (#[trigger] after[i]).id != (
        #[trigger] after[j]).id && !same_name(after[i].name, after[j].name) by {
            assert(after[i].id == shelves[i].id);
            assert(after[j].id == shelves[j].id);
            if i != at && j != at {
                assert(after[i] == shelves[i]);
                assert(after[j] == shelves[j]);
            }
        }
        assert forall|i: int| 0 <= i < after.len() implies (
        #[trigger] after[i]).entries.no_duplicates() by {
            if i != at {
                assert(after[i] == shelves[i]);
            }
        }
    } else {
        assert forall|i: int, j: int| 0 <= i < j < after.len() implies (#[trigger] after[i]).id != (
        #[trigger] after[j]).id && !same_name(after[i].name, after[j].name) by {
            assert(after[i] == shelves[i]);
            if j < shelves.len() {
                assert(after[j] == shelves[j]);
            }
        }
        assert forall|i: int| 0 <= i < after.len() implies (
        #[trigger] after[i]).entries.no_duplicates() by {
            if i < shelves.len() {
                assert(after[i] == shelves[i]);
            }
        }
    }
}

/// Changing the entries of one shelf to a list without repetitions keeps the
/// shelves in good order.
pub proof fn lemma_refill_keeps_tidy(shelves: Seq<ShelfView>, at: int, entries: Seq<u128>)
    requires
        is_tidy(shelves),
        0 <= at < shelves.len(),
        entries.no_duplicates(),
    ensures
        is_tidy(shelves.update(at, ShelfView { entries, ..shelves[at] })),
{
    let after = shelves.update(at, ShelfView { entries, ..shelves[at] });
    assert forall|i: int, j: int| 0 <= i < j < after.len() implies (#[trigger] after[i]).id != (
    #[trigger] after[j]).id && !same_name(after[i].name, after[j].name) by {
        assert(after[i].id == shelves[i].id && after[i].name == shelves[i].name);
        assert(after[j].id == shelves[j].id && after[j].name == shelves[j].name);
    }
    assert forall|i: int| 0 <= i < after.len() implies (
    #[trigger] after[i]).entries.no_duplicates() by {
        if i != at {
            assert(after[i] == shelves[i]);
        }
    }
}

/// Filing an entry and taking one out keep the shelves in good order.
pub proof fn lemma_filing_keeps_tidy(shelves: Seq<ShelfView>, category: Option<u128>, entry: u128)
    requires
        is_tidy(shelves),
    ensures
        is_tidy(shelved(shelves, category, entry)),
        is_tidy(unshelved(shelves, category, entry)),
{
    if let Some(id) = category {
        if has_id(shelves, id) {
            let witness = choose|k: int| 0 <= k < shelves.len() && (#[trigger] shelves[k]).id == id;
            lemma_first_exists(shelves, id, witness);
            let at = place_with_id(shelves, id);
            lemma_with(shelves[at].entries, entry);
            lemma_without(shelves[at].entries, entry);
            lemma_refill_keeps_tidy(shelves, at, with(shelves[at].entries, entry));
            lemma_refill_keeps_tidy(shelves, at, without(shelves[at].entries, entry));
        }
    }
}

/// Giving a shelf a name that no other shelf has keeps the shelves in good
/// order.
pub proof fn lemma_rename_keeps_tidy(shelves: Seq<ShelfView>, at: int, name: Seq<char>)
    requires
        is_tidy(shelves),
        0 <= at < shelves.len(),
        !has_name_elsewhere(shelves, shelves[at].id, name),
    ensures
        is_tidy(shelves.update(at, ShelfView { name, ..shelves[at] })),
{
    let after = shelves.update(at, ShelfView { name, ..shelves[at] });
    assert forall|i: int, j: int| 0 <= i < j < after.len() implies (#[trigger] after[i]).id != (
    #[trigger] after[j]).id && !same_name(after[i].name, after[j].name) by {
        assert(after[i].id == shelves[i].id);
        assert(after[j].id == shelves[j].id);
        if i == at {
            assert(after[j] == shelves[j]);
            assert(shelves[j].id != shelves[at].id);
            lemma_same_name_is_symmetric(name, shelves[j].name);
        } else if j == at {
            assert(after[i] == shelves[i]);
            assert(shelves[i].id != shelves[at].id);
        } else {
            assert(after[i] == shelves[i]);
            assert(after[j] == shelves[j]);
        }
    }
    assert forall|i: int| 0 <= i < after.len() implies (
    #[trigger] after[i]).entries.no_duplicates() by {
        assert(after[i].entries == shelves[i].entries);
    }
}

/// Taking a shelf away keeps the shelves in good order.
pub proof fn lemma_remove_keeps_tidy(shelves: Seq<ShelfView>, at: int)
    requires
        is_tidy(shelves),
        0 <= at < shelves.len(),
    ensures
        is_tidy(shelves.remove(at)),
{
    let after = shelves.remove(at);
    assert forall|i: int, j: int| 0 <= i < j < after.len() implies (#[trigger] after[i]).id != (
    #[trigger] after[j]).id && !same_name(after[i].name, after[j].name) by {
        let a = if i < at {
            i
        } else {
            i + 1
        };
        let b = if j < at {
            j
        } else {
            j + 1
        };
        assert(after[i] == shelves[a]);
        assert(after[j] == shelves[b]);
    }
    assert forall|i: int| 0 <= i < after.len() implies (
    #[trigger] after[i]).entries.no_duplicates() by {
        let a = if i < at {
            i
        } else {
            i + 1
        };
        assert(after[i] == shelves[a]);
    }
}

/// The shelves with a new one put in: in the place of the first shelf of
/// its identifier where there is one, else at the end.
pub open spec fn put(shelves: Seq<ShelfView>, shelf: ShelfView) -> Seq<ShelfView> {
    if has_id(shelves, shelf.id) {
        shelves.update(place_with_id(shelves, shelf.id), shelf)
    } else {
        shelves.push(shelf)
    }
}

/// An entry after its category was renamed: the new name where the entry is
/// filed under the category, else as it was.
pub open spec fn renamed_in(entry: EntryView, filed: Seq<u128>, name: Seq<char>) -> EntryView {
    if filed.contains(entry.id) {
        EntryView { category_name: Some(name), ..entry }
    } else {
        entry
    }
}

/// An entry after its category was deleted: without a category where the
/// entry was filed under it, else as it was.
pub open spec fn unfiled_from(entry: EntryView, filed: Seq<u128>) -> EntryView {
    if filed.contains(entry.id) {
        EntryView { category_id: None, category_name: None, ..entry }
    } else {
        entry
    }
}

/// The categories of a vault. Names are unique without regard to the case
/// of ASCII letters.
pub struct CategoryCollection {
    shelves: Vec<Shelf>,
}

impl View for CategoryCollection {
    type V = Seq<ShelfView>;

    closed spec fn view(&self) -> Seq<ShelfView> {
        Seq::new(self.shelves@.len(), |i: int| self.shelves@[i]@)
    }
}

impl CategoryCollection {
    /// No categories.
    pub fn new() -> (collection: Self)
        ensures
            collection@ == Seq::<ShelfView>::empty(),
    {
        let collection = Self { shelves: Vec::new() };
        assert(collection@ =~= Seq::<ShelfView>::empty());
        collection
    }

    /// Adds a category as it was stored, with the entries filed under it.
    pub fn restore_category(&mut self, id: u128, name: String, entries: Vec<u128>)
        ensures
            final(self)@ == old(self)@.push(ShelfView { id, name: name@, entries: entries@ }),
    {
        self.shelves.push(Shelf { category: Category::new(id, name), entries });
        assert(self@ =~= old(self)@.push(ShelfView { id, name: name@, entries: entries@ }));
    }

    /// The place of the first shelf with the identifier.
    fn find_by_id(&self, id: u128) -> (found: Option<usize>)
        ensures
            match found {
                Some(at) => is_first_with_id(self@, id, at as int),
                None => !has_id(self@, id),
            },
    {
        let mut at: usize = 0;
        while at < self.shelves.len()
            invariant
                at <= self.shelves.len(),
                forall|j: int| 0 <= j < at ==> (#[trigger] self@[j]).id != id,
            decreases self.shelves.len() - at,
        {
            if self.shelves[at].category.id() == id {
                return Some(at);
            }
            at = at + 1;
        }
        None
    }

    /// The place of the first shelf of that name.
    fn find_by_name(&self, name: &str) -> (found: Option<usize>)
        ensures
            match found {
                Some(at) => is_first_named(self@, name@, at as int),
                None => !has_name(self@, name@),
            },
    {
        let mut at: usize = 0;
        while at < self.shelves.len()
            invariant
                at <= self.shelves.len(),
                forall|j: int| 0 <= j < at ==> !same_name((#[trigger] self@[j]).name, name@),
            decreases self.shelves.len() - at,
        {
            if eq_ignore_ascii_case(self.shelves[at].category.name(), name) {
                return Some(at);
            }
            at = at + 1;
        }
        None
    }

    /// Tells whether a shelf other than the one with the identifier has that
    /// name.
    fn is_name_taken_elsewhere(&self, id: u128, name: &str) -> (taken: bool)
        ensures
            taken == has_name_elsewhere(self@, id, name@),
    {
        let mut at: usize = 0;
        while at < self.shelves.len()
            invariant
                at <= self.shelves.len(),
                forall|j: int|
                    0 <= j < at ==> !((#[trigger] self@[j]).id != id && same_name(
                        self@[j].name,
                        name@,
                    )),
            decreases self.shelves.len() - at,
        {
            let category = &self.shelves[at].category;
            if category.id() != id && eq_ignore_ascii_case(category.name(), name) {
                assert(self@[at as int].id != id && same_name(self@[at as int].name, name@));
                return true;
            }
            at = at + 1;
        }
        false
    }

    /// Creates a category with a fresh identifier and returns the
    /// identifier. The name is trimmed; an empty name and a name that is
    /// taken are refused. Only for a name that is accepted is an identifier
    /// drawn; where the operating system gives no random bytes for it, that
    /// is reported as a validation failure and nothing changes.
    pub fn create_category(&mut self, name: String) -> (created: Result<u128, CategoryError>)
        ensures
            match created {
                Ok(id) => {
                    &&& trimmed(name@).len() > 0
                    &&& !has_name(old(self)@, trimmed(name@))
                    &&& final(self)@ == put(
                        old(self)@,
                        ShelfView { id, name: trimmed(name@), entries: Seq::empty() },
                    )
                },
                Err(CategoryError::InvalidName(refused)) => {
                    &&& trimmed(name@).len() == 0
                    &&& refused@ == trimmed(name@)
                    &&& final(self)@ == old(self)@
                },
                Err(CategoryError::DuplicateName(refused)) => {
                    &&& trimmed(name@).len() > 0
                    &&& has_name(old(self)@, trimmed(name@))
                    &&& refused@ == trimmed(name@)
                    &&& final(self)@ == old(self)@
                },
                Err(CategoryError::ValidationError(_)) => {
                    &&& trimmed(name@).len() > 0
                    &&& !has_name(old(self)@, trimmed(name@))
                    &&& final(self)@ == old(self)@
                },
                Err(_) => false,
            },
            is_tidy(old(self)@) ==> is_tidy(final(self)@),
    {
        match self.refusal_of(trim(name.as_str())) {
            Some(e) => {
                return Err(e);
            },
            None => {},
        }
        let id = match fresh_id() {
            Some(id) => id,
            None => {
                return Err(
                    CategoryError::ValidationError(
                        String::from_str("The operating system gave no random identifier"),
                    ),
                );
            },
        };
        self.create_category_with_id(name, id)
    }

    /// Why the trimmed name cannot be given to a new category; `None` where
    /// it can.
    fn refusal_of(&self, name: &str) -> (refusal: Option<CategoryError>)
        ensures
            match refusal {
                None => name@.len() > 0 && !has_name(self@, name@),
                Some(CategoryError::InvalidName(refused)) => name@.len() == 0 && refused@ == name@,
                Some(CategoryError::DuplicateName(refused)) => name@.len() > 0 && has_name(
                    self@,
                    name@,
                ) && refused@ == name@,
                Some(_) => false,
            },
    {
        if name.is_empty() {
            return Some(CategoryError::InvalidName(String::from_str(name)));
        }
        if self.find_by_name(name).is_some() {
            return Some(CategoryError::DuplicateName(String::from_str(name)));
        }
        None
    }

    /// Creates a category with the identifier given.
    pub fn create_category_with_id(&mut self, name: String, id: u128) -> (created: Result<
        u128,
        CategoryError,
    >)
        ensures
            match created {
                Ok(made) => {
                    &&& made == id
                    &&& trimmed(name@).len() > 0
                    &&& !has_name(old(self)@, trimmed(name@))
                    &&& final(self)@ == put(
                        old(self)@,
                        ShelfView { id, name: trimmed(name@), entries: Seq::empty() },
                    )
                },
                Err(CategoryError::InvalidName(refused)) => {
                    &&& trimmed(name@).len() == 0
                    &&& refused@ == trimmed(name@)
                    &&& final(self)@ == old(self)@
                },
                Err(CategoryError::DuplicateName(refused)) => {
                    &&& trimmed(name@).len() > 0
                    &&& has_name(old(self)@, trimmed(name@))
                    &&& refused@ == trimmed(name@)
                    &&& final(self)@ == old(self)@
                },
                Err(_) => false,
            },
            is_tidy(old(self)@) ==> is_tidy(final(self)@),
    {
        let name = trim(name.as_str());
        match self.refusal_of(name) {
            Some(e) => {
                return Err(e);
            },
            None => {},
        }
        let shelf = Shelf { category: Category::new(id, String::from_str(name)), entries: Vec::new() };
        let ghost shelf_view = shelf@;
        proof {
            if is_tidy(old(self)@) {
                lemma_put_keeps_tidy(old(self)@, shelf_view);
            }
        }
        match self.find_by_id(id) {
            Some(at) => {
                proof {
                    lemma_place_with_id(old(self)@, id, at as int);
                }
                self.shelves.set(at, shelf);
                assert(self@ =~= old(self)@.update(at as int, shelf_view));
            },
            None => {
                self.shelves.push(shelf);
                assert(self@ =~= old(self)@.push(shelf_view));
            },
        }
        Ok(id)
    }

    /// Renames a category, also in all entries filed under it. The name is
    /// trimmed; an empty name and a name that another category has are
    /// refused. Nothing changes on failure.
    pub fn rename_category(&mut self, id: u128, new_name: String, entries: &mut Vec<Entry>) -> (renamed:
        Result<(), CategoryError>)
        ensures
            final(entries)@.len() == old(entries)@.len(),
            is_tidy(old(self)@) ==> is_tidy(final(self)@),
            match renamed {
                Ok(()) => exists|at: int|
                    {
                        &&& #[trigger] is_first_with_id(old(self)@, id, at)
                        &&& trimmed(new_name@).len() > 0
                        &&& !has_name_elsewhere(old(self)@, id, trimmed(new_name@))
                        &&& final(self)@ == old(self)@.update(
                            at,
                            ShelfView { name: trimmed(new_name@), ..old(self)@[at] },
                        )
                        &&& forall|k: int|
                            0 <= k < old(entries)@.len() ==> (#[trigger] final(entries)@[k])@
                                == renamed_in(
                                old(entries)@[k]@,
                                old(self)@[at].entries,
                                trimmed(new_name@),
                            )
                    },
                Err(e) => {
                    &&& final(self)@ == old(self)@
                    &&& forall|k: int|
                        0 <= k < old(entries)@.len() ==> (#[trigger] final(entries)@[k])@
                            == old(entries)@[k]@
                    &&& match e {
                        CategoryError::InvalidName(refused) => trimmed(new_name@).len() == 0
                            && refused@ == trimmed(new_name@),
                        CategoryError::DuplicateName(refused) => trimmed(new_name@).len() > 0
                            && has_name_elsewhere(old(self)@, id, trimmed(new_name@)) && refused@
                            == trimmed(new_name@),
                        CategoryError::NotFound(missing) => trimmed(new_name@).len() > 0
                            && !has_name_elsewhere(old(self)@, id, trimmed(new_name@))
                            && !has_id(old(self)@, id) && missing == id,
                        _ => false,
                    }
                },
            },
    {
        let new_name = trim(new_name.as_str());
        if new_name.is_empty() {
            return Err(CategoryError::InvalidName(String::from_str(new_name)));
        }
        if self.is_name_taken_elsewhere(id, new_name) {
            return Err(CategoryError::DuplicateName(String::from_str(new_name)));
        }
        let at = match self.find_by_id(id) {
            Some(at) => at,
            None => {
                return Err(CategoryError::NotFound(id));
            },
        };
        proof {
            if is_tidy(old(self)@) {
                lemma_rename_keeps_tidy(old(self)@, at as int, new_name@);
            }
        }
        self.shelves[at].category.rename(String::from_str(new_name));
        assert(self@ =~= old(self)@.update(
            at as int,
            ShelfView { name: new_name@, ..old(self)@[at as int] },
        ));
        let mut k: usize = 0;
        while k < entries.len()
            invariant
                k <= entries.len(),
                at < self.shelves.len(),
                entries@.len() == old(entries)@.len(),
                self.shelves@[at as int]@.entries == old(self)@[at as int].entries,
                forall|i: int|
                    0 <= i < k ==> (#[trigger] entries@[i])@ == renamed_in(
                        old(entries)@[i]@,
                        old(self)@[at as int].entries,
                        new_name@,
                    ),
                forall|i: int| k <= i < entries@.len() ==> entries@[i] == old(entries)@[i],
            decreases entries.len() - k,
        {
            if holds_id(&self.shelves[at].entries, *entries[k].id()) {
                entries[k].set_category_name(Some(String::from_str(new_name)));
            }
            k = k + 1;
        }
        Ok(())
    }

    /// Deletes a category and takes its entries out of it. Nothing changes
    /// where there is no such category.
    pub fn delete_category(&mut self, id: &u128, entries: &mut Vec<Entry>) -> (deleted: Result<
        (),
        CategoryError,
    >)
        ensures
            final(entries)@.len() == old(entries)@.len(),
            is_tidy(old(self)@) ==> is_tidy(final(self)@),
            match deleted {
                Ok(()) => exists|at: int|
                    {
                        &&& #[trigger] is_first_with_id(old(self)@, *id, at)
                        &&& final(self)@ == old(self)@.remove(at)
                        &&& forall|k: int|
                            0 <= k < old(entries)@.len() ==> (#[trigger] final(entries)@[k])@
                                == unfiled_from(old(entries)@[k]@, old(self)@[at].entries)
                    },
                Err(e) => {
                    &&& e == CategoryError::NotFound(*id)
                    &&& !has_id(old(self)@, *id)
                    &&& final(self)@ == old(self)@
                    &&& forall|k: int|
                        0 <= k < old(entries)@.len() ==> (#[trigger] final(entries)@[k])@
                            == old(entries)@[k]@
                },
            },
    {
        let at = match self.find_by_id(*id) {
            Some(at) => at,
            None => {
                return Err(CategoryError::NotFound(*id));
            },
        };
        let mut k: usize = 0;
        while k < entries.len()
            invariant
                k <= entries.len(),
                at < self.shelves.len(),
                self@ == old(self)@,
                entries@.len() == old(entries)@.len(),
                forall|i: int|
                    0 <= i < k ==> (#[trigger] entries@[i])@ == unfiled_from(
                        old(entries)@[i]@,
                        old(self)@[at as int].entries,
                    ),
                forall|i: int| k <= i < entries@.len() ==> entries@[i] == old(entries)@[i],
            decreases entries.len() - k,
        {
            if holds_id(&self.shelves[at].entries, *entries[k].id()) {
                entries[k].clear_category();
            }
            k = k + 1;
        }
        self.shelves.remove(at);
        assert(self@ =~= old(self)@.remove(at as int));
        proof {
            if is_tidy(old(self)@) {
                lemma_remove_keeps_tidy(old(self)@, at as int);
            }
        }
        Ok(())
    }

    /// Files an entry under a category.
    pub fn add_entry_to_category(&mut self, category_id: &u128, entry_id: u128) -> (added: Result<
        (),
        CategoryError,
    >)
        ensures
            final(self)@ == shelved(old(self)@, Some(*category_id), entry_id),
            is_tidy(old(self)@) ==> is_tidy(final(self)@),
            match added {
                Ok(()) => has_id(old(self)@, *category_id),
                Err(e) => e == CategoryError::NotFound(*category_id) && !has_id(
                    old(self)@,
                    *category_id,
                ),
            },
    {
        proof {
            if is_tidy(self@) {
                lemma_filing_keeps_tidy(self@, Some(*category_id), entry_id);
            }
        }
        match self.find_by_id(*category_id) {
            Some(at) => {
                proof {
                    lemma_place_with_id(self@, *category_id, at as int);
                }
                insert_id(&mut self.shelves[at].entries, entry_id);
                assert(self@ =~= shelved(old(self)@, Some(*category_id), entry_id));
                Ok(())
            },
            None => Err(CategoryError::NotFound(*category_id)),
        }
    }

    /// Takes an entry out of a category.
    pub fn remove_entry_from_category(&mut self, category_id: &u128, entry_id: &u128) -> (removed:
        Result<(), CategoryError>)
        ensures
            final(self)@ == unshelved(old(self)@, Some(*category_id), *entry_id),
            is_tidy(old(self)@) ==> is_tidy(final(self)@),
            match removed {
                Ok(()) => has_id(old(self)@, *category_id),
                Err(e) => e == CategoryError::NotFound(*category_id) && !has_id(
                    old(self)@,
                    *category_id,
                ),
            },
    {
        proof {
            if is_tidy(self@) {
                lemma_filing_keeps_tidy(self@, Some(*category_id), *entry_id);
            }
        }
        match self.find_by_id(*category_id) {
            Some(at) => {
                proof {
                    lemma_place_with_id(self@, *category_id, at as int);
                }
                remove_id(&mut self.shelves[at].entries, *entry_id);
                assert(self@ =~= unshelved(old(self)@, Some(*category_id), *entry_id));
                Ok(())
            },
            None => Err(CategoryError::NotFound(*category_id)),
        }
    }

    /// Tells whether a category has the identifier.
    pub fn has_category(&self, id: &u128) -> (found: bool)
        ensures
            found == has_id(self@, *id),
    {
        self.find_by_id(*id).is_some()
    }

    /// The entries filed under the category of that name.
    pub fn get_entries_in_category(&self, category_name: String) -> (entries: Result<
        &Vec<u128>,
        CategoryError,
    >)
        ensures
            match entries {
                Ok(filed) => has_name(self@, category_name@) && filed@ == self@[place_named(
                    self@,
                    category_name@,
                )].entries,
                Err(CategoryError::NotFoundByName(missing)) => !has_name(self@, category_name@)
                    && missing@ == category_name@,
                Err(_) => false,
            },
    {
        match self.find_by_name(category_name.as_str()) {
            Some(at) => {
                proof {
                    lemma_place_named(self@, category_name@, at as int);
                }
                Ok(&self.shelves[at].entries)
            },
            None => Err(CategoryError::NotFoundByName(category_name)),
        }
    }

    /// The category with the identifier.
    pub fn get_category(&self, id: &u128) -> (category: Option<&Category>)
        ensures
            match category {
                Some(found) => has_id(self@, *id) && found@ == (CategoryView {
                    id: *id,
                    name: self@[place_with_id(self@, *id)].name,
                }),
                None => !has_id(self@, *id),
            },
    {
        match self.find_by_id(*id) {
            Some(at) => {
                proof {
                    lemma_place_with_id(self@, *id, at as int);
                }
                Some(&self.shelves[at].category)
            },
            None => None,
        }
    }

    /// The categories with the identifiers given, in the order of the
    /// identifiers; an identifier that no category has is passed over.
    pub fn get_categories_by_ids(&self, ids: &[u128]) -> (categories: Vec<&Category>)
        ensures
            forall|k: int|
                0 <= k < categories@.len() ==> ids@.contains((#[trigger] categories@[k])@.id)
                    && is_category_of(self@, categories@[k]@),
            forall|i: int|
                0 <= i < ids@.len() && has_id(self@, #[trigger] ids@[i]) ==> exists|k: int|
                    0 <= k < categories@.len() && (#[trigger] categories@[k])@.id == ids@[i],
    {
        let mut categories: Vec<&Category> = Vec::new();
        let mut i: usize = 0;
        while i < ids.len()
            invariant
                i <= ids.len(),
                forall|k: int|
                    0 <= k < categories@.len() ==> ids@.contains((#[trigger] categories@[k])@.id)
                        && is_category_of(self@, categories@[k]@),
                forall|j: int|
                    0 <= j < i && has_id(self@, #[trigger] ids@[j]) ==> exists|k: int|
                        0 <= k < categories@.len() && (#[trigger] categories@[k])@.id == ids@[j],
            decreases ids.len() - i,
        {
            match self.find_by_id(ids[i]) {
                Some(at) => {
                    let ghost before = categories@;
                    categories.push(&self.shelves[at].category);
                    proof {
                        let added = before.len() as int;
                        assert(categories@[added]@.id == ids@[i as int]);
                        assert(self@[at as int].id == categories@[added]@.id);
                        assert(is_category_of(self@, categories@[added]@));
                        assert forall|k: int| 0 <= k < categories@.len() implies ids@.contains(
                            (#[trigger] categories@[k])@.id,
                        ) && is_category_of(self@, categories@[k]@) by {
                            if k < added {
                                assert(categories@[k] == before[k]);
                            }
                        }
                        assert forall|j: int|
                            0 <= j <= i && has_id(self@, #[trigger] ids@[j]) implies exists|k: int|
                            0 <= k < categories@.len() && (#[trigger] categories@[k])@.id
                                == ids@[j] by {
                            if j < i {
                                let k = choose|k: int|
                                    0 <= k < before.len() && (#[trigger] before[k])@.id == ids@[j];
                                assert(categories@[k] == before[k]);
                            } else {
                                assert(categories@[added]@.id == ids@[j]);
                            }
                        }
                    }
                },
                None => {},
            }
            i = i + 1;
        }
        categories
    }

    /// The identifier of the category of that name.
    pub fn get_category_id_by_name(&self, name: &str) -> (id: Option<u128>)
        ensures
            match id {
                Some(found) => has_name(self@, name@) && found == self@[place_named(
                    self@,
                    name@,
                )].id && has_id(self@, found),
                None => !has_name(self@, name@),
            },
    {
        match self.find_by_name(name) {
            Some(at) => {
                proof {
                    lemma_place_named(self@, name@, at as int);
                    assert(self@[at as int].id == self@[at as int].id);
                }
                Some(self.shelves[at].category.id())
            },
            None => None,
        }
    }

    /// All categories, in the order in which they were created.
    pub fn get_all_categories(&self) -> (categories: Vec<Category>)
        ensures
            categories@.len() == self@.len(),
            forall|i: int|
                0 <= i < self@.len() ==> (#[trigger] categories@[i])@ == (CategoryView {
                    id: self@[i].id,
                    name: self@[i].name,
                }),
    {
        let mut categories: Vec<Category> = Vec::new();
        let mut at: usize = 0;
        while at < self.shelves.len()
            invariant
                at <= self.shelves.len(),
                categories@.len() == at,
                forall|i: int|
                    0 <= i < at ==> (#[trigger] categories@[i])@ == (CategoryView {
                        id: self@[i].id,
                        name: self@[i].name,
                    }),
            decreases self.shelves.len() - at,
        {
            categories.push(self.shelves[at].category.clone());
            at = at + 1;
        }
        categories
    }

    /// The number of categories.
    pub fn len(&self) -> (count: usize)
        ensures
            count == self@.len(),
    {
        self.shelves.len()
    }

    /// The category at a place, with the entries filed under it.
    pub fn shelf(&self, at: usize) -> (shelf: Option<(&Category, &Vec<u128>)>)
        ensures
            match shelf {
                Some((category, entries)) => at < self@.len() && category@ == (CategoryView {
                    id: self@[at as int].id,
                    name: self@[at as int].name,
                }) && entries@ == self@[at as int].entries,
                None => at >= self@.len(),
            },
    {
        if at < self.shelves.len() {
            Some((&self.shelves[at].category, &self.shelves[at].entries))
        } else {
            None
        }
    }
}

/// Whether a category answers a search: every category answers a query that
/// is empty once trimmed; else the name in lower case has to hold the query
/// in lower case.
pub open spec fn answers(name: Seq<char>, query: Seq<char>) -> bool {
    trimmed(query).len() == 0 || occurs_in(
        encode_utf8(lowercase(name)),
        encode_utf8(lowercase(query)),
    )
}

/// Whether the collection holds the category.
pub open spec fn is_category_of(shelves: Seq<ShelfView>, category: CategoryView) -> bool {
    exists|at: int|
        0 <= at < shelves.len() && (#[trigger] shelves[at]).id == category.id && shelves[at].name
            == category.name
}

/// Whether the list holds the category.
pub open spec fn is_listed(found: Seq<&Category>, category: CategoryView) -> bool {
    exists|k: int| 0 <= k < found.len() && (#[trigger] found[k])@ == category
}

impl CategoryCollection {
    /// The categories that answer a search, in the order in which they were
    /// created.
    pub fn search_categories(&self, query: &str) -> (found: Vec<&Category>)
        ensures
            forall|k: int|
                0 <= k < found@.len() ==> answers((#[trigger] found@[k])@.name, query@)
                    && is_category_of(self@, found@[k]@),
            forall|at: int|
                0 <= at < self@.len() && answers((#[trigger] self@[at]).name, query@) ==> is_listed(
                    found@,
                    CategoryView { id: self@[at].id, name: self@[at].name },
                ),
    {
        let all = trim(query).is_empty();
        let lowered = to_lowercase(query);
        let mut found: Vec<&Category> = Vec::new();
        let mut at: usize = 0;
        while at < self.shelves.len()
            invariant
                at <= self.shelves.len(),
                all == (trimmed(query@).len() == 0),
                lowered@ == lowercase(query@),
                forall|k: int|
                    0 <= k < found@.len() ==> answers((#[trigger] found@[k])@.name, query@)
                        && is_category_of(self@, found@[k]@),
                forall|i: int|
                    0 <= i < at && answers((#[trigger] self@[i]).name, query@) ==> is_listed(
                        found@,
                        CategoryView { id: self@[i].id, name: self@[i].name },
                    ),
            decreases self.shelves.len() - at,
        {
            let category = &self.shelves[at].category;
            let keep = all || contains_text(
                to_lowercase(category.name()).as_str(),
                lowered.as_str(),
            );
            if keep {
                let ghost before = found@;
                found.push(category);
                proof {
                    let added = before.len() as int;
                    assert(found@[added]@ == (CategoryView {
                        id: self@[at as int].id,
                        name: self@[at as int].name,
                    }));
                    assert(self@[at as int].id == found@[added]@.id);
                    assert(is_category_of(self@, found@[added]@));
                    assert forall|i: int|
                        0 <= i < at && answers((#[trigger] self@[i]).name, query@) implies is_listed(
                        found@,
                        CategoryView { id: self@[i].id, name: self@[i].name },
                    ) by {
                        let wanted = CategoryView { id: self@[i].id, name: self@[i].name };
                        let k = choose|k: int| 0 <= k < before.len() && (#[trigger] before[k])@ == wanted;
                        assert(found@[k] == before[k]);
                    }
                    assert forall|k: int| 0 <= k < found@.len() implies answers(
                        (#[trigger] found@[k])@.name,
                        query@,
                    ) && is_category_of(self@, found@[k]@) by {
                        if k < added {
                            assert(found@[k] == before[k]);
                        }
                    }
                }
            }
            at = at + 1;
        }
        found
    }
}

/// A shelf that was put in is there.
pub proof fn lemma_put_has(shelves: Seq<ShelfView>, shelf: ShelfView)
    ensures
        has_id(put(shelves, shelf), shelf.id),
{
    if has_id(shelves, shelf.id) {
        let at = place_with_id(shelves, shelf.id);
        let witness = choose|k: int| 0 <= k < shelves.len() && (#[trigger] shelves[k]).id == shelf.id;
        lemma_first_exists(shelves, shelf.id, witness);
        assert(put(shelves, shelf)[at].id == shelf.id);
    } else {
        assert(put(shelves, shelf)[shelves.len() as int].id == shelf.id);
    }
}

/// Where a shelf has an identifier, some shelf is the first with it.
pub proof fn lemma_first_exists(shelves: Seq<ShelfView>, id: u128, at: int)
    requires
        0 <= at < shelves.len(),
        shelves[at].id == id,
    ensures
        exists|first: int| is_first_with_id(shelves, id, first),
    decreases at,
{
    if exists|j: int| 0 <= j < at && (#[trigger] shelves[j]).id == id {
        let j = choose|j: int| 0 <= j < at && (#[trigger] shelves[j]).id == id;
        lemma_first_exists(shelves, id, j);
    } else {
        assert(is_first_with_id(shelves, id, at));
    }
}

} // verus!
