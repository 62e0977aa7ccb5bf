//! A category: an identifier and a name.

use vstd::prelude::*;

verus! {

/// A category that entries can be filed under.
#[derive(Debug)]
pub struct Category {
    pub id: u128,
    pub(crate) name: String,
}

/// What a [`Category`] holds, as plain values.
pub struct CategoryView {
    pub id: u128,
    pub name: Seq<char>,
}

impl View for Category {
    type V = CategoryView;

    closed spec fn view(&self) -> CategoryView {
        CategoryView { id: self.id, name: self.name@ }
    }
}

impl Clone for Category {
    fn clone(&self) -> (copy: Self)
        ensures
            copy@ == self@,
    {
        Category { id: self.id, name: self.name.clone() }
    }
}

impl Category {
    /// A category of the identifier and the name given.
    pub fn new(id: u128, name: String) -> (category: Self)
        ensures
            category@ == (CategoryView { id, name: name@ }),
    {
        Self { id, name }
    }

    /// Gives the category another name.
    pub(crate) fn rename(&mut self, name: String)
        ensures
            final(self)@ == (CategoryView { id: old(self)@.id, name: name@ }),
    {
        self.name = name;
    }

    /// The identifier.
    pub fn id(&self) -> (id: u128)
        ensures
            id == self@.id,
    {
        self.id
    }

    /// The name.
    pub fn name(&self) -> (name: &str)
        ensures
            name@ == self@.name,
    {
        self.name.as_str()
    }
}

} // verus!
