//! Failures of category management.

use vstd::prelude::*;
use vstd::string::StringExecFns;
use crate::error::notation::uuid_text;
use crate::error::notation::uuid_to_text;

verus! {

/// Everything that can go wrong with a category. A category is named by the
/// 128-bit number of its identifier.
#[derive(Debug)]
pub enum CategoryError {
    InvalidName(String),
    DuplicateName(String),
    NotFound(u128),
    NotFoundByName(String),
    ValidationError(String),
}

impl CategoryError {
    /// The text shown for this error.
    pub open spec fn message_view(self) -> Seq<char> {
        match self {
            CategoryError::InvalidName(name) => "Invalid category name: '"@ + name@ + "'"@,
            CategoryError::DuplicateName(name) => "Category with name '"@
                + name@
                + "' already exists"@,
            CategoryError::NotFound(id) => "Category not found with ID: "@ + uuid_text(id),
            CategoryError::NotFoundByName(name) => "Category not found with name: '"@
                + name@
                + "'"@,
            CategoryError::ValidationError(detail) => "Validation error: "@ + detail@,
        }
    }

    /// Renders the error as text.
    pub fn message(&self) -> (text: String)
        ensures
            text@ == self.message_view(),
    {
        match self {
            CategoryError::InvalidName(name) => {
                let mut text = String::from_str("Invalid category name: '");
                text.append(name.as_str());
                text.append("'");
                text
            },
            CategoryError::DuplicateName(name) => {
                let mut text = String::from_str("Category with name '");
                text.append(name.as_str());
                text.append("' already exists");
                text
            },
            CategoryError::NotFound(id) => {
                let mut text = String::from_str("Category not found with ID: ");
                text.append(uuid_to_text(*id).as_str());
                text
            },
            CategoryError::NotFoundByName(name) => {
                let mut text = String::from_str("Category not found with name: '");
                text.append(name.as_str());
                text.append("'");
                text
            },
            CategoryError::ValidationError(detail) => {
                let mut text = String::from_str("Validation error: ");
                text.append(detail.as_str());
                text
            },
        }
    }
}

} // verus!
