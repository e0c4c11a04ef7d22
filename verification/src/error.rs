//! The ways in which a store operation can fail.

use vstd::prelude::*;
use vstd::string::StringExecFns;
use crate::text::{push_signed_decimal, signed_decimal};

verus! {

/// Every failure is handed back to the caller; none ends the process, and
/// none leaves the store changed.
#[derive(Debug, Clone, Copy, PartialEq, Eq, Structural)]
pub enum StoreError {
    /// No person with this id is in the store.
    NotFound { id: i32 },
    /// The person with this id was reached as somebody's child and lacks its
    /// mother's or its father's id.
    MissingParentReference { child_id: i32 },
    /// The storage underneath could not be read or written.
    Persistence,
    /// A persisted document does not describe a store.
    MalformedDocument,
}

impl StoreError {
    /// The message of each kind of error, as a sequence of characters.
    pub open spec fn message_text(self) -> Seq<char> {
        match self {
            StoreError::NotFound { id } => "person not found: "@ + signed_decimal(id as int),
            StoreError::MissingParentReference { child_id } => "parent reference missing on person: "@
                + signed_decimal(child_id as int),
            StoreError::Persistence => "storage could not be read or written"@,
            StoreError::MalformedDocument => "document does not describe a graph store"@,
        }
    }

    /// A stable message for the error, distinct for each kind.
    pub fn message(&self) -> (text: String)
        ensures
            text@ == self.message_text(),
    {
        match self {
            StoreError::NotFound { id } => {
                let mut out = String::from_str("person not found: ");
                push_signed_decimal(&mut out, *id);
                out
            },
            StoreError::MissingParentReference { child_id } => {
                let mut out = String::from_str("parent reference missing on person: ");
                push_signed_decimal(&mut out, *child_id);
                out
            },
            StoreError::Persistence => String::from_str("storage could not be read or written"),
            StoreError::MalformedDocument => String::from_str(
                "document does not describe a graph store",
            ),
        }
    }
}

} // verus!
