//! The three kinds of builder.

use vstd::prelude::*;

verus! {

/// Which builder kind a shape or a statement belongs to.
#[derive(Copy, Clone, Debug, Eq, PartialEq, Structural, Hash)]
pub enum Mode {
    Select,
    Update,
    Delete,
}

impl Mode {
    /// What is appended to the entity prefix to name the builder type.
    pub open spec fn suffix(self) -> Seq<char> {
        match self {
            Mode::Select => "Select"@,
            Mode::Update => "Update"@,
            Mode::Delete => "Delete"@,
        }
    }

    /// The word that opens the permission block of this kind.
    pub open spec fn context(self) -> Seq<char> {
        match self {
            Mode::Select => "select"@,
            Mode::Update => "update"@,
            Mode::Delete => "delete"@,
        }
    }

    /// What is appended to the entity prefix to name the builder type.
    pub fn type_suffix(self) -> (word: &'static str)
        ensures
            word@ == self.suffix(),
    {
        match self {
            Mode::Select => "Select",
            Mode::Update => "Update",
            Mode::Delete => "Delete",
        }
    }
}

} // verus!
