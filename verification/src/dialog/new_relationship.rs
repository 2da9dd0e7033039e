//! Relating two entities.

use vstd::prelude::*;
use crate::errors::{outcome, Failure, LoreGuiError};
use crate::store::{mutate, written, MutationView, Store, StoreMutation};
use crate::types::{clone_optional_text, optional_text, Label, Role};

verus! {

/// What the dialog collects: the parent, the child, and the role that
/// the relationship gives to the child, if it gives one.
#[derive(Debug, PartialEq, Eq)]
pub struct NewRelationshipData {
    pub parent: Label,
    pub child: Label,
    pub role: Option<Role>,
}

impl Clone for NewRelationshipData {
    fn clone(&self) -> (copy: Self)
        ensures
            copy == *self,
    {
        NewRelationshipData {
            parent: self.parent.clone(),
            child: self.child.clone(),
            role: clone_optional_text(&self.role),
        }
    }
}

impl NewRelationshipData {
    /// The data for a relationship.
    pub fn new(parent: Label, child: Label, role: Option<Role>) -> (data: Self)
        ensures
            data.parent == parent,
            data.child == child,
            data.role == role,
    {
        NewRelationshipData { parent, child, role }
    }

    /// The change that the data asks for.
    pub open spec fn mutation(self) -> MutationView {
        MutationView::CreateRelationship {
            parent: self.parent@,
            child: self.child@,
            role: optional_text(self.role),
        }
    }

    /// How writing the data ends: without a store in `NoDatabase`, and
    /// else as the store says.
    pub open spec fn saved(self, db: Option<Store>) -> Result<(), Failure> {
        written(db, self.mutation())
    }

    /// Asks the store to create the relationship.
    pub fn write_to_database(self, db: &Option<Store>) -> (result: Result<(), LoreGuiError>)
        ensures
            outcome(result) == self.saved(*db),
    {
        mutate(
            db,
            StoreMutation::CreateRelationship {
                parent: self.parent,
                child: self.child,
                role: self.role,
            },
        )
    }
}

/// The dialog that asks for the two ends of a new relationship and for
/// its role. It offers the labels of the entities to pick from.
#[derive(Debug, Clone, PartialEq, Eq)]
pub struct NewRelationshipDialog {
    pub parents: Vec<Label>,
    pub children: Vec<Label>,
    pub data: NewRelationshipData,
}

impl NewRelationshipDialog {
    /// The dialog before the user has picked anything.
    pub fn new(parents: Vec<Label>, children: Vec<Label>) -> (dialog: Self)
        ensures
            dialog.parents == parents,
            dialog.children == children,
            dialog.data.parent@.len() == 0,
            dialog.data.child@.len() == 0,
            dialog.data.role is None,
    {
        NewRelationshipDialog {
            parents,
            children,
            data: NewRelationshipData { parent: String::new(), child: String::new(), role: None },
        }
    }
}

} // verus!
