//! Creating an entity.

use vstd::prelude::*;
use crate::errors::{outcome, Failure, LoreGuiError};
use crate::store::{mutate, written, MutationView, Store, StoreMutation};
use crate::types::Label;

verus! {

/// What the dialog collects: the label of the entity that is to be.
#[derive(Debug, PartialEq, Eq)]
pub struct NewEntityData {
    pub label: Label,
}

impl Clone for NewEntityData {
    fn clone(&self) -> (copy: Self)
        ensures
            copy == *self,
    {
        NewEntityData { label: self.label.clone() }
    }
}

impl NewEntityData {
    /// The data for an entity with this label.
    pub fn new(label: Label) -> (data: Self)
        ensures
            data.label == label,
    {
        NewEntityData { label }
    }

    /// The label of the entity that is to be.
    pub fn get_label(&self) -> (label: &Label)
        ensures
            *label == self.label,
    {
        &self.label
    }

    /// Takes the label that the user typed.
    pub fn set_label(&mut self, label: Label)
        ensures
            final(self).label == label,
    {
        self.label = label;
    }

    /// The change that the data asks for.
    pub open spec fn mutation(self) -> MutationView {
        MutationView::CreateEntity { label: self.label@ }
    }

    /// How writing the data ends: without a store in `NoDatabase`, with
    /// an empty label in an input error, and else as the store says.
    pub open spec fn saved(self, db: Option<Store>) -> Result<(), Failure> {
        if db is None {
            Err(Failure::NoDatabase)
        } else if self.label@.len() == 0 {
            Err(Failure::InputError("the label of an entity must not be empty"@))
        } else {
            written(db, self.mutation())
        }
    }

    /// Asks the store to create the entity.
    pub fn write_to_database(self, db: &Option<Store>) -> (result: Result<(), LoreGuiError>)
        ensures
            outcome(result) == self.saved(*db),
    {
        if db.is_none() {
            return Err(LoreGuiError::NoDatabase);
        }
        if self.label.as_str().unicode_len() == 0 {
            return Err(
                LoreGuiError::InputError("the label of an entity must not be empty".to_owned()),
            );
        }
        mutate(db, StoreMutation::CreateEntity { label: self.label })
    }
}

/// The dialog that asks for the label of a new entity.
#[derive(Debug, Clone, PartialEq, Eq)]
pub struct NewEntityDialog {
    pub data: NewEntityData,
}

impl NewEntityDialog {
    /// The dialog before the user has typed anything.
    pub fn new() -> (dialog: Self)
        ensures
            dialog.data.label@.len() == 0,
    {
        NewEntityDialog { data: NewEntityData { label: String::new() } }
    }
}

} // verus!
