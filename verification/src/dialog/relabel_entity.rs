//! Giving an entity another label.

use vstd::prelude::*;
use crate::errors::{outcome, Failure, LoreGuiError};
use crate::store::{mutate, written, MutationView, Store, StoreMutation};
use crate::types::Label;

verus! {

/// What the dialog collects: the entity, and the label that it is to get.
#[derive(Debug, PartialEq, Eq)]
pub struct RelabelEntityData {
    pub old_label: Label,
    pub new_label: Label,
}

impl Clone for RelabelEntityData {
    fn clone(&self) -> (copy: Self)
        ensures
            copy == *self,
    {
        RelabelEntityData { old_label: self.old_label.clone(), new_label: self.new_label.clone() }
    }
}

impl RelabelEntityData {
    /// The data for an entity, before the user has typed anything: the
    /// new label is the one that the entity has.
    pub fn new(label: Label) -> (data: Self)
        ensures
            data.old_label == label,
            data.new_label == label,
    {
        RelabelEntityData { new_label: label.clone(), old_label: label }
    }

    /// The label that the entity is to get.
    pub fn get_label(&self) -> (label: &Label)
        ensures
            *label == self.new_label,
    {
        &self.new_label
    }

    /// Takes the label that the user typed.
    pub fn set_label(&mut self, label: Label)
        ensures
            *final(self) == (RelabelEntityData { new_label: label, ..*old(self) }),
    {
        self.new_label = label;
    }

    /// The change that the data asks for.
    pub open spec fn mutation(self) -> MutationView {
        MutationView::RelabelEntity { old_label: self.old_label@, new_label: self.new_label@ }
    }

    /// How writing the data ends: without a store in `NoDatabase`, with
    /// an empty new label in an input error, and else as the store says.
    pub open spec fn saved(self, db: Option<Store>) -> Result<(), Failure> {
        if db is None {
            Err(Failure::NoDatabase)
        } else if self.new_label@.len() == 0 {
            Err(Failure::InputError("the label of an entity must not be empty"@))
        } else {
            written(db, self.mutation())
        }
    }

    /// Asks the store to give the entity its new label.
    pub fn update_label_in_database(self, db: &Option<Store>) -> (result: Result<(), LoreGuiError>)
        ensures
            outcome(result) == self.saved(*db),
    {
        if db.is_none() {
            return Err(LoreGuiError::NoDatabase);
        }
        if self.new_label.as_str().unicode_len() == 0 {
            return Err(
                LoreGuiError::InputError("the label of an entity must not be empty".to_owned()),
            );
        }
        mutate(
            db,
            StoreMutation::RelabelEntity { old_label: self.old_label, new_label: self.new_label },
        )
    }
}

/// The dialog that asks for the new label of an entity.
#[derive(Debug, Clone, PartialEq, Eq)]
pub struct RelabelEntityDialog {
    pub data: RelabelEntityData,
}

impl RelabelEntityDialog {
    /// The dialog for what it is to change.
    pub fn new(data: RelabelEntityData) -> (dialog: Self)
        ensures
            dialog.data == data,
    {
        RelabelEntityDialog { data }
    }
}

} // verus!
