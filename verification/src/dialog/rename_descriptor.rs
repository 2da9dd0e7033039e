//! Giving a descriptor of an entity another name.

use vstd::prelude::*;
use crate::errors::{outcome, Failure, LoreGuiError};
use crate::store::{mutate, written, MutationView, Store, StoreMutation};
use crate::types::{Descriptor, Label};

verus! {

/// What the dialog collects: the entity, its descriptor, and the name
/// that the descriptor is to get.
#[derive(Debug, PartialEq, Eq)]
pub struct RenameDescriptorData {
    pub label: Label,
    pub old_descriptor: Descriptor,
    pub new_descriptor: Descriptor,
}

impl Clone for RenameDescriptorData {
    fn clone(&self) -> (copy: Self)
        ensures
            copy == *self,
    {
        RenameDescriptorData {
            label: self.label.clone(),
            old_descriptor: self.old_descriptor.clone(),
            new_descriptor: self.new_descriptor.clone(),
        }
    }
}

impl RenameDescriptorData {
    /// The data for a descriptor, before the user has typed anything:
    /// the new name is the one that the descriptor has.
    pub fn new(label: Label, descriptor: Descriptor) -> (data: Self)
        ensures
            data.label == label,
            data.old_descriptor == descriptor,
            data.new_descriptor == descriptor,
    {
        RenameDescriptorData {
            label,
            new_descriptor: descriptor.clone(),
            old_descriptor: descriptor,
        }
    }

    /// The name that the descriptor is to get.
    pub fn get_descriptor(&self) -> (descriptor: &Descriptor)
        ensures
            *descriptor == self.new_descriptor,
    {
        &self.new_descriptor
    }

    /// Takes the name that the user typed.
    pub fn set_descriptor(&mut self, descriptor: Descriptor)
        ensures
            *final(self) == (RenameDescriptorData { new_descriptor: descriptor, ..*old(self) }),
    {
        self.new_descriptor = descriptor;
    }

    /// The change that the data asks for.
    pub open spec fn mutation(self) -> MutationView {
        MutationView::RenameDescriptor {
            label: self.label@,
            old_descriptor: self.old_descriptor@,
            new_descriptor: self.new_descriptor@,
        }
    }

    /// How writing the data ends: without a store in `NoDatabase`, with
    /// an empty new name in an input error, and else as the store says.
    pub open spec fn saved(self, db: Option<Store>) -> Result<(), Failure> {
        if db is None {
            Err(Failure::NoDatabase)
        } else if self.new_descriptor@.len() == 0 {
            Err(Failure::InputError("the name of a descriptor must not be empty"@))
        } else {
            written(db, self.mutation())
        }
    }

    /// Asks the store to give the descriptor its new name.
    pub fn update_descriptor_in_database(self, db: &Option<Store>) -> (result: Result<
        (),
        LoreGuiError,
    >)
        ensures
            outcome(result) == self.saved(*db),
    {
        if db.is_none() {
            return Err(LoreGuiError::NoDatabase);
        }
        if self.new_descriptor.as_str().unicode_len() == 0 {
            return Err(
                LoreGuiError::InputError("the name of a descriptor must not be empty".to_owned()),
            );
        }
        mutate(
            db,
            StoreMutation::RenameDescriptor {
                label: self.label,
                old_descriptor: self.old_descriptor,
                new_descriptor: self.new_descriptor,
            },
        )
    }
}

/// The dialog that asks for the new name of a descriptor.
#[derive(Debug, Clone, PartialEq, Eq)]
pub struct RenameDescriptorDialog {
    pub data: RenameDescriptorData,
}

impl RenameDescriptorDialog {
    /// The dialog for what it is to change.
    pub fn new(data: RenameDescriptorData) -> (dialog: Self)
        ensures
            dialog.data == data,
    {
        RenameDescriptorDialog { data }
    }
}

} // verus!
