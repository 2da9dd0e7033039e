//! Giving an entity a new descriptor.

use vstd::prelude::*;
use crate::errors::{outcome, Failure, LoreGuiError};
use crate::store::{mutate, written, MutationView, Store, StoreMutation};
use crate::types::{Descriptor, Label};

verus! {

/// What the dialog collects: the entity, and the name of the descriptor
/// that it is to get. A new descriptor has no description yet.
#[derive(Debug, PartialEq, Eq)]
pub struct NewDescriptorData {
    pub label: Label,
    pub descriptor: Descriptor,
}

impl Clone for NewDescriptorData {
    fn clone(&self) -> (copy: Self)
        ensures
            copy == *self,
    {
        NewDescriptorData { label: self.label.clone(), descriptor: self.descriptor.clone() }
    }
}

impl NewDescriptorData {
    /// The data for a descriptor of an entity.
    pub fn new(label: Label, descriptor: Descriptor) -> (data: Self)
        ensures
            data.label == label,
            data.descriptor == descriptor,
    {
        NewDescriptorData { label, descriptor }
    }

    /// The entity that gets the descriptor.
    pub fn get_label(&self) -> (label: &Label)
        ensures
            *label == self.label,
    {
        &self.label
    }

    /// The name of the descriptor that is to be.
    pub fn get_descriptor(&self) -> (descriptor: &Descriptor)
        ensures
            *descriptor == self.descriptor,
    {
        &self.descriptor
    }

    /// Takes the name that the user typed.
    pub fn set_descriptor(&mut self, descriptor: Descriptor)
        ensures
            *final(self) == (NewDescriptorData { descriptor, ..*old(self) }),
    {
        self.descriptor = descriptor;
    }

    /// The change that the data asks for.
    pub open spec fn mutation(self) -> MutationView {
        MutationView::CreateDescriptor { label: self.label@, descriptor: self.descriptor@ }
    }

    /// How writing the data ends: without a store in `NoDatabase`, with
    /// an empty name in an input error, and else as the store says.
    pub open spec fn saved(self, db: Option<Store>) -> Result<(), Failure> {
        if db is None {
            Err(Failure::NoDatabase)
        } else if self.descriptor@.len() == 0 {
            Err(Failure::InputError("the name of a descriptor must not be empty"@))
        } else {
            written(db, self.mutation())
        }
    }

    /// Asks the store to create the descriptor.
    pub fn write_to_database(self, db: &Option<Store>) -> (result: Result<(), LoreGuiError>)
        ensures
            outcome(result) == self.saved(*db),
    {
        if db.is_none() {
            return Err(LoreGuiError::NoDatabase);
        }
        if self.descriptor.as_str().unicode_len() == 0 {
            return Err(
                LoreGuiError::InputError("the name of a descriptor must not be empty".to_owned()),
            );
        }
        mutate(
            db,
            StoreMutation::CreateDescriptor { label: self.label, descriptor: self.descriptor },
        )
    }
}

/// The dialog that asks for the name of a new descriptor.
#[derive(Debug, Clone, PartialEq, Eq)]
pub struct NewDescriptorDialog {
    pub data: NewDescriptorData,
}

impl NewDescriptorDialog {
    /// The dialog for an entity, before the user has typed anything.
    pub fn new(label: Label) -> (dialog: Self)
        ensures
            dialog.data.label == label,
            dialog.data.descriptor@.len() == 0,
    {
        NewDescriptorDialog { data: NewDescriptorData { label, descriptor: String::new() } }
    }
}

} // verus!
