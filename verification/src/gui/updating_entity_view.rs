//! What the messages of the entity view, and the changes to entities and
//! descriptors, do to the application.

use vstd::prelude::*;
use vstd::string::StringExecFns;
use super::message_handling::GuiMes;
use super::SqlGui;
use crate::db_col_view::entry::DbColViewEntry;
use crate::db_col_view::ColViewMes;
use crate::dialog::confirmation::ConfirmationDialog;
use crate::dialog::new_descriptor::{NewDescriptorData, NewDescriptorDialog};
use crate::dialog::new_entity::{NewEntityData, NewEntityDialog};
use crate::dialog::relabel_entity::{RelabelEntityData, RelabelEntityDialog};
use crate::dialog::rename_descriptor::{RenameDescriptorData, RenameDescriptorDialog};
use crate::dialog::Dialog;
use crate::entity_view::{EntityModel, EntityViewMessage};
use crate::errors::{and_then, lands, Failure, LoreGuiError};
use crate::store::{mutate, written, MutationView, Store, StoreMutation};
use crate::types::{Descriptor, Label};

verus! {

/// The question that is asked before an entity is deleted.
pub open spec fn delete_entity_question(label: Seq<char>) -> Seq<char> {
    "Do you really want to delete "@ + label + "?"@
}

/// The question that is asked before a descriptor is deleted.
pub open spec fn delete_descriptor_question(label: Seq<char>, descriptor: Seq<char>) -> Seq<char> {
    "Do you really want to delete "@ + label + "'s descriptor "@ + descriptor + "?"@
}

/// Whether a dialog is the one that a message of the entity view opens.
/// The messages of the two columns open none.
pub open spec fn opened_by(event: EntityViewMessage, dialog: Dialog) -> bool {
    match event {
        EntityViewMessage::NewEntity => dialog matches Dialog::NewEntity(opened)
            && opened.data.label@.len() == 0,
        EntityViewMessage::RelabelEntity(data) => dialog == Dialog::RelabelEntity(
            RelabelEntityDialog { data },
        ),
        EntityViewMessage::DeleteEntity(label) => dialog matches Dialog::Confirmation(opened)
            && opened.message@ == delete_entity_question(label@) && opened.on_confirm
            == GuiMes::DeleteEntity(label),
        EntityViewMessage::NewDescriptor(label) => dialog matches Dialog::NewDescriptor(opened)
            && opened.data.label == label && opened.data.descriptor@.len() == 0,
        EntityViewMessage::RenameDescriptor(data) => dialog == Dialog::RenameDescriptor(
            RenameDescriptorDialog { data },
        ),
        EntityViewMessage::DeleteDescriptor(label, descriptor) => dialog matches Dialog::Confirmation(
            opened,
        ) && opened.message@ == delete_descriptor_question(label@, descriptor@)
            && opened.on_confirm == GuiMes::DeleteDescriptor(label, descriptor),
        EntityViewMessage::LabelViewUpd(_) => false,
        EntityViewMessage::DescriptorViewUpd(_) => false,
    }
}

/// The error for a change to the descriptors of an entity that is not
/// the selected one.
pub open spec fn entity_not_selected() -> Failure {
    Failure::InputError("the entity of the descriptor is not selected"@)
}

impl SqlGui {
    /// Whether an event of the label column was handled: the entity view
    /// is what the event makes of it, and nothing else has changed.
    pub open spec fn label_event_handled(
        self,
        after: SqlGui,
        event: ColViewMes<Label>,
        result: Result<(), LoreGuiError>,
    ) -> bool {
        &&& lands(
            result,
            self.entity_view_state@,
            after.entity_view_state@,
            self.entity_view_state@.after_label_event(event, self.lore_database),
        )
        &&& after.same_beside_entity_view(self)
        &&& after.dialog == self.dialog
    }

    /// Whether an event of the descriptor column was handled: the entity
    /// view is what the event makes of it, and nothing else has changed.
    pub open spec fn descriptor_event_handled(
        self,
        after: SqlGui,
        event: ColViewMes<Descriptor>,
        result: Result<(), LoreGuiError>,
    ) -> bool {
        &&& lands(
            result,
            self.entity_view_state@,
            after.entity_view_state@,
            self.entity_view_state@.after_descriptor_event(event, self.lore_database),
        )
        &&& after.same_beside_entity_view(self)
        &&& after.dialog == self.dialog
    }

    /// Whether a message of the entity view was handled. A message of a
    /// column changes the entity view; any other message opens its
    /// dialog, and cannot fail.
    pub open spec fn entity_view_message_handled(
        self,
        after: SqlGui,
        event: EntityViewMessage,
        result: Result<(), LoreGuiError>,
    ) -> bool {
        match event {
            EntityViewMessage::LabelViewUpd(event) => self.label_event_handled(after, event, result),
            EntityViewMessage::DescriptorViewUpd(event) => self.descriptor_event_handled(
                after,
                event,
                result,
            ),
            _ => {
                &&& result is Ok
                &&& after.dialog matches Some(dialog) && opened_by(event, dialog)
                &&& after.same_views(self)
            },
        }
    }

    /// Whether a change to the store that touches the entity view was
    /// handled: the entity view is what was expected, the dialog is
    /// closed where the change went through, and nothing else has changed.
    pub open spec fn entity_change_handled(
        self,
        after: SqlGui,
        result: Result<(), LoreGuiError>,
        expected: Result<EntityModel, Failure>,
    ) -> bool {
        &&& lands(result, self.entity_view_state@, after.entity_view_state@, expected)
        &&& after.same_beside_entity_view(self)
        &&& after.dialog == self.dialog_after(result)
    }

    /// What creating an entity makes of the entity view: the store
    /// creates the entity; then the label search text is emptied, the new
    /// label is selected, and every column is brought up to date.
    pub open spec fn entity_written(self, data: NewEntityData) -> Result<EntityModel, Failure> {
        and_then(
            data.saved(self.lore_database),
            self.entity_view_state@.label_reselected(DbColViewEntry(Some(data.label))).refreshed_labels(
                self.lore_database,
            ),
        )
    }

    /// What relabelling an entity makes of the entity view: as for a new
    /// entity, with the new label selected.
    pub open spec fn entity_relabelled(self, data: RelabelEntityData) -> Result<
        EntityModel,
        Failure,
    > {
        and_then(
            data.saved(self.lore_database),
            self.entity_view_state@.label_reselected(
                DbColViewEntry(Some(data.new_label)),
            ).refreshed_labels(self.lore_database),
        )
    }

    /// What deleting an entity makes of the entity view: the store
    /// deletes the entity; then the label search text is emptied, no
    /// label is selected, and every column is brought up to date.
    pub open spec fn entity_deleted(self, label: Label) -> Result<EntityModel, Failure> {
        and_then(
            written(self.lore_database, MutationView::DeleteEntity { label: label@ }),
            self.entity_view_state@.label_reselected(DbColViewEntry(None)).refreshed_labels(
                self.lore_database,
            ),
        )
    }

    /// What a change to the descriptors of an entity makes of the entity
    /// view. Without a store it fails with `NoDatabase`; where the entity
    /// is not the selected one, with an input error, before the store is
    /// asked anything. Else the store makes the change; then the
    /// descriptor search text is emptied, the descriptor is selected, and
    /// the descriptors and the description are brought up to date.
    pub open spec fn descriptor_changed(
        self,
        label: Label,
        saved: Result<(), Failure>,
        descriptor: DbColViewEntry<Descriptor>,
    ) -> Result<EntityModel, Failure> {
        if self.lore_database is None {
            Err(Failure::NoDatabase)
        } else if !self.entity_view_state@.has_selected(label@) {
            Err(entity_not_selected())
        } else {
            and_then(
                saved,
                self.entity_view_state@.descriptor_reselected(descriptor).refreshed_descriptors(
                    self.lore_database,
                ),
            )
        }
    }

    /// What a new descriptor makes of the entity view.
    pub open spec fn descriptor_written(self, data: NewDescriptorData) -> Result<
        EntityModel,
        Failure,
    > {
        self.descriptor_changed(
            data.label,
            data.saved(self.lore_database),
            DbColViewEntry(Some(data.descriptor)),
        )
    }

    /// What a new name of a descriptor makes of the entity view.
    pub open spec fn descriptor_renamed(self, data: RenameDescriptorData) -> Result<
        EntityModel,
        Failure,
    > {
        self.descriptor_changed(
            data.label,
            data.saved(self.lore_database),
            DbColViewEntry(Some(data.new_descriptor)),
        )
    }

    /// What deleting a descriptor makes of the entity view.
    pub open spec fn descriptor_deleted(self, label: Label, descriptor: Descriptor) -> Result<
        EntityModel,
        Failure,
    > {
        self.descriptor_changed(
            label,
            written(
                self.lore_database,
                MutationView::DeleteDescriptor { label: label@, descriptor: descriptor@ },
            ),
            DbColViewEntry(None),
        )
    }

    /// Handles a message of the entity view.
    pub fn update_entity_view(&mut self, event: EntityViewMessage) -> (result: Result<
        (),
        LoreGuiError,
    >)
        ensures
            old(self).entity_view_message_handled(*final(self), event, result),
    {
        match event {
            EntityViewMessage::NewEntity => {
                self.dialog = Some(Dialog::NewEntity(NewEntityDialog::new()));
            },
            EntityViewMessage::RelabelEntity(data) => {
                self.dialog = Some(Dialog::RelabelEntity(RelabelEntityDialog::new(data)));
            },
            EntityViewMessage::DeleteEntity(label) => {
                let mut message = "Do you really want to delete ".to_owned();
                message.append(label.as_str());
                message.append("?");
                let on_confirm = GuiMes::DeleteEntity(label);
                self.dialog = Some(
                    Dialog::Confirmation(ConfirmationDialog::new(message, on_confirm)),
                );
            },
            EntityViewMessage::NewDescriptor(label) => {
                self.dialog = Some(Dialog::NewDescriptor(NewDescriptorDialog::new(label)));
            },
            EntityViewMessage::RenameDescriptor(data) => {
                self.dialog = Some(Dialog::RenameDescriptor(RenameDescriptorDialog::new(data)));
            },
            EntityViewMessage::DeleteDescriptor(label, descriptor) => {
                let mut message = "Do you really want to delete ".to_owned();
                message.append(label.as_str());
                message.append("'s descriptor ");
                message.append(descriptor.as_str());
                message.append("?");
                let on_confirm = GuiMes::DeleteDescriptor(label, descriptor);
                self.dialog = Some(
                    Dialog::Confirmation(ConfirmationDialog::new(message, on_confirm)),
                );
            },
            EntityViewMessage::LabelViewUpd(event) => {
                self.update_label_view(event)?;
            },
            EntityViewMessage::DescriptorViewUpd(event) => {
                self.update_descriptor_view(event)?;
            },
        };
        Ok(())
    }

    /// Handles an event of the label column. A new search text leaves
    /// the selected label as it is; either event clears the selected
    /// descriptor and brings every level below the change up to date.
    pub fn update_label_view(&mut self, event: ColViewMes<Label>) -> (result: Result<
        (),
        LoreGuiError,
    >)
        ensures
            old(self).label_event_handled(*final(self), event, result),
    {
        let mut state = self.entity_view_state.clone();
        match event {
            ColViewMes::SearchFieldUpd(text) => {
                state.label_view_state.set_search_text(text);
                state.descriptor_view_state.set_selected(DbColViewEntry::none());
                state.update_labels(&self.lore_database)?;
            },
            ColViewMes::Selected(_index, label) => {
                state.label_view_state.set_selected(label);
                state.descriptor_view_state.set_selected(DbColViewEntry::none());
                state.update_descriptors(&self.lore_database)?;
            },
        };
        self.entity_view_state = state;
        Ok(())
    }

    /// Handles an event of the descriptor column. The label column is
    /// left as it is.
    pub fn update_descriptor_view(&mut self, event: ColViewMes<Descriptor>) -> (result: Result<
        (),
        LoreGuiError,
    >)
        ensures
            old(self).descriptor_event_handled(*final(self), event, result),
    {
        let mut state = self.entity_view_state.clone();
        match event {
            ColViewMes::SearchFieldUpd(text) => {
                state.descriptor_view_state.set_search_text(text);
                state.update_descriptors(&self.lore_database)?;
            },
            ColViewMes::Selected(_index, descriptor) => {
                state.descriptor_view_state.set_selected(descriptor);
                state.update_description(&self.lore_database)?;
            },
        };
        self.entity_view_state = state;
        Ok(())
    }

    /// Shows the entity view after a change to the store that touched
    /// the labels: with an empty label search text and with `label`
    /// selected.
    fn reselect_label(&mut self, label: DbColViewEntry<Label>) -> (result: Result<
        (),
        LoreGuiError,
    >)
        ensures
            lands(
                result,
                old(self).entity_view_state@,
                final(self).entity_view_state@,
                old(self).entity_view_state@.label_reselected(label).refreshed_labels(
                    old(self).lore_database,
                ),
            ),
            final(self).same_beside_entity_view(*old(self)),
            final(self).dialog == old(self).dialog_after(result),
    {
        let mut state = self.entity_view_state.clone();
        state.label_view_state.set_search_text(String::new());
        state.label_view_state.set_selected(label);
        state.descriptor_view_state.set_selected(DbColViewEntry::none());
        state.update_labels(&self.lore_database)?;
        self.entity_view_state = state;
        self.dialog = None;
        Ok(())
    }

    /// Shows the entity view after a change to the store that touched
    /// the descriptors: with an empty descriptor search text and with
    /// `descriptor` selected.
    fn reselect_descriptor(&mut self, descriptor: DbColViewEntry<Descriptor>) -> (result: Result<
        (),
        LoreGuiError,
    >)
        ensures
            lands(
                result,
                old(self).entity_view_state@,
                final(self).entity_view_state@,
                old(self).entity_view_state@.descriptor_reselected(descriptor).refreshed_descriptors(
                    old(self).lore_database,
                ),
            ),
            final(self).same_beside_entity_view(*old(self)),
            final(self).dialog == old(self).dialog_after(result),
    {
        let mut state = self.entity_view_state.clone();
        state.descriptor_view_state.set_search_text(String::new());
        state.descriptor_view_state.set_selected(descriptor);
        state.update_descriptors(&self.lore_database)?;
        self.entity_view_state = state;
        self.dialog = None;
        Ok(())
    }

    /// Fails unless a store is connected and the entity with this label
    /// is the selected one.
    fn check_entity_selected(&self, label: &Label) -> (result: Result<(), LoreGuiError>)
        ensures
            crate::errors::outcome(result) == (if self.lore_database is None {
                Err::<(), Failure>(Failure::NoDatabase)
            } else if !self.entity_view_state@.has_selected(label@) {
                Err(entity_not_selected())
            } else {
                Ok(())
            }),
    {
        if self.lore_database.is_none() {
            return Err(LoreGuiError::NoDatabase);
        }
        if !self.entity_view_state.has_selected(label) {
            return Err(
                LoreGuiError::InputError("the entity of the descriptor is not selected".to_owned()),
            );
        }
        Ok(())
    }

    /// Creates an entity, selects it, and closes the dialog.
    pub fn write_new_entity(&mut self, data: NewEntityData) -> (result: Result<(), LoreGuiError>)
        ensures
            old(self).entity_change_handled(*final(self), result, old(self).entity_written(data)),
    {
        let label = data.get_label().clone();
        data.write_to_database(&self.lore_database)?;
        self.reselect_label(DbColViewEntry(Some(label)))
    }

    /// Gives an entity another label, selects it under that label, and
    /// closes the dialog.
    pub fn relable_entity(&mut self, data: RelabelEntityData) -> (result: Result<(), LoreGuiError>)
        ensures
            old(self).entity_change_handled(
                *final(self),
                result,
                old(self).entity_relabelled(data),
            ),
    {
        let new_label = data.get_label().clone();
        data.update_label_in_database(&self.lore_database)?;
        self.reselect_label(DbColViewEntry(Some(new_label)))
    }

    /// Deletes an entity, clears the selection, and closes the dialog.
    pub fn delete_entity(&mut self, label: Label) -> (result: Result<(), LoreGuiError>)
        ensures
            old(self).entity_change_handled(*final(self), result, old(self).entity_deleted(label)),
    {
        mutate(&self.lore_database, StoreMutation::DeleteEntity { label })?;
        self.reselect_label(DbColViewEntry::none())
    }

    /// Gives the selected entity a new descriptor, selects the
    /// descriptor, and closes the dialog.
    pub fn write_new_descriptor(&mut self, data: NewDescriptorData) -> (result: Result<
        (),
        LoreGuiError,
    >)
        ensures
            old(self).entity_change_handled(
                *final(self),
                result,
                old(self).descriptor_written(data),
            ),
    {
        self.check_entity_selected(data.get_label())?;
        let descriptor = data.get_descriptor().clone();
        data.write_to_database(&self.lore_database)?;
        self.reselect_descriptor(DbColViewEntry(Some(descriptor)))
    }

    /// Gives a descriptor of the selected entity another name, selects
    /// it under that name, and closes the dialog.
    pub fn change_descriptor(&mut self, data: RenameDescriptorData) -> (result: Result<
        (),
        LoreGuiError,
    >)
        ensures
            old(self).entity_change_handled(
                *final(self),
                result,
                old(self).descriptor_renamed(data),
            ),
    {
        self.check_entity_selected(&data.label)?;
        let descriptor = data.get_descriptor().clone();
        data.update_descriptor_in_database(&self.lore_database)?;
        self.reselect_descriptor(DbColViewEntry(Some(descriptor)))
    }

    /// Deletes a descriptor of the selected entity, clears the selected
    /// descriptor, and closes the dialog.
    pub fn delete_descriptor(&mut self, label: Label, descriptor: Descriptor) -> (result: Result<
        (),
        LoreGuiError,
    >)
        ensures
            old(self).entity_change_handled(
                *final(self),
                result,
                old(self).descriptor_deleted(label, descriptor),
            ),
    {
        self.check_entity_selected(&label)?;
        mutate(&self.lore_database, StoreMutation::DeleteDescriptor { label, descriptor })?;
        self.reselect_descriptor(DbColViewEntry::none())
    }
}

} // verus!
