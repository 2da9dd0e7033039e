//! The messages of the application.

use vstd::prelude::*;
use crate::dialog::change_role::ChangeRoleData;
use crate::dialog::new_descriptor::NewDescriptorData;
use crate::dialog::new_entity::NewEntityData;
use crate::dialog::new_history_item::NewHistoryData;
use crate::dialog::new_relationship::NewRelationshipData;
use crate::dialog::redate_history::RedateHistoryData;
use crate::dialog::relabel_entity::RelabelEntityData;
use crate::dialog::rename_descriptor::RenameDescriptorData;
use crate::dialog::DialogUpdate;
use crate::entity_view::EntityViewMessage;
use crate::history_view::HistoryViewMessage;
use crate::relationship_view::RelationshipViewMessage;
use super::SqlGui;
use crate::errors::LoreGuiError;
use crate::types::{Descriptor, Label, Timestamp};

verus! {

/// Everything that can happen to the application.
#[derive(Debug, PartialEq, Eq)]
pub enum GuiMes {
    EntityViewUpd(EntityViewMessage),
    HistoryViewUpd(HistoryViewMessage),
    RelationshipViewUpd(RelationshipViewMessage),
    NewEntity(NewEntityData),
    RelabelEntity(RelabelEntityData),
    DeleteEntity(Label),
    NewDescriptor(NewDescriptorData),
    RenameDescriptor(RenameDescriptorData),
    DeleteDescriptor(Label, Descriptor),
    NewRelationship(NewRelationshipData),
    ChangeRole(ChangeRoleData),
    NewHistoryItem(NewHistoryData),
    RedateHistoryItem(RedateHistoryData),
    DeleteHistoryItem(Timestamp),
    DialogUpdate(DialogUpdate),
    DialogSubmit,
    DialogClosed,
}

impl Clone for GuiMes {
    fn clone(&self) -> (copy: Self)
        ensures
            copy == *self,
    {
        match self {
            GuiMes::EntityViewUpd(event) => GuiMes::EntityViewUpd(event.clone()),
            GuiMes::HistoryViewUpd(event) => GuiMes::HistoryViewUpd(event.clone()),
            GuiMes::RelationshipViewUpd(event) => GuiMes::RelationshipViewUpd(event.clone()),
            GuiMes::NewEntity(data) => GuiMes::NewEntity(data.clone()),
            GuiMes::RelabelEntity(data) => GuiMes::RelabelEntity(data.clone()),
            GuiMes::DeleteEntity(label) => GuiMes::DeleteEntity(label.clone()),
            GuiMes::NewDescriptor(data) => GuiMes::NewDescriptor(data.clone()),
            GuiMes::RenameDescriptor(data) => GuiMes::RenameDescriptor(data.clone()),
            GuiMes::DeleteDescriptor(label, descriptor) => GuiMes::DeleteDescriptor(
                label.clone(),
                descriptor.clone(),
            ),
            GuiMes::NewRelationship(data) => GuiMes::NewRelationship(data.clone()),
            GuiMes::ChangeRole(data) => GuiMes::ChangeRole(data.clone()),
            GuiMes::NewHistoryItem(data) => GuiMes::NewHistoryItem(data.clone()),
            GuiMes::RedateHistoryItem(data) => GuiMes::RedateHistoryItem(*data),
            GuiMes::DeleteHistoryItem(timestamp) => GuiMes::DeleteHistoryItem(*timestamp),
            GuiMes::DialogUpdate(update) => GuiMes::DialogUpdate(update.clone()),
            GuiMes::DialogSubmit => GuiMes::DialogSubmit,
            GuiMes::DialogClosed => GuiMes::DialogClosed,
        }
    }
}

impl SqlGui {
    /// Whether a message was handled as what it is, whatever dialog is open.
    pub open spec fn directly_handled(
        self,
        after: SqlGui,
        message: GuiMes,
        result: Result<(), LoreGuiError>,
    ) -> bool {
        match message {
            GuiMes::EntityViewUpd(event) => self.entity_view_message_handled(after, event, result),
            GuiMes::HistoryViewUpd(event) => self.history_view_message_handled(
                after,
                event,
                result,
            ),
            GuiMes::RelationshipViewUpd(event) => self.relationship_view_message_handled(
                after,
                event,
                result,
            ),
            GuiMes::NewEntity(data) => self.entity_change_handled(
                after,
                result,
                self.entity_written(data),
            ),
            GuiMes::RelabelEntity(data) => self.entity_change_handled(
                after,
                result,
                self.entity_relabelled(data),
            ),
            GuiMes::DeleteEntity(label) => self.entity_change_handled(
                after,
                result,
                self.entity_deleted(label),
            ),
            GuiMes::NewDescriptor(data) => self.entity_change_handled(
                after,
                result,
                self.descriptor_written(data),
            ),
            GuiMes::RenameDescriptor(data) => self.entity_change_handled(
                after,
                result,
                self.descriptor_renamed(data),
            ),
            GuiMes::DeleteDescriptor(label, descriptor) => self.entity_change_handled(
                after,
                result,
                self.descriptor_deleted(label, descriptor),
            ),
            GuiMes::NewRelationship(data) => self.relationship_change_handled(
                after,
                result,
                self.relationship_written(data),
            ),
            GuiMes::ChangeRole(data) => self.relationship_change_handled(
                after,
                result,
                self.role_changed(data),
            ),
            GuiMes::NewHistoryItem(data) => self.history_change_handled(
                after,
                result,
                self.history_item_written(data),
            ),
            GuiMes::RedateHistoryItem(data) => self.history_change_handled(
                after,
                result,
                self.history_item_redated(data),
            ),
            GuiMes::DeleteHistoryItem(timestamp) => self.history_change_handled(
                after,
                result,
                self.history_item_deleted(timestamp),
            ),
            GuiMes::DialogUpdate(update) => {
                &&& result is Ok
                &&& after.same_views(self)
                &&& after.dialog == (match self.dialog {
                    Some(dialog) => Some(dialog.updated(update)),
                    None => None,
                })
            },
            GuiMes::DialogSubmit => result is Ok && after.same(self),
            GuiMes::DialogClosed => result is Ok && after.same_views(self) && after.dialog is None,
        }
    }

    /// Whether a message was handled. Submitting the open dialog is
    /// handling the message that the dialog submits; with no dialog open
    /// it does nothing. Any other message is handled as what it is.
    pub open spec fn message_handled(
        self,
        after: SqlGui,
        message: GuiMes,
        result: Result<(), LoreGuiError>,
    ) -> bool {
        match message {
            GuiMes::DialogSubmit => match self.dialog {
                Some(dialog) => self.directly_handled(after, dialog.submitted(), result),
                None => result is Ok && after.same(self),
            },
            _ => self.directly_handled(after, message, result),
        }
    }

    /// Handles a message.
    pub fn handle_message(&mut self, message: GuiMes) -> (result: Result<(), LoreGuiError>)
        ensures
            old(self).message_handled(*final(self), message, result),
    {
        match message {
            GuiMes::DialogSubmit => {
                let submitted = match &self.dialog {
                    Some(dialog) => dialog.submit(),
                    None => {
                        return Ok(());
                    },
                };
                self.handle_directly(submitted)
            },
            message => self.handle_directly(message),
        }
    }

    /// Handles a message as what it is. A submission does nothing here:
    /// what a dialog submits is a change, never another submission.
    fn handle_directly(&mut self, message: GuiMes) -> (result: Result<(), LoreGuiError>)
        ensures
            old(self).directly_handled(*final(self), message, result),
    {
        match message {
            GuiMes::EntityViewUpd(event) => self.update_entity_view(event),
            GuiMes::HistoryViewUpd(event) => self.update_history_view(event),
            GuiMes::RelationshipViewUpd(event) => self.update_relationship_view(event),
            GuiMes::NewEntity(data) => self.write_new_entity(data),
            GuiMes::RelabelEntity(data) => self.relable_entity(data),
            GuiMes::DeleteEntity(label) => self.delete_entity(label),
            GuiMes::NewDescriptor(data) => self.write_new_descriptor(data),
            GuiMes::RenameDescriptor(data) => self.change_descriptor(data),
            GuiMes::DeleteDescriptor(label, descriptor) => self.delete_descriptor(label, descriptor),
            GuiMes::NewRelationship(data) => self.write_new_relationship(data),
            GuiMes::ChangeRole(data) => self.change_role(data),
            GuiMes::NewHistoryItem(data) => self.write_new_history_item(data),
            GuiMes::RedateHistoryItem(data) => self.redate_history_item(data),
            GuiMes::DeleteHistoryItem(timestamp) => self.delete_history_item(timestamp),
            GuiMes::DialogUpdate(update) => {
                match &mut self.dialog {
                    Some(dialog) => {
                        dialog.update(update);
                    },
                    None => {},
                }
                Ok(())
            },
            GuiMes::DialogSubmit => Ok(()),
            GuiMes::DialogClosed => {
                self.dialog = None;
                Ok(())
            },
        }
    }
}

} // verus!
