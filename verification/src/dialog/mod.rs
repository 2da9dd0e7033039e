//! The dialogs through which the user changes the store, and the data
//! that each of them collects.

use vstd::prelude::*;
use crate::db_col_view::number::{parse_number, read_number, NumberFault};
use crate::gui::message_handling::GuiMes;
use crate::types::{clone_optional_text, Day, Descriptor, Label, Role, Year};

pub mod change_role;
pub mod confirmation;
pub mod new_descriptor;
pub mod new_entity;
pub mod new_history_item;
pub mod new_relationship;
pub mod redate_history;
pub mod relabel_entity;
pub mod rename_descriptor;

verus! {

/// What the user entered into a field of the open dialog.
#[derive(Debug, PartialEq, Eq)]
pub enum DialogUpdate {
    Label(Label),
    Descriptor(Descriptor),
    Parent(Label),
    Child(Label),
    Role(Option<Role>),
    /// The year that was typed, or what is wrong with the text.
    Year(Result<Year, NumberFault>),
    /// The day that was typed, or what is wrong with the text.
    Day(Result<Day, NumberFault>),
    Content(String),
}

impl Clone for DialogUpdate {
    fn clone(&self) -> (copy: Self)
        ensures
            copy == *self,
    {
        match self {
            DialogUpdate::Label(label) => DialogUpdate::Label(label.clone()),
            DialogUpdate::Descriptor(descriptor) => DialogUpdate::Descriptor(descriptor.clone()),
            DialogUpdate::Parent(label) => DialogUpdate::Parent(label.clone()),
            DialogUpdate::Child(label) => DialogUpdate::Child(label.clone()),
            DialogUpdate::Role(role) => DialogUpdate::Role(clone_optional_text(role)),
            DialogUpdate::Year(year) => DialogUpdate::Year(*year),
            DialogUpdate::Day(day) => DialogUpdate::Day(*day),
            DialogUpdate::Content(content) => DialogUpdate::Content(content.clone()),
        }
    }
}

/// The day that a text stands for: no day for the empty text, and else
/// the number that the text holds.
pub open spec fn read_day(text: Seq<char>) -> Result<Day, NumberFault> {
    if text.len() == 0 {
        Ok(None)
    } else {
        match read_number(text) {
            Ok(day) => Ok(Some(day)),
            Err(fault) => Err(fault),
        }
    }
}

/// The role that a text stands for: no role for the empty text.
pub open spec fn read_role(text: Seq<char>) -> Option<Seq<char>> {
    if text.len() == 0 {
        None
    } else {
        Some(text)
    }
}

/// The update for a text typed into the year field.
pub fn year_update(text: &str) -> (update: DialogUpdate)
    ensures
        update == DialogUpdate::Year(read_number(text@)),
{
    DialogUpdate::Year(parse_number(text))
}

/// The update for a text typed into the day field.
pub fn day_update(text: &str) -> (update: DialogUpdate)
    ensures
        update == DialogUpdate::Day(read_day(text@)),
{
    if text.unicode_len() == 0 {
        DialogUpdate::Day(Ok(None))
    } else {
        match parse_number(text) {
            Ok(day) => DialogUpdate::Day(Ok(Some(day))),
            Err(fault) => DialogUpdate::Day(Err(fault)),
        }
    }
}

/// The update for a text typed into the role field.
pub fn role_update(text: String) -> (update: DialogUpdate)
    ensures
        update matches DialogUpdate::Role(role) && crate::types::optional_text(role) == read_role(
            text@,
        ),
{
    if text.as_str().unicode_len() == 0 {
        DialogUpdate::Role(None)
    } else {
        DialogUpdate::Role(Some(text))
    }
}

/// The dialog that is open. There is one kind for each change that the
/// user can ask for.
#[derive(Debug, PartialEq, Eq)]
pub enum Dialog {
    NewEntity(new_entity::NewEntityDialog),
    RelabelEntity(relabel_entity::RelabelEntityDialog),
    NewDescriptor(new_descriptor::NewDescriptorDialog),
    RenameDescriptor(rename_descriptor::RenameDescriptorDialog),
    NewRelationship(new_relationship::NewRelationshipDialog),
    ChangeRole(change_role::ChangeRoleDialog),
    NewHistoryItem(new_history_item::NewHistoryDialog),
    RedateHistory(redate_history::RedateHistoryDialog),
    Confirmation(confirmation::ConfirmationDialog),
}

impl Dialog {
    /// The dialog after the user entered something into one of its
    /// fields. What the dialog has no field for leaves it as it is, and
    /// so does a year or a day that is no number.
    pub open spec fn updated(self, event: DialogUpdate) -> Dialog {
        match (self, event) {
            (Dialog::NewEntity(dialog), DialogUpdate::Label(label)) => Dialog::NewEntity(
                new_entity::NewEntityDialog { data: new_entity::NewEntityData { label } },
            ),
            (Dialog::RelabelEntity(dialog), DialogUpdate::Label(label)) => Dialog::RelabelEntity(
                relabel_entity::RelabelEntityDialog {
                    data: relabel_entity::RelabelEntityData { new_label: label, ..dialog.data },
                },
            ),
            (
                Dialog::NewDescriptor(dialog),
                DialogUpdate::Descriptor(descriptor),
            ) => Dialog::NewDescriptor(
                new_descriptor::NewDescriptorDialog {
                    data: new_descriptor::NewDescriptorData { descriptor, ..dialog.data },
                },
            ),
            (
                Dialog::RenameDescriptor(dialog),
                DialogUpdate::Descriptor(descriptor),
            ) => Dialog::RenameDescriptor(
                rename_descriptor::RenameDescriptorDialog {
                    data: rename_descriptor::RenameDescriptorData {
                        new_descriptor: descriptor,
                        ..dialog.data
                    },
                },
            ),
            (Dialog::NewRelationship(dialog), DialogUpdate::Parent(parent)) => Dialog::NewRelationship(
                new_relationship::NewRelationshipDialog {
                    data: new_relationship::NewRelationshipData { parent, ..dialog.data },
                    ..dialog
                },
            ),
            (Dialog::NewRelationship(dialog), DialogUpdate::Child(child)) => Dialog::NewRelationship(
                new_relationship::NewRelationshipDialog {
                    data: new_relationship::NewRelationshipData { child, ..dialog.data },
                    ..dialog
                },
            ),
            (Dialog::NewRelationship(dialog), DialogUpdate::Role(role)) => Dialog::NewRelationship(
                new_relationship::NewRelationshipDialog {
                    data: new_relationship::NewRelationshipData { role, ..dialog.data },
                    ..dialog
                },
            ),
            (Dialog::ChangeRole(dialog), DialogUpdate::Role(role)) => Dialog::ChangeRole(
                change_role::ChangeRoleDialog {
                    data: change_role::ChangeRoleData { new_role: role, ..dialog.data },
                },
            ),
            (Dialog::NewHistoryItem(dialog), DialogUpdate::Year(Ok(year))) => Dialog::NewHistoryItem(
                new_history_item::NewHistoryDialog {
                    data: new_history_item::NewHistoryData { year, ..dialog.data },
                },
            ),
            (Dialog::NewHistoryItem(dialog), DialogUpdate::Day(Ok(day))) => Dialog::NewHistoryItem(
                new_history_item::NewHistoryDialog {
                    data: new_history_item::NewHistoryData { day, ..dialog.data },
                },
            ),
            (Dialog::NewHistoryItem(dialog), DialogUpdate::Content(content)) => Dialog::NewHistoryItem(
                new_history_item::NewHistoryDialog {
                    data: new_history_item::NewHistoryData { content, ..dialog.data },
                },
            ),
            (Dialog::RedateHistory(dialog), DialogUpdate::Year(Ok(year))) => Dialog::RedateHistory(
                redate_history::RedateHistoryDialog {
                    data: redate_history::RedateHistoryData { new_year: year, ..dialog.data },
                },
            ),
            (Dialog::RedateHistory(dialog), DialogUpdate::Day(Ok(day))) => Dialog::RedateHistory(
                redate_history::RedateHistoryDialog {
                    data: redate_history::RedateHistoryData { new_day: day, ..dialog.data },
                },
            ),
            _ => self,
        }
    }

    /// The message that submitting the dialog sends: the change that the
    /// dialog has collected the data for, or, for a confirmation, the
    /// message that was to be confirmed.
    pub open spec fn submitted(self) -> GuiMes {
        match self {
            Dialog::NewEntity(dialog) => GuiMes::NewEntity(dialog.data),
            Dialog::RelabelEntity(dialog) => GuiMes::RelabelEntity(dialog.data),
            Dialog::NewDescriptor(dialog) => GuiMes::NewDescriptor(dialog.data),
            Dialog::RenameDescriptor(dialog) => GuiMes::RenameDescriptor(dialog.data),
            Dialog::NewRelationship(dialog) => GuiMes::NewRelationship(dialog.data),
            Dialog::ChangeRole(dialog) => GuiMes::ChangeRole(dialog.data),
            Dialog::NewHistoryItem(dialog) => GuiMes::NewHistoryItem(dialog.data),
            Dialog::RedateHistory(dialog) => GuiMes::RedateHistoryItem(dialog.data),
            Dialog::Confirmation(dialog) => dialog.on_confirm,
        }
    }

    /// The title of the dialog.
    pub open spec fn header_text(self) -> Seq<char> {
        match self {
            Dialog::NewEntity(_) => "Create new entity"@,
            Dialog::RelabelEntity(_) => "Relabel entity"@,
            Dialog::NewDescriptor(_) => "Create new descriptor"@,
            Dialog::RenameDescriptor(_) => "Rename descriptor"@,
            Dialog::NewRelationship(_) => "Create new relationship"@,
            Dialog::ChangeRole(dialog) => dialog.header_text(),
            Dialog::NewHistoryItem(_) => "Create new history item"@,
            Dialog::RedateHistory(dialog) => dialog.header_text(),
            Dialog::Confirmation(_) => "Confirmation"@,
        }
    }

    /// The title of the dialog.
    pub fn header(&self) -> (header: String)
        ensures
            header@ == self.header_text(),
    {
        match self {
            Dialog::NewEntity(_) => "Create new entity".to_owned(),
            Dialog::RelabelEntity(_) => "Relabel entity".to_owned(),
            Dialog::NewDescriptor(_) => "Create new descriptor".to_owned(),
            Dialog::RenameDescriptor(_) => "Rename descriptor".to_owned(),
            Dialog::NewRelationship(_) => "Create new relationship".to_owned(),
            Dialog::ChangeRole(dialog) => dialog.header(),
            Dialog::NewHistoryItem(_) => "Create new history item".to_owned(),
            Dialog::RedateHistory(dialog) => dialog.header(),
            Dialog::Confirmation(dialog) => dialog.header(),
        }
    }

    /// Takes what the user entered into a field of the dialog.
    pub fn update(&mut self, event: DialogUpdate)
        ensures
            *final(self) == old(self).updated(event),
    {
        match self {
            Dialog::NewEntity(dialog) => match event {
                DialogUpdate::Label(label) => {
                    dialog.data.label = label;
                },
                _ => {},
            },
            Dialog::RelabelEntity(dialog) => match event {
                DialogUpdate::Label(label) => {
                    dialog.data.new_label = label;
                },
                _ => {},
            },
            Dialog::NewDescriptor(dialog) => match event {
                DialogUpdate::Descriptor(descriptor) => {
                    dialog.data.descriptor = descriptor;
                },
                _ => {},
            },
            Dialog::RenameDescriptor(dialog) => match event {
                DialogUpdate::Descriptor(descriptor) => {
                    dialog.data.new_descriptor = descriptor;
                },
                _ => {},
            },
            Dialog::NewRelationship(dialog) => match event {
                DialogUpdate::Parent(parent) => {
                    dialog.data.parent = parent;
                },
                DialogUpdate::Child(child) => {
                    dialog.data.child = child;
                },
                DialogUpdate::Role(role) => {
                    dialog.data.role = role;
                },
                _ => {},
            },
            Dialog::ChangeRole(dialog) => match event {
                DialogUpdate::Role(role) => {
                    dialog.data.new_role = role;
                },
                _ => {},
            },
            Dialog::NewHistoryItem(dialog) => match event {
                DialogUpdate::Year(Ok(year)) => {
                    dialog.data.year = year;
                },
                DialogUpdate::Day(Ok(day)) => {
                    dialog.data.day = day;
                },
                DialogUpdate::Content(content) => {
                    dialog.data.content = content;
                },
                _ => {},
            },
            Dialog::RedateHistory(dialog) => match event {
                DialogUpdate::Year(Ok(year)) => {
                    dialog.data.new_year = year;
                },
                DialogUpdate::Day(Ok(day)) => {
                    dialog.data.new_day = day;
                },
                _ => {},
            },
            Dialog::Confirmation(_) => {},
        }
    }

    /// The message that submitting the dialog sends.
    pub fn submit(&self) -> (message: GuiMes)
        ensures
            message == self.submitted(),
    {
        match self {
            Dialog::NewEntity(dialog) => GuiMes::NewEntity(dialog.data.clone()),
            Dialog::RelabelEntity(dialog) => GuiMes::RelabelEntity(dialog.data.clone()),
            Dialog::NewDescriptor(dialog) => GuiMes::NewDescriptor(dialog.data.clone()),
            Dialog::RenameDescriptor(dialog) => GuiMes::RenameDescriptor(dialog.data.clone()),
            Dialog::NewRelationship(dialog) => GuiMes::NewRelationship(dialog.data.clone()),
            Dialog::ChangeRole(dialog) => GuiMes::ChangeRole(dialog.data.clone()),
            Dialog::NewHistoryItem(dialog) => GuiMes::NewHistoryItem(dialog.data.clone()),
            Dialog::RedateHistory(dialog) => GuiMes::RedateHistoryItem(dialog.data),
            Dialog::Confirmation(dialog) => dialog.on_confirm.clone(),
        }
    }
}

} // verus!
