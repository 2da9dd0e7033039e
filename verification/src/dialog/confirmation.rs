//! Asking the user to confirm what cannot be taken back.

use vstd::prelude::*;
use crate::gui::message_handling::GuiMes;

verus! {

/// The dialog that asks whether an action is meant. It holds the message
/// that carries the action out; the message is sent when the user agrees.
#[derive(Debug, PartialEq, Eq)]
pub struct ConfirmationDialog {
    pub message: String,
    pub on_confirm: GuiMes,
}

impl Clone for ConfirmationDialog {
    fn clone(&self) -> (copy: Self)
        ensures
            copy == *self,
    {
        ConfirmationDialog { message: self.message.clone(), on_confirm: self.on_confirm.clone() }
    }
}

impl ConfirmationDialog {
    /// A dialog with the question to ask and the message to send on "yes".
    pub fn new(message: String, on_confirm: GuiMes) -> (dialog: Self)
        ensures
            dialog.message == message,
            dialog.on_confirm == on_confirm,
    {
        Self { message, on_confirm }
    }

    /// The title of the dialog.
    pub fn header(&self) -> (header: String)
        ensures
            header@ == "Confirmation"@,
    {
        "Confirmation".to_owned()
    }

    /// Takes what happened inside the dialog. It is a message to the
    /// application, and is handed on as it is.
    pub fn update(&mut self, event: GuiMes) -> (message: Option<GuiMes>)
        ensures
            *final(self) == *old(self),
            message == Some(event),
    {
        Some(event)
    }
}

} // verus!
