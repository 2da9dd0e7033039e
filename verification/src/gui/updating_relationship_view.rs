//! What the messages of the relationship view, and the changes to
//! relationships, do to the application.

use vstd::prelude::*;
use super::SqlGui;
use crate::db_col_view::ColViewMes;
use crate::dialog::change_role::{ChangeRoleData, ChangeRoleDialog};
use crate::dialog::new_relationship::{NewRelationshipData, NewRelationshipDialog};
use crate::dialog::Dialog;
use crate::errors::{and_then, lands, rows, Failure, LoreGuiError};
use crate::relationship_view::{RelationshipModel, RelationshipViewMessage};
use crate::store::{labels_of, query_labels, Store};
use crate::types::{Label, Role};

verus! {

impl RelationshipModel {
    /// The state after a relationship was created: both search texts are
    /// empty, the selections stay, and the parents and the children are
    /// brought up to date.
    pub open spec fn after_new_relationship(self, db: Option<Store>) -> Result<
        RelationshipModel,
        Failure,
    > {
        match (RelationshipModel {
            parent: crate::db_col_view::state::ColumnModel {
                search_text: Seq::empty(),
                ..self.parent
            },
            child: crate::db_col_view::state::ColumnModel {
                search_text: Seq::empty(),
                ..self.child
            },
            ..self
        }).refreshed_parents(db) {
            Ok(next) => next.refreshed_children(db),
            Err(failure) => Err(failure),
        }
    }
}

/// A new relationship ends, where it goes through, with both search
/// texts empty and with the parents and the children showing what the
/// store has. The selections and the role stay.
pub proof fn new_relationship_leaves_nothing_stale(state: RelationshipModel, db: Option<Store>)
    requires
        state.after_new_relationship(db) is Ok,
    ensures
        ({
            let next = state.after_new_relationship(db)->Ok_0;
            &&& next.parent.search_text.len() == 0
            &&& next.child.search_text.len() == 0
            &&& next.parent.selected == state.parent.selected
            &&& next.child.selected == state.child.selected
            &&& next.role == state.role
            &&& next.parents_current(db)
            &&& next.children_current(db)
        }),
{
}

impl SqlGui {
    /// Whether an event of a column of the relationship view was
    /// handled: the relationship view is what was expected, and nothing
    /// else has changed.
    pub open spec fn relationship_event_handled(
        self,
        after: SqlGui,
        result: Result<(), LoreGuiError>,
        expected: Result<RelationshipModel, Failure>,
    ) -> bool {
        &&& lands(result, self.relationship_view_state@, after.relationship_view_state@, expected)
        &&& after.same_beside_relationship_view(self)
        &&& after.dialog == self.dialog
    }

    /// Whether a change to the store that touches the relationship view
    /// was handled: the relationship view is what was expected, the
    /// dialog is closed where the change went through, and nothing else
    /// has changed.
    pub open spec fn relationship_change_handled(
        self,
        after: SqlGui,
        result: Result<(), LoreGuiError>,
        expected: Result<RelationshipModel, Failure>,
    ) -> bool {
        &&& lands(result, self.relationship_view_state@, after.relationship_view_state@, expected)
        &&& after.same_beside_relationship_view(self)
        &&& after.dialog == self.dialog_after(result)
    }

    /// Whether the dialog for a new relationship was opened: it offers
    /// the labels of all entities, as parents and as children. Where the
    /// store has not given the labels, nothing has changed.
    pub open spec fn new_relationship_dialog_opened(
        self,
        after: SqlGui,
        result: Result<(), LoreGuiError>,
    ) -> bool {
        &&& after.same_views(self)
        &&& match labels_of(self.lore_database, None) {
            Ok(labels) => {
                &&& result is Ok
                &&& after.dialog matches Some(Dialog::NewRelationship(opened))
                &&& opened.parents@ == labels
                &&& opened.children@ == labels
                &&& opened.data.parent@.len() == 0
                &&& opened.data.child@.len() == 0
                &&& opened.data.role is None
            },
            Err(failure) => {
                &&& crate::errors::outcome(result) == Err::<(), Failure>(failure)
                &&& after.dialog == self.dialog
            },
        }
    }

    /// Whether a message of the relationship view was handled.
    pub open spec fn relationship_view_message_handled(
        self,
        after: SqlGui,
        event: RelationshipViewMessage,
        result: Result<(), LoreGuiError>,
    ) -> bool {
        match event {
            RelationshipViewMessage::NewRelationship => self.new_relationship_dialog_opened(
                after,
                result,
            ),
            RelationshipViewMessage::ChangeRole(relationship) => {
                &&& result is Ok
                &&& after.dialog == Some(
                    Dialog::ChangeRole(
                        ChangeRoleDialog {
                            data: ChangeRoleData {
                                old_relationship: relationship,
                                new_role: relationship.role,
                            },
                        },
                    ),
                )
                &&& after.same_views(self)
            },
            RelationshipViewMessage::ParentViewUpd(event) => self.relationship_event_handled(
                after,
                result,
                self.relationship_view_state@.after_parent_event(event, self.lore_database),
            ),
            RelationshipViewMessage::ChildViewUpd(event) => self.relationship_event_handled(
                after,
                result,
                self.relationship_view_state@.after_child_event(event, self.lore_database),
            ),
            RelationshipViewMessage::RoleViewUpd(event) => self.relationship_event_handled(
                after,
                result,
                Ok(self.relationship_view_state@.after_role_event(event)),
            ),
        }
    }

    /// What a new relationship makes of the relationship view.
    pub open spec fn relationship_written(self, data: NewRelationshipData) -> Result<
        RelationshipModel,
        Failure,
    > {
        and_then(
            data.saved(self.lore_database),
            self.relationship_view_state@.after_new_relationship(self.lore_database),
        )
    }

    /// What a new role of a relationship makes of the relationship view.
    pub open spec fn role_changed(self, data: ChangeRoleData) -> Result<RelationshipModel, Failure> {
        and_then(
            data.saved(self.lore_database),
            self.relationship_view_state@.refreshed_role(self.lore_database),
        )
    }

    /// Handles a message of the relationship view.
    pub fn update_relationship_view(&mut self, event: RelationshipViewMessage) -> (result: Result<
        (),
        LoreGuiError,
    >)
        ensures
            old(self).relationship_view_message_handled(*final(self), event, result),
    {
        match event {
            RelationshipViewMessage::NewRelationship => {
                let labels = self.get_all_labels(&self.lore_database)?;
                let parents = labels.clone();
                assert(parents@ =~= labels@);
                self.dialog = Some(
                    Dialog::NewRelationship(NewRelationshipDialog::new(parents, labels)),
                );
            },
            RelationshipViewMessage::ChangeRole(relationship) => {
                self.dialog = Some(
                    Dialog::ChangeRole(ChangeRoleDialog::new(ChangeRoleData::new(relationship))),
                );
            },
            RelationshipViewMessage::ParentViewUpd(event) => {
                self.update_parent_view(event)?;
            },
            RelationshipViewMessage::ChildViewUpd(event) => {
                self.update_child_view(event)?;
            },
            RelationshipViewMessage::RoleViewUpd(event) => {
                self.update_role_view(event)?;
            },
        };
        Ok(())
    }

    /// Handles an event of the parent column. A new search text brings
    /// the parents up to date, and leaves the selections as they are. A
    /// new selection brings the children and the role up to date.
    pub fn update_parent_view(&mut self, event: ColViewMes<Label>) -> (result: Result<
        (),
        LoreGuiError,
    >)
        ensures
            old(self).relationship_event_handled(
                *final(self),
                result,
                old(self).relationship_view_state@.after_parent_event(
                    event,
                    old(self).lore_database,
                ),
            ),
    {
        let mut state = self.relationship_view_state.clone();
        match event {
            ColViewMes::SearchFieldUpd(text) => {
                state.parent_view_state.set_search_text(text);
                state.update_parents(&self.lore_database)?;
            },
            ColViewMes::Selected(_index, parent) => {
                state.parent_view_state.set_selected(parent);
                state.role_view_state.set_selected_none();
                state.update_children(&self.lore_database)?;
                state.update_role(&self.lore_database)?;
            },
        };
        self.relationship_view_state = state;
        Ok(())
    }

    /// Handles an event of the child column. A new search text brings
    /// the children up to date, and leaves the selections as they are. A
    /// new selection brings the parents and the role up to date.
    pub fn update_child_view(&mut self, event: ColViewMes<Label>) -> (result: Result<
        (),
        LoreGuiError,
    >)
        ensures
            old(self).relationship_event_handled(
                *final(self),
                result,
                old(self).relationship_view_state@.after_child_event(
                    event,
                    old(self).lore_database,
                ),
            ),
    {
        let mut state = self.relationship_view_state.clone();
        match event {
            ColViewMes::SearchFieldUpd(text) => {
                state.child_view_state.set_search_text(text);
                state.update_children(&self.lore_database)?;
            },
            ColViewMes::Selected(_index, child) => {
                state.child_view_state.set_selected(child);
                state.role_view_state.set_selected_none();
                state.update_parents(&self.lore_database)?;
                state.update_role(&self.lore_database)?;
            },
        };
        self.relationship_view_state = state;
        Ok(())
    }

    /// Handles an event of the role column. The role follows from the
    /// selected parent and child: the event changes what the role column
    /// keeps of its own, asks nothing of the store, and cannot fail.
    pub fn update_role_view(&mut self, event: ColViewMes<Role>) -> (result: Result<
        (),
        LoreGuiError,
    >)
        ensures
            old(self).relationship_event_handled(
                *final(self),
                result,
                Ok(old(self).relationship_view_state@.after_role_event(event)),
            ),
    {
        let state = &mut self.relationship_view_state;
        match event {
            ColViewMes::SearchFieldUpd(text) => {
                state.role_view_state.set_search_text(text);
            },
            ColViewMes::Selected(_index, role) => {
                state.role_view_state.set_selected(role);
            },
        };
        Ok(())
    }

    /// Creates a relationship, empties both search texts, brings the
    /// parents and the children up to date, and closes the dialog.
    pub fn write_new_relationship(&mut self, data: NewRelationshipData) -> (result: Result<
        (),
        LoreGuiError,
    >)
        ensures
            old(self).relationship_change_handled(
                *final(self),
                result,
                old(self).relationship_written(data),
            ),
    {
        data.write_to_database(&self.lore_database)?;
        let mut state = self.relationship_view_state.clone();
        state.parent_view_state.set_search_text(String::new());
        state.child_view_state.set_search_text(String::new());
        state.update_parents(&self.lore_database)?;
        state.update_children(&self.lore_database)?;
        self.relationship_view_state = state;
        self.dialog = None;
        Ok(())
    }

    /// Gives a relationship another role, brings the role on display up
    /// to date, and closes the dialog.
    pub fn change_role(&mut self, data: ChangeRoleData) -> (result: Result<(), LoreGuiError>)
        ensures
            old(self).relationship_change_handled(*final(self), result, old(self).role_changed(data)),
    {
        data.write_to_database(&self.lore_database)?;
        let mut state = self.relationship_view_state.clone();
        state.update_role(&self.lore_database)?;
        self.relationship_view_state = state;
        self.dialog = None;
        Ok(())
    }

    /// Asks the store for the labels of all entities.
    pub fn get_all_labels(&self, db: &Option<Store>) -> (result: Result<Vec<Label>, LoreGuiError>)
        ensures
            rows(result) == labels_of(*db, None),
    {
        query_labels(db, None)
    }
}

} // verus!
