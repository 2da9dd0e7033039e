//! The application: the three views, the open dialog and the store, and
//! what each message does to them.
//!
//! Every handler is all or nothing. Where it fails, on an input error, on
//! a refusal of the store or on a reply that is not there yet, the
//! application is as it was before the message.
//!
//! A change to the store is one write, and then the views are brought up
//! to date. Where the store made the change and then refused a query,
//! the change stands in the store, the error is that of the query, and
//! the views and the dialog are as they were before the message.

use vstd::prelude::*;
use crate::dialog::Dialog;
use crate::entity_view::{EntityModel, EntityViewState};
use crate::errors::{lands, Failure, LoreGuiError};
use crate::history_view::{HistoryModel, HistoryViewState};
use crate::relationship_view::{RelationshipModel, RelationshipViewState};
use crate::store::{Answer, Store, StoreReply, StoreRequest};

pub mod message_handling;
pub mod updating_entity_view;
pub mod updating_history_view;
pub mod updating_relationship_view;

verus! {

/// The state of the application.
#[derive(Debug)]
pub struct SqlGui {
    /// What the connected store has answered while the current event is
    /// handled; none while no store is connected.
    pub lore_database: Option<Store>,
    pub entity_view_state: EntityViewState,
    pub history_view_state: HistoryViewState,
    pub relationship_view_state: RelationshipViewState,
    /// The dialog that is open, if one is.
    pub dialog: Option<Dialog>,
}

impl SqlGui {
    /// Whether two states of the application hold the same store record
    /// and the same history and relationship views.
    pub open spec fn same_beside_entity_view(self, other: SqlGui) -> bool {
        &&& self.lore_database == other.lore_database
        &&& self.history_view_state@ == other.history_view_state@
        &&& self.relationship_view_state@ == other.relationship_view_state@
    }

    /// Whether two states of the application hold the same store record
    /// and the same entity and relationship views.
    pub open spec fn same_beside_history_view(self, other: SqlGui) -> bool {
        &&& self.lore_database == other.lore_database
        &&& self.entity_view_state@ == other.entity_view_state@
        &&& self.relationship_view_state@ == other.relationship_view_state@
    }

    /// Whether two states of the application hold the same store record
    /// and the same entity and history views.
    pub open spec fn same_beside_relationship_view(self, other: SqlGui) -> bool {
        &&& self.lore_database == other.lore_database
        &&& self.entity_view_state@ == other.entity_view_state@
        &&& self.history_view_state@ == other.history_view_state@
    }

    /// Whether two states of the application hold the same store record
    /// and the same views.
    pub open spec fn same_views(self, other: SqlGui) -> bool {
        &&& self.lore_database == other.lore_database
        &&& self.entity_view_state@ == other.entity_view_state@
        &&& self.history_view_state@ == other.history_view_state@
        &&& self.relationship_view_state@ == other.relationship_view_state@
    }

    /// Whether two states of the application are the same in all they hold.
    pub open spec fn same(self, other: SqlGui) -> bool {
        self.same_views(other) && self.dialog == other.dialog
    }

    /// The dialog after a change to the store was tried: closed where
    /// the change went through, and as it was where it did not.
    pub open spec fn dialog_after(self, result: Result<(), LoreGuiError>) -> Option<Dialog> {
        if result is Ok {
            None
        } else {
            self.dialog
        }
    }

    /// The application at its start: no store, nothing on display, no dialog.
    pub fn new() -> (gui: Self)
        ensures
            gui.lore_database is None,
            gui.dialog is None,
            gui.entity_view_state@ == EntityModel::initial(),
            gui.history_view_state@ == HistoryModel::initial(),
            gui.relationship_view_state@ == RelationshipModel::initial(),
    {
        SqlGui {
            lore_database: None,
            entity_view_state: EntityViewState::new(),
            history_view_state: HistoryViewState::new(),
            relationship_view_state: RelationshipViewState::new(),
            dialog: None,
        }
    }

    /// Takes note that a store was connected: nothing has been asked of
    /// it yet, and every view starts anew.
    pub fn connect(&mut self)
        ensures
            final(self).lore_database matches Some(store) && store@.len() == 0,
            final(self).entity_view_state@ == EntityModel::initial(),
            final(self).history_view_state@ == HistoryModel::initial(),
            final(self).relationship_view_state@ == RelationshipModel::initial(),
            final(self).dialog == old(self).dialog,
    {
        self.lore_database = Some(Store::new());
        self.entity_view_state = EntityViewState::new();
        self.history_view_state = HistoryViewState::new();
        self.relationship_view_state = RelationshipViewState::new();
    }

    /// Takes note that the store was disconnected: every view is as at
    /// the start, with no entries and nothing selected.
    pub fn disconnect(&mut self)
        ensures
            final(self).lore_database is None,
            final(self).entity_view_state@ == EntityModel::initial(),
            final(self).history_view_state@ == HistoryModel::initial(),
            final(self).relationship_view_state@ == RelationshipModel::initial(),
            final(self).dialog == old(self).dialog,
    {
        self.lore_database = None;
        self.entity_view_state = EntityViewState::new();
        self.history_view_state = HistoryViewState::new();
        self.relationship_view_state = RelationshipViewState::new();
    }

    /// Records the reply of the connected store to a request. Without a
    /// store there is nothing to record it in, and nothing changes.
    pub fn record(&mut self, request: StoreRequest, reply: StoreReply)
        ensures
            match (old(self).lore_database, final(self).lore_database) {
                (Some(before), Some(after)) => after@ == before@.push(Answer { request, reply }),
                (None, None) => true,
                _ => false,
            },
            final(self).entity_view_state@ == old(self).entity_view_state@,
            final(self).history_view_state@ == old(self).history_view_state@,
            final(self).relationship_view_state@ == old(self).relationship_view_state@,
            final(self).dialog == old(self).dialog,
    {
        match &mut self.lore_database {
            Some(store) => {
                store.record(request, reply);
            },
            None => {},
        }
    }

    /// Forgets the replies of the store, once the event that they were
    /// given for is handled.
    pub fn forget_replies(&mut self)
        ensures
            match (old(self).lore_database, final(self).lore_database) {
                (Some(_), Some(after)) => after@.len() == 0,
                (None, None) => true,
                _ => false,
            },
            final(self).entity_view_state@ == old(self).entity_view_state@,
            final(self).history_view_state@ == old(self).history_view_state@,
            final(self).relationship_view_state@ == old(self).relationship_view_state@,
            final(self).dialog == old(self).dialog,
    {
        match &mut self.lore_database {
            Some(store) => {
                store.clear();
            },
            None => {},
        }
    }

    /// What clearing every selection makes of the three views, each
    /// brought up to date: the entity view first, then the history view,
    /// then the relationship view.
    pub open spec fn unselected(self) -> Result<
        (EntityModel, HistoryModel, RelationshipModel),
        Failure,
    > {
        match self.entity_view_state@.unselected().refreshed_labels(self.lore_database) {
            Ok(entity) => match self.history_view_state@.unselected().refreshed_years(
                self.lore_database,
            ) {
                Ok(history) => match self.relationship_view_state@.unselected().refreshed(
                    self.lore_database,
                ) {
                    Ok(relationship) => Ok((entity, history, relationship)),
                    Err(failure) => Err(failure),
                },
                Err(failure) => Err(failure),
            },
            Err(failure) => Err(failure),
        }
    }

    /// Clears every selection of every view, and brings every column up
    /// to date. This is how the views are filled once a store is connected.
    pub fn reset_selections(&mut self) -> (result: Result<(), LoreGuiError>)
        ensures
            lands(
                result,
                (
                    old(self).entity_view_state@,
                    old(self).history_view_state@,
                    old(self).relationship_view_state@,
                ),
                (
                    final(self).entity_view_state@,
                    final(self).history_view_state@,
                    final(self).relationship_view_state@,
                ),
                old(self).unselected(),
            ),
            final(self).lore_database == old(self).lore_database,
            final(self).dialog == old(self).dialog,
    {
        let mut entity = self.entity_view_state.clone();
        let mut history = self.history_view_state.clone();
        let mut relationship = self.relationship_view_state.clone();
        entity.reset_selections(&self.lore_database)?;
        history.reset_selections(&self.lore_database)?;
        relationship.reset_selections(&self.lore_database)?;
        self.entity_view_state = entity;
        self.history_view_state = history;
        self.relationship_view_state = relationship;
        Ok(())
    }
}

} // verus!
