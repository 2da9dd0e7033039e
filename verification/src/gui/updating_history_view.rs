//! What the messages of the history view, and the changes to history
//! items, do to the application.

use vstd::prelude::*;
use super::message_handling::GuiMes;
use super::SqlGui;
use crate::db_col_view::entry::DbColViewEntry;
use crate::db_col_view::state::ColumnModel;
use crate::db_col_view::ColViewMes;
use crate::dialog::confirmation::ConfirmationDialog;
use crate::dialog::new_history_item::{NewHistoryData, NewHistoryDialog};
use crate::dialog::redate_history::{RedateHistoryData, RedateHistoryDialog};
use crate::dialog::Dialog;
use crate::errors::{and_then, lands, Failure, LoreGuiError};
use crate::history_view::{HistoryModel, HistoryViewMessage};
use crate::store::{mutate, optional_number_eq, written, MutationView, Store, StoreMutation};
use crate::types::{Day, Timestamp, Year};

verus! {

/// The question that is asked before a history item is deleted.
pub open spec fn delete_history_item_question() -> Seq<char> {
    "Do you really want to delete the selected history item?"@
}

impl HistoryModel {
    /// The state after a history item was written: the year search text
    /// is empty, the year of the item is selected, nothing is selected
    /// below it, and every column is brought up to date.
    pub open spec fn after_new_item(self, year: Year, db: Option<Store>) -> Result<
        HistoryModel,
        Failure,
    > {
        (HistoryModel {
            year: ColumnModel {
                search_text: Seq::empty(),
                selected: DbColViewEntry(Some(year)),
                ..self.year
            },
            ..self.without_day()
        }).refreshed_years(db)
    }

    /// The state after a history item was given a new date, with every
    /// column brought up to date.
    pub open spec fn after_redate(self, data: RedateHistoryData, db: Option<Store>) -> Result<
        HistoryModel,
        Failure,
    > {
        self.redated(data).refreshed_years(db)
    }

    /// The state after a history item was deleted: the selected year
    /// stays, nothing is selected below it, and every column is brought
    /// up to date.
    pub open spec fn after_delete(self, db: Option<Store>) -> Result<HistoryModel, Failure> {
        self.without_day().refreshed_years(db)
    }
}

/// A change to a history item ends, where it goes through, with every
/// column showing what the store has. After a new item its year is
/// selected and nothing below; after a deletion the selected year stays
/// and nothing is selected below; after a new date the item is selected
/// where the selected year and day still admit it, and nothing is
/// selected where they do not.
pub proof fn history_change_leaves_nothing_stale(
    state: HistoryModel,
    year: Year,
    data: RedateHistoryData,
    db: Option<Store>,
)
    ensures
        state.after_new_item(year, db) matches Ok(next) ==> {
            &&& next.current(db)
            &&& next.year.search_text.len() == 0
            &&& next.year.selected.0 == Some(year)
            &&& next.day.selected.0 is None
            &&& next.timestamp.selected.0 is None
            &&& next.content is None
        },
        state.after_delete(db) matches Ok(next) ==> {
            &&& next.current(db)
            &&& next.year.selected == state.year.selected
            &&& next.day.selected.0 is None
            &&& next.timestamp.selected.0 is None
            &&& next.content is None
        },
        state.after_redate(data, db) matches Ok(next) ==> {
            &&& next.current(db)
            &&& state.lists(data.new_year, data.new_day) ==> {
                &&& next.year.selected == state.year.selected
                &&& next.day.selected == state.day.selected
                &&& next.timestamp.selected.0 == Some(data.timestamp)
            }
            &&& !state.lists(data.new_year, data.new_day) ==> {
                &&& next.year.selected.0 is None
                &&& next.day.selected.0 is None
                &&& next.timestamp.selected.0 is None
                &&& next.content is None
            }
        },
{
}

impl SqlGui {
    /// Whether an event of a column of the history view was handled: the
    /// history view is what was expected, and nothing else has changed.
    pub open spec fn history_event_handled(
        self,
        after: SqlGui,
        result: Result<(), LoreGuiError>,
        expected: Result<HistoryModel, Failure>,
    ) -> bool {
        &&& lands(result, self.history_view_state@, after.history_view_state@, expected)
        &&& after.same_beside_history_view(self)
        &&& after.dialog == self.dialog
    }

    /// Whether a change to the store that touches the history view was
    /// handled: the history view is what was expected, the dialog is
    /// closed where the change went through, and nothing else has changed.
    pub open spec fn history_change_handled(
        self,
        after: SqlGui,
        result: Result<(), LoreGuiError>,
        expected: Result<HistoryModel, Failure>,
    ) -> bool {
        &&& lands(result, self.history_view_state@, after.history_view_state@, expected)
        &&& after.same_beside_history_view(self)
        &&& after.dialog == self.dialog_after(result)
    }

    /// Whether a message of the history view was handled. A message of a
    /// column changes the history view; any other message opens its
    /// dialog, and cannot fail.
    pub open spec fn history_view_message_handled(
        self,
        after: SqlGui,
        event: HistoryViewMessage,
        result: Result<(), LoreGuiError>,
    ) -> bool {
        match event {
            HistoryViewMessage::NewHistoryItem => {
                &&& result is Ok
                &&& after.dialog matches Some(Dialog::NewHistoryItem(opened))
                &&& opened.data.year == 0
                &&& opened.data.day is None
                &&& opened.data.content@.len() == 0
                &&& after.same_views(self)
            },
            HistoryViewMessage::RedateHistoryItem(data) => {
                &&& result is Ok
                &&& after.dialog == Some(Dialog::RedateHistory(RedateHistoryDialog { data }))
                &&& after.same_views(self)
            },
            HistoryViewMessage::DeleteHistoryItem(timestamp) => {
                &&& result is Ok
                &&& after.dialog matches Some(Dialog::Confirmation(opened))
                &&& opened.message@ == delete_history_item_question()
                &&& opened.on_confirm == GuiMes::DeleteHistoryItem(timestamp)
                &&& after.same_views(self)
            },
            HistoryViewMessage::YearViewUpdate(event) => self.history_event_handled(
                after,
                result,
                self.history_view_state@.after_year_event(event, self.lore_database),
            ),
            HistoryViewMessage::DayViewUpdate(event) => self.history_event_handled(
                after,
                result,
                self.history_view_state@.after_day_event(event, self.lore_database),
            ),
            HistoryViewMessage::HistoryTimestampViewUpdate(event) => self.history_event_handled(
                after,
                result,
                self.history_view_state@.after_timestamp_event(event, self.lore_database),
            ),
        }
    }

    /// What a new history item makes of the history view.
    pub open spec fn history_item_written(self, data: NewHistoryData) -> Result<
        HistoryModel,
        Failure,
    > {
        and_then(
            data.saved(self.lore_database),
            self.history_view_state@.after_new_item(data.year, self.lore_database),
        )
    }

    /// What a new date of a history item makes of the history view.
    pub open spec fn history_item_redated(self, data: RedateHistoryData) -> Result<
        HistoryModel,
        Failure,
    > {
        and_then(
            data.saved(self.lore_database),
            self.history_view_state@.after_redate(data, self.lore_database),
        )
    }

    /// What deleting a history item makes of the history view.
    pub open spec fn history_item_deleted(self, timestamp: Timestamp) -> Result<
        HistoryModel,
        Failure,
    > {
        and_then(
            written(self.lore_database, MutationView::DeleteHistoryItem { timestamp }),
            self.history_view_state@.after_delete(self.lore_database),
        )
    }

    /// Handles a message of the history view.
    pub fn update_history_view(&mut self, event: HistoryViewMessage) -> (result: Result<
        (),
        LoreGuiError,
    >)
        ensures
            old(self).history_view_message_handled(*final(self), event, result),
    {
        match event {
            HistoryViewMessage::NewHistoryItem => {
                self.dialog = Some(Dialog::NewHistoryItem(NewHistoryDialog::new()));
            },
            HistoryViewMessage::RedateHistoryItem(data) => {
                self.dialog = Some(Dialog::RedateHistory(RedateHistoryDialog::new(data)));
            },
            HistoryViewMessage::DeleteHistoryItem(timestamp) => {
                let message = "Do you really want to delete the selected history item?".to_owned();
                let on_confirm = GuiMes::DeleteHistoryItem(timestamp);
                self.dialog = Some(
                    Dialog::Confirmation(ConfirmationDialog::new(message, on_confirm)),
                );
            },
            HistoryViewMessage::YearViewUpdate(event) => {
                self.update_year_view(event)?;
            },
            HistoryViewMessage::DayViewUpdate(event) => {
                self.update_day_view(event)?;
            },
            HistoryViewMessage::HistoryTimestampViewUpdate(event) => {
                self.update_timestamp_view(event)?;
            },
        };
        Ok(())
    }

    /// Handles an event of the year column. A new search text leaves the
    /// selected year as it is; either event clears the selected day and
    /// timestamp and brings every level below the change up to date.
    pub fn update_year_view(&mut self, event: ColViewMes<Year>) -> (result: Result<(), LoreGuiError>)
        ensures
            old(self).history_event_handled(
                *final(self),
                result,
                old(self).history_view_state@.after_year_event(event, old(self).lore_database),
            ),
    {
        let mut state = self.history_view_state.clone();
        state.set_selected_day(None);
        state.set_selected_timestamp(None);
        match event {
            ColViewMes::SearchFieldUpd(text) => {
                state.year_view_state.set_search_text(text);
                state.update_years(&self.lore_database)?;
            },
            ColViewMes::Selected(_index, year) => {
                state.year_view_state.set_selected(year);
                state.update_days(&self.lore_database)?;
            },
        };
        self.history_view_state = state;
        Ok(())
    }

    /// Handles an event of the day column. A new search text leaves the
    /// selected day as it is; either event clears the selected timestamp
    /// and brings every level below the change up to date. The year
    /// column is left as it is.
    pub fn update_day_view(&mut self, event: ColViewMes<Day>) -> (result: Result<(), LoreGuiError>)
        ensures
            old(self).history_event_handled(
                *final(self),
                result,
                old(self).history_view_state@.after_day_event(event, old(self).lore_database),
            ),
    {
        let mut state = self.history_view_state.clone();
        state.set_selected_timestamp(None);
        match event {
            ColViewMes::SearchFieldUpd(text) => {
                state.day_view_state.set_search_text(text);
                state.update_days(&self.lore_database)?;
            },
            ColViewMes::Selected(_index, day) => {
                state.day_view_state.set_selected(day);
                state.update_timestamps(&self.lore_database)?;
            },
        };
        self.history_view_state = state;
        Ok(())
    }

    /// Handles an event of the timestamp column, and brings the content
    /// up to date. The columns above are left as they are.
    pub fn update_timestamp_view(&mut self, event: ColViewMes<Timestamp>) -> (result: Result<
        (),
        LoreGuiError,
    >)
        ensures
            old(self).history_event_handled(
                *final(self),
                result,
                old(self).history_view_state@.after_timestamp_event(
                    event,
                    old(self).lore_database,
                ),
            ),
    {
        let mut state = self.history_view_state.clone();
        match event {
            ColViewMes::SearchFieldUpd(text) => {
                state.timestamp_view_state.set_search_text(text);
                state.update_timestamps(&self.lore_database)?;
            },
            ColViewMes::Selected(_index, timestamp) => {
                state.timestamp_view_state.set_selected(timestamp);
                state.update_content(&self.lore_database)?;
            },
        };
        self.history_view_state = state;
        Ok(())
    }

    /// Writes a history item, selects its year, and closes the dialog.
    pub fn write_new_history_item(&mut self, data: NewHistoryData) -> (result: Result<
        (),
        LoreGuiError,
    >)
        ensures
            old(self).history_change_handled(
                *final(self),
                result,
                old(self).history_item_written(data),
            ),
    {
        let year = data.year;
        data.write_to_database(&self.lore_database)?;
        let mut state = self.history_view_state.clone();
        state.year_view_state.set_search_text(String::new());
        state.set_selected_year(Some(year));
        state.set_selected_day(None);
        state.set_selected_timestamp(None);
        state.update_years(&self.lore_database)?;
        self.history_view_state = state;
        self.dialog = None;
        Ok(())
    }

    /// Gives a history item a new date, brings every column up to date,
    /// and closes the dialog. Where the selected year and day still
    /// admit the item, they stay and the item is selected; where they do
    /// not, nothing is selected.
    pub fn redate_history_item(&mut self, data: RedateHistoryData) -> (result: Result<
        (),
        LoreGuiError,
    >)
        ensures
            old(self).history_change_handled(
                *final(self),
                result,
                old(self).history_item_redated(data),
            ),
    {
        data.write_to_database(&self.lore_database)?;
        let mut state = self.history_view_state.clone();
        let year_stays = match state.get_selected_year() {
            Some(year) => year == data.new_year,
            None => false,
        };
        let day_stays = match state.get_selected_day() {
            Some(day) => optional_number_eq(&day, &data.new_day),
            None => true,
        };
        if year_stays && day_stays {
            state.set_selected_timestamp(Some(data.timestamp));
        } else {
            state.set_selected_year(None);
            state.set_selected_day(None);
            state.set_selected_timestamp(None);
            state.current_content = None;
        }
        state.update_years(&self.lore_database)?;
        self.history_view_state = state;
        self.dialog = None;
        Ok(())
    }

    /// Deletes a history item, clears the selected day and timestamp,
    /// brings every column up to date, and closes the dialog.
    pub fn delete_history_item(&mut self, timestamp: Timestamp) -> (result: Result<
        (),
        LoreGuiError,
    >)
        ensures
            old(self).history_change_handled(
                *final(self),
                result,
                old(self).history_item_deleted(timestamp),
            ),
    {
        mutate(&self.lore_database, StoreMutation::DeleteHistoryItem { timestamp })?;
        let mut state = self.history_view_state.clone();
        state.set_selected_day(None);
        state.set_selected_timestamp(None);
        state.update_years(&self.lore_database)?;
        self.history_view_state = state;
        self.dialog = None;
        Ok(())
    }
}

} // verus!
