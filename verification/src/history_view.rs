//! The history view: the years that have history items, the days of the
//! selected year, the timestamps of the items of the selected year and
//! day, and the content of the selected item.
//!
//! The levels form a chain. A change at one level clears the selections
//! of all levels below it and brings their entries up to date, each from
//! a query that the selections above it scope.

use vstd::prelude::*;
use crate::db_col_view::entry::{entries_from, entries_of, DbColViewEntry};
use crate::db_col_view::state::{search_int, shown_entries, ColumnModel, DbColViewState};
use crate::db_col_view::ColViewMes;
use crate::dialog::redate_history::RedateHistoryData;
use crate::errors::{lands, outcome, rows, Failure, LoreGuiError};
use crate::store::{
    content_of, days_of, get_content, query_days, query_timestamps, query_years, timestamps_of,
    years_of, Store,
};
use crate::types::{clone_optional_text, Day, Timestamp, Year};

verus! {

/// What the history view reports to the application.
#[derive(Debug, PartialEq, Eq)]
pub enum HistoryViewMessage {
    NewHistoryItem,
    RedateHistoryItem(RedateHistoryData),
    DeleteHistoryItem(Timestamp),
    YearViewUpdate(ColViewMes<Year>),
    DayViewUpdate(ColViewMes<Day>),
    HistoryTimestampViewUpdate(ColViewMes<Timestamp>),
}

/// The state of the history view.
#[derive(Debug)]
pub struct HistoryViewState {
    pub year_view_state: DbColViewState<Year>,
    /// The days of the selected year. The day "none", of the items that
    /// carry no day, is an entry like any other: it can be selected, and
    /// it then scopes the timestamps. That differs from no day being
    /// selected, where the timestamps are those of the whole year.
    pub day_view_state: DbColViewState<Day>,
    pub timestamp_view_state: DbColViewState<Timestamp>,
    /// The content of the selected history item, where the store has one.
    pub current_content: Option<String>,
}

/// The state of the history view as plain values.
pub struct HistoryModel {
    pub year: ColumnModel<Year>,
    pub day: ColumnModel<Day>,
    pub timestamp: ColumnModel<Timestamp>,
    pub content: Option<String>,
}

impl View for HistoryViewState {
    type V = HistoryModel;

    open spec fn view(&self) -> HistoryModel {
        HistoryModel {
            year: self.year_view_state@,
            day: self.day_view_state@,
            timestamp: self.timestamp_view_state@,
            content: self.current_content,
        }
    }
}

impl HistoryModel {
    /// The view before anything was asked of the store: no entries, no
    /// search text, nothing selected, no content.
    pub open spec fn initial() -> HistoryModel {
        HistoryModel {
            year: ColumnModel::blank(false),
            day: ColumnModel::blank(false),
            timestamp: ColumnModel::blank(false),
            content: None,
        }
    }

    /// The years that the store has for the year search text. Without a
    /// store there are none, whatever the search text holds; with one, a
    /// search text that is no number is an input error.
    pub open spec fn current_years(self, db: Option<Store>) -> Result<Seq<Year>, Failure> {
        if db is None {
            Ok(Seq::empty())
        } else {
            match search_int(self.year.search_text) {
                Ok(filter) => years_of(db, filter),
                Err(failure) => Err(failure),
            }
        }
    }

    /// The days that the store has for the selected year and the day
    /// search text. Without a store or a selected year there are none,
    /// whatever the search text holds.
    pub open spec fn current_days(self, db: Option<Store>) -> Result<Seq<Day>, Failure> {
        if db is None {
            Ok(Seq::empty())
        } else {
            match self.year.selected.0 {
                None => Ok(Seq::empty()),
                Some(year) => match search_int(self.day.search_text) {
                    Ok(filter) => days_of(db, year, filter),
                    Err(failure) => Err(failure),
                },
            }
        }
    }

    /// The timestamps that the store has for the selected year and, where
    /// a day is selected, for that day. Without a selected year there are
    /// none.
    pub open spec fn current_timestamps(self, db: Option<Store>) -> Result<
        Seq<Timestamp>,
        Failure,
    > {
        match self.year.selected.0 {
            None => Ok(Seq::empty()),
            Some(year) => timestamps_of(db, year, self.day.selected.0),
        }
    }

    /// The content that the store has for the selected timestamp.
    pub open spec fn current_content(self, db: Option<Store>) -> Result<Option<String>, Failure> {
        match self.timestamp.selected.0 {
            None => Ok(None),
            Some(timestamp) => content_of(db, timestamp),
        }
    }

    /// Whether the year column shows what the store has for its search text.
    pub open spec fn years_current(self, db: Option<Store>) -> bool {
        self.current_years(db) matches Ok(years) && self.year.entries == shown_entries(
            self.year.add_none_option,
            entries_of(years),
        )
    }

    /// Whether the day column shows what the store has for the selected
    /// year and its own search text.
    pub open spec fn days_current(self, db: Option<Store>) -> bool {
        self.current_days(db) matches Ok(days) && self.day.entries == shown_entries(
            self.day.add_none_option,
            entries_of(days),
        )
    }

    /// Whether the timestamp column shows what the store has for the
    /// selected year and day.
    pub open spec fn timestamps_current(self, db: Option<Store>) -> bool {
        self.current_timestamps(db) matches Ok(timestamps) && self.timestamp.entries
            == shown_entries(self.timestamp.add_none_option, entries_of(timestamps))
    }

    /// Whether the content is what the store has for the selected timestamp.
    pub open spec fn content_current(self, db: Option<Store>) -> bool {
        self.current_content(db) == Ok::<Option<String>, Failure>(self.content)
    }

    /// The state with the content brought up to date.
    pub open spec fn refreshed_content(self, db: Option<Store>) -> Result<HistoryModel, Failure> {
        match self.current_content(db) {
            Ok(content) => Ok(HistoryModel { content, ..self }),
            Err(failure) => Err(failure),
        }
    }

    /// The state with the timestamps, and then the content, brought up
    /// to date.
    pub open spec fn refreshed_timestamps(self, db: Option<Store>) -> Result<HistoryModel, Failure> {
        match self.current_timestamps(db) {
            Ok(timestamps) => match self.refreshed_content(db) {
                Ok(next) => Ok(
                    HistoryModel {
                        timestamp: ColumnModel {
                            entries: shown_entries(
                                self.timestamp.add_none_option,
                                entries_of(timestamps),
                            ),
                            ..self.timestamp
                        },
                        ..next
                    },
                ),
                Err(failure) => Err(failure),
            },
            Err(failure) => Err(failure),
        }
    }

    /// The state with the days, and then the levels below them, brought
    /// up to date.
    pub open spec fn refreshed_days(self, db: Option<Store>) -> Result<HistoryModel, Failure> {
        match self.current_days(db) {
            Ok(days) => match self.refreshed_timestamps(db) {
                Ok(next) => Ok(
                    HistoryModel {
                        day: ColumnModel {
                            entries: shown_entries(self.day.add_none_option, entries_of(days)),
                            ..self.day
                        },
                        ..next
                    },
                ),
                Err(failure) => Err(failure),
            },
            Err(failure) => Err(failure),
        }
    }

    /// The state with the years, and then the levels below them, brought
    /// up to date.
    pub open spec fn refreshed_years(self, db: Option<Store>) -> Result<HistoryModel, Failure> {
        match self.current_years(db) {
            Ok(years) => match self.refreshed_days(db) {
                Ok(next) => Ok(
                    HistoryModel {
                        year: ColumnModel {
                            entries: shown_entries(self.year.add_none_option, entries_of(years)),
                            ..self.year
                        },
                        ..next
                    },
                ),
                Err(failure) => Err(failure),
            },
            Err(failure) => Err(failure),
        }
    }

    /// The state with no timestamp selected.
    pub open spec fn without_timestamp(self) -> HistoryModel {
        HistoryModel {
            timestamp: ColumnModel { selected: DbColViewEntry(None), ..self.timestamp },
            ..self
        }
    }

    /// The state with neither a day nor a timestamp selected.
    pub open spec fn without_day(self) -> HistoryModel {
        HistoryModel {
            day: ColumnModel { selected: DbColViewEntry(None), ..self.day },
            ..self.without_timestamp()
        }
    }

    /// The state with nothing selected and no content.
    pub open spec fn unselected(self) -> HistoryModel {
        HistoryModel {
            year: ColumnModel { selected: DbColViewEntry(None), ..self.year },
            content: None,
            ..self.without_day()
        }
    }

    /// The state after an event of the year column, with every level
    /// below the change brought up to date. A new search text leaves the
    /// selected year as it is; either event clears the selections below.
    pub open spec fn after_year_event(self, event: ColViewMes<Year>, db: Option<Store>) -> Result<
        HistoryModel,
        Failure,
    > {
        match event {
            ColViewMes::SearchFieldUpd(text) => (HistoryModel {
                year: ColumnModel { search_text: text@, ..self.year },
                ..self.without_day()
            }).refreshed_years(db),
            ColViewMes::Selected(_, year) => (HistoryModel {
                year: ColumnModel { selected: year, ..self.year },
                ..self.without_day()
            }).refreshed_days(db),
        }
    }

    /// The state after an event of the day column, with every level
    /// below the change brought up to date. The year column is left as
    /// it is.
    pub open spec fn after_day_event(self, event: ColViewMes<Day>, db: Option<Store>) -> Result<
        HistoryModel,
        Failure,
    > {
        match event {
            ColViewMes::SearchFieldUpd(text) => (HistoryModel {
                day: ColumnModel { search_text: text@, ..self.day },
                ..self.without_timestamp()
            }).refreshed_days(db),
            ColViewMes::Selected(_, day) => (HistoryModel {
                day: ColumnModel { selected: day, ..self.day },
                ..self.without_timestamp()
            }).refreshed_timestamps(db),
        }
    }

    /// The state after an event of the timestamp column, with the
    /// content brought up to date. The columns above are left as they are.
    pub open spec fn after_timestamp_event(
        self,
        event: ColViewMes<Timestamp>,
        db: Option<Store>,
    ) -> Result<HistoryModel, Failure> {
        match event {
            ColViewMes::SearchFieldUpd(text) => (HistoryModel {
                timestamp: ColumnModel { search_text: text@, ..self.timestamp },
                ..self
            }).refreshed_timestamps(db),
            ColViewMes::Selected(_, timestamp) => (HistoryModel {
                timestamp: ColumnModel { selected: timestamp, ..self.timestamp },
                ..self
            }).refreshed_content(db),
        }
    }

    /// Whether a history item with this date is among the timestamps
    /// that the selections admit: its year is the selected one, and its
    /// day is the selected one where a day is selected.
    pub open spec fn lists(self, year: Year, day: Day) -> bool {
        self.year.selected.0 == Some(year) && (self.day.selected.0 is None || self.day.selected.0
            == Some(day))
    }

    /// The selections after a history item was given a new date: where
    /// the selections still admit the item, they stay and the item is
    /// selected; where they do not, nothing is selected.
    pub open spec fn redated(self, data: RedateHistoryData) -> HistoryModel {
        if self.lists(data.new_year, data.new_day) {
            HistoryModel {
                timestamp: ColumnModel {
                    selected: DbColViewEntry(Some(data.timestamp)),
                    ..self.timestamp
                },
                ..self
            }
        } else {
            self.unselected()
        }
    }
}

impl HistoryModel {
    /// Whether every column, and the content, is what the store has for
    /// the search texts and the selections.
    pub open spec fn current(self, db: Option<Store>) -> bool {
        self.years_current(db) && self.days_current(db) && self.timestamps_current(db)
            && self.content_current(db)
    }
}

/// After an event of the year column, nothing below the change is stale:
/// no day and no timestamp is selected, there is no content, and the
/// days and the timestamps are what the store has for the new state.
/// After a new search text the years are what the store has for it, too.
pub proof fn year_event_leaves_nothing_stale(
    state: HistoryModel,
    event: ColViewMes<Year>,
    db: Option<Store>,
)
    requires
        state.after_year_event(event, db) is Ok,
    ensures
        ({
            let next = state.after_year_event(event, db)->Ok_0;
            &&& next.day.selected.0 is None
            &&& next.timestamp.selected.0 is None
            &&& next.content is None
            &&& next.days_current(db)
            &&& next.timestamps_current(db)
            &&& next.content_current(db)
            &&& event is SearchFieldUpd ==> next.years_current(db)
            &&& state.years_current(db) ==> next.current(db)
        }),
{
}

/// After an event of the day column, nothing below the change is stale:
/// no timestamp is selected, there is no content, and the timestamps are
/// what the store has for the new state. After a new search text the
/// days are what the store has for it, too. The year column is as it was.
pub proof fn day_event_leaves_nothing_stale(
    state: HistoryModel,
    event: ColViewMes<Day>,
    db: Option<Store>,
)
    requires
        state.after_day_event(event, db) is Ok,
    ensures
        ({
            let next = state.after_day_event(event, db)->Ok_0;
            &&& next.year == state.year
            &&& next.timestamp.selected.0 is None
            &&& next.content is None
            &&& next.timestamps_current(db)
            &&& next.content_current(db)
            &&& event is SearchFieldUpd ==> next.days_current(db)
            &&& state.years_current(db) && state.days_current(db) ==> next.current(db)
        }),
{
}

/// After an event of the timestamp column the content is what the store
/// has for the new state. The year and the day column are as they were.
pub proof fn timestamp_event_leaves_nothing_stale(
    state: HistoryModel,
    event: ColViewMes<Timestamp>,
    db: Option<Store>,
)
    requires
        state.after_timestamp_event(event, db) is Ok,
    ensures
        ({
            let next = state.after_timestamp_event(event, db)->Ok_0;
            &&& next.year == state.year
            &&& next.day == state.day
            &&& next.content_current(db)
            &&& event is SearchFieldUpd ==> next.timestamps_current(db)
            &&& state.current(db) ==> next.current(db)
        }),
{
}

/// A new search text changes no selection of its own column.
pub proof fn history_search_keeps_selection(state: HistoryModel, text: String, db: Option<Store>)
    ensures
        state.after_year_event(ColViewMes::SearchFieldUpd(text), db) matches Ok(next)
            ==> next.year.selected == state.year.selected && next.year.search_text == text@,
        state.after_day_event(ColViewMes::SearchFieldUpd(text), db) matches Ok(next)
            ==> next.day.selected == state.day.selected && next.day.search_text == text@,
        state.after_timestamp_event(ColViewMes::SearchFieldUpd(text), db) matches Ok(next)
            ==> next.timestamp.selected == state.timestamp.selected && next.timestamp.search_text
            == text@,
{
}

impl Clone for HistoryViewMessage {
    fn clone(&self) -> (copy: Self)
        ensures
            copy == *self,
    {
        match self {
            HistoryViewMessage::NewHistoryItem => HistoryViewMessage::NewHistoryItem,
            HistoryViewMessage::RedateHistoryItem(data) => HistoryViewMessage::RedateHistoryItem(
                *data,
            ),
            HistoryViewMessage::DeleteHistoryItem(timestamp) => HistoryViewMessage::DeleteHistoryItem(
                *timestamp,
            ),
            HistoryViewMessage::YearViewUpdate(event) => HistoryViewMessage::YearViewUpdate(
                event.clone(),
            ),
            HistoryViewMessage::DayViewUpdate(event) => HistoryViewMessage::DayViewUpdate(
                event.clone(),
            ),
            HistoryViewMessage::HistoryTimestampViewUpdate(
                event,
            ) => HistoryViewMessage::HistoryTimestampViewUpdate(event.clone()),
        }
    }
}

impl Clone for HistoryViewState {
    fn clone(&self) -> (copy: Self)
        ensures
            copy@ == self@,
    {
        let copy = HistoryViewState {
            year_view_state: self.year_view_state.clone(),
            day_view_state: self.day_view_state.clone(),
            timestamp_view_state: self.timestamp_view_state.clone(),
            current_content: clone_optional_text(&self.current_content),
        };
        assert(copy.year_view_state@.entries =~= self.year_view_state@.entries);
        assert(copy.day_view_state@.entries =~= self.day_view_state@.entries);
        assert(copy.timestamp_view_state@.entries =~= self.timestamp_view_state@.entries);
        copy
    }
}

/// What the buttons of the history view send when they are pressed. A
/// button that has nothing to act on sends nothing.
#[derive(Debug, Clone, PartialEq, Eq)]
pub struct HistoryButtons {
    pub new_history_item: HistoryViewMessage,
    pub redate_history_item: Option<HistoryViewMessage>,
    pub delete_history_item: Option<HistoryViewMessage>,
}

/// The buttons of the history view. A history item can always be
/// written. The selected item can be deleted, and where its year is
/// selected too it can be given a new date; the dialog for that starts
/// from the selected year and day, with day "none" where no day is
/// selected.
pub fn history_buttons(state: &HistoryViewState) -> (buttons: HistoryButtons)
    ensures
        buttons.new_history_item == HistoryViewMessage::NewHistoryItem,
        buttons.redate_history_item == (match (
            state@.timestamp.selected.0,
            state@.year.selected.0,
        ) {
            (Some(timestamp), Some(year)) => Some(
                HistoryViewMessage::RedateHistoryItem(
                    RedateHistoryData {
                        timestamp,
                        old_year: year,
                        old_day: state@.day.selected.flatten_spec(),
                        new_year: year,
                        new_day: state@.day.selected.flatten_spec(),
                    },
                ),
            ),
            _ => None,
        }),
        buttons.delete_history_item == (match state@.timestamp.selected.0 {
            Some(timestamp) => Some(HistoryViewMessage::DeleteHistoryItem(timestamp)),
            None => None,
        }),
{
    let mut redate_history_item = None;
    let mut delete_history_item = None;
    if let Some(timestamp) = state.get_selected_timestamp() {
        delete_history_item = Some(HistoryViewMessage::DeleteHistoryItem(timestamp));
        if let Some(year) = state.get_selected_year() {
            let day = DbColViewEntry(state.get_selected_day()).flatten();
            redate_history_item = Some(
                HistoryViewMessage::RedateHistoryItem(RedateHistoryData::new(timestamp, year, day)),
            );
        }
    }
    HistoryButtons {
        new_history_item: HistoryViewMessage::NewHistoryItem,
        redate_history_item,
        delete_history_item,
    }
}

impl HistoryViewState {
    /// The view before anything was asked of the store: no entries, no
    /// search text, nothing selected.
    pub fn new() -> (state: Self)
        ensures
            state@ == HistoryModel::initial(),
    {
        HistoryViewState {
            year_view_state: DbColViewState::default(),
            day_view_state: DbColViewState::default(),
            timestamp_view_state: DbColViewState::default(),
            current_content: None,
        }
    }

    /// Asks the store for the years that the year search text admits.
    pub fn get_current_years(&self, db: &Option<Store>) -> (result: Result<Vec<Year>, LoreGuiError>)
        ensures
            rows(result) == self@.current_years(*db),
    {
        if db.is_none() {
            return Ok(Vec::new());
        }
        let year = self.year_view_state.get_search_int()?;
        query_years(db, year)
    }

    /// Asks the store for the days of the selected year that the day
    /// search text admits.
    pub fn get_current_days(&self, db: &Option<Store>) -> (result: Result<Vec<Day>, LoreGuiError>)
        ensures
            rows(result) == self@.current_days(*db),
    {
        if db.is_none() {
            return Ok(Vec::new());
        }
        let year = match self.get_selected_year() {
            Some(year) => year,
            None => {
                return Ok(Vec::new());
            },
        };
        let day = self.day_view_state.get_search_int()?;
        query_days(db, year, day)
    }

    /// Asks the store for the timestamps of the history items of the
    /// selected year and, where a day is selected, of that day.
    pub fn get_current_timestamps(&self, db: &Option<Store>) -> (result: Result<
        Vec<Timestamp>,
        LoreGuiError,
    >)
        ensures
            rows(result) == self@.current_timestamps(*db),
    {
        let year = match self.get_selected_year() {
            Some(year) => year,
            None => {
                return Ok(Vec::new());
            },
        };
        let day = self.get_selected_day();
        query_timestamps(db, year, day)
    }

    /// Asks the store for the content of the selected history item. More
    /// than one item with its timestamp is an error.
    pub fn get_current_content(&self, db: &Option<Store>) -> (result: Result<
        Option<String>,
        LoreGuiError,
    >)
        ensures
            outcome(result) == self@.current_content(*db),
    {
        match self.get_selected_timestamp() {
            Some(timestamp) => get_content(db, timestamp),
            None => Ok(None),
        }
    }

    /// The selected year.
    pub fn get_selected_year(&self) -> (year: Option<Year>)
        ensures
            year == self@.year.selected.0,
    {
        self.year_view_state.get_selected().0
    }

    /// Selects a year, or none. The levels below are left as they are.
    pub fn set_selected_year(&mut self, year: Option<Year>)
        ensures
            final(self)@ == (HistoryModel {
                year: ColumnModel { selected: DbColViewEntry(year), ..old(self)@.year },
                ..old(self)@
            }),
    {
        self.year_view_state.set_selected(DbColViewEntry(year));
    }

    /// The selected day.
    pub fn get_selected_day(&self) -> (day: Option<Day>)
        ensures
            day == self@.day.selected.0,
    {
        self.day_view_state.get_selected().0
    }

    /// Selects a day, or none. The other levels are left as they are.
    pub fn set_selected_day(&mut self, day: Option<Day>)
        ensures
            final(self)@ == (HistoryModel {
                day: ColumnModel { selected: DbColViewEntry(day), ..old(self)@.day },
                ..old(self)@
            }),
    {
        self.day_view_state.set_selected(DbColViewEntry(day));
    }

    /// The selected timestamp.
    pub fn get_selected_timestamp(&self) -> (timestamp: Option<Timestamp>)
        ensures
            timestamp == self@.timestamp.selected.0,
    {
        self.timestamp_view_state.get_selected().0
    }

    /// Selects a timestamp, or none. The other levels are left as they are.
    pub fn set_selected_timestamp(&mut self, timestamp: Option<Timestamp>)
        ensures
            final(self)@ == (HistoryModel {
                timestamp: ColumnModel {
                    selected: DbColViewEntry(timestamp),
                    ..old(self)@.timestamp
                },
                ..old(self)@
            }),
    {
        self.timestamp_view_state.set_selected(DbColViewEntry(timestamp));
    }

    /// The content on display: that of the selected history item, and
    /// nothing where there is none.
    pub fn get_content_text(&self) -> (text: String)
        ensures
            text@ == (match self@.content {
                Some(content) => content@,
                None => Seq::<char>::empty(),
            }),
    {
        match &self.current_content {
            Some(content) => content.clone(),
            None => String::new(),
        }
    }

    /// Puts a text on display as the content.
    pub fn set_content_text(&mut self, text: &str)
        ensures
            final(self)@.content is Some,
            final(self)@.content->0@ == text@,
            final(self)@.year == old(self)@.year,
            final(self)@.day == old(self)@.day,
            final(self)@.timestamp == old(self)@.timestamp,
    {
        self.current_content = Some(text.to_owned());
    }

    /// Clears every selection and the content, and brings every column
    /// up to date.
    pub fn reset_selections(&mut self, db: &Option<Store>) -> (result: Result<(), LoreGuiError>)
        ensures
            lands(result, old(self)@, final(self)@, old(self)@.unselected().refreshed_years(*db)),
    {
        let mut next = self.clone();
        next.set_selected_year(None);
        next.set_selected_day(None);
        next.set_selected_timestamp(None);
        next.current_content = None;
        next.update_years(db)?;
        *self = next;
        Ok(())
    }

    /// Brings the years up to date, and with them every level below.
    pub fn update_years(&mut self, db: &Option<Store>) -> (result: Result<(), LoreGuiError>)
        ensures
            lands(result, old(self)@, final(self)@, old(self)@.refreshed_years(*db)),
    {
        let years = self.get_current_years(db)?;
        self.update_days(db)?;
        self.year_view_state.set_entries(entries_from(years));
        Ok(())
    }

    /// Brings the days up to date, and with them every level below.
    pub fn update_days(&mut self, db: &Option<Store>) -> (result: Result<(), LoreGuiError>)
        ensures
            lands(result, old(self)@, final(self)@, old(self)@.refreshed_days(*db)),
    {
        let days = self.get_current_days(db)?;
        self.update_timestamps(db)?;
        self.day_view_state.set_entries(entries_from(days));
        Ok(())
    }

    /// Brings the timestamps up to date, and with them the content.
    pub fn update_timestamps(&mut self, db: &Option<Store>) -> (result: Result<(), LoreGuiError>)
        ensures
            lands(result, old(self)@, final(self)@, old(self)@.refreshed_timestamps(*db)),
    {
        let timestamps = self.get_current_timestamps(db)?;
        self.update_content(db)?;
        self.timestamp_view_state.set_entries(entries_from(timestamps));
        Ok(())
    }

    /// Brings the content up to date.
    pub fn update_content(&mut self, db: &Option<Store>) -> (result: Result<(), LoreGuiError>)
        ensures
            lands(result, old(self)@, final(self)@, old(self)@.refreshed_content(*db)),
    {
        let content = self.get_current_content(db)?;
        self.current_content = content;
        Ok(())
    }
}

impl Default for HistoryViewState {
    fn default() -> (state: Self)
        ensures
            state@ == HistoryModel::initial(),
    {
        Self::new()
    }
}

} // verus!
