//! Writing a history item.

use vstd::prelude::*;
use crate::db_col_view::number::{decimal, number_text};
use crate::errors::{outcome, Failure, LoreGuiError};
use crate::store::{mutate, written, MutationView, Store, StoreMutation};
use crate::types::{Day, Year};

verus! {

/// What the dialog collects: the date and the content of the history
/// item that is to be. The store stamps the item when it writes it.
#[derive(Debug, PartialEq, Eq)]
pub struct NewHistoryData {
    pub year: Year,
    pub day: Day,
    pub content: String,
}

impl Clone for NewHistoryData {
    fn clone(&self) -> (copy: Self)
        ensures
            copy == *self,
    {
        NewHistoryData { year: self.year, day: self.day, content: self.content.clone() }
    }
}

impl NewHistoryData {
    /// The change that the data asks for.
    pub open spec fn mutation(self) -> MutationView {
        MutationView::WriteHistoryItem { year: self.year, day: self.day, content: self.content@ }
    }

    /// How writing the data ends: without a store in `NoDatabase`, and
    /// else as the store says.
    pub open spec fn saved(self, db: Option<Store>) -> Result<(), Failure> {
        written(db, self.mutation())
    }

    /// Asks the store to write the history item.
    pub fn write_to_database(self, db: &Option<Store>) -> (result: Result<(), LoreGuiError>)
        ensures
            outcome(result) == self.saved(*db),
    {
        mutate(
            db,
            StoreMutation::WriteHistoryItem {
                year: self.year,
                day: self.day,
                content: self.content,
            },
        )
    }

    /// The year of the history item.
    pub fn year(&self) -> (year: &Year)
        ensures
            *year == self.year,
    {
        &self.year
    }

    /// The day of the history item.
    pub fn day(&self) -> (day: &Day)
        ensures
            *day == self.day,
    {
        &self.day
    }

    /// The content of the history item.
    pub fn content(&self) -> (content: &String)
        ensures
            *content == self.content,
    {
        &self.content
    }
}

/// The dialog that asks for the date and the content of a new history item.
#[derive(Debug, Clone, PartialEq, Eq)]
pub struct NewHistoryDialog {
    pub data: NewHistoryData,
}

impl NewHistoryDialog {
    /// The dialog before the user has typed anything: year 0, no day,
    /// no content.
    pub fn new() -> (dialog: Self)
        ensures
            dialog.data.year == 0,
            dialog.data.day is None,
            dialog.data.content@.len() == 0,
    {
        NewHistoryDialog { data: NewHistoryData { year: 0, day: None, content: String::new() } }
    }

    /// The text that the year field shows.
    pub fn year_field_text(&self) -> (text: String)
        ensures
            text@ == decimal(self.data.year as int),
    {
        number_text(self.data.year as i64)
    }

    /// The text that the day field shows: the day, and nothing for an
    /// item without a day.
    pub fn day_field_text(&self) -> (text: String)
        ensures
            text@ == (match self.data.day {
                Some(day) => decimal(day as int),
                None => Seq::<char>::empty(),
            }),
    {
        match self.data.day {
            Some(day) => number_text(day as i64),
            None => String::new(),
        }
    }
}

} // verus!
