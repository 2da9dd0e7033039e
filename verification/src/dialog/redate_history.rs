//! Giving a history item another date.

use vstd::prelude::*;
use vstd::string::StringExecFns;
use crate::db_col_view::number::{append_number, decimal, number_text, parse_number, read_number};
use crate::gui::message_handling::GuiMes;
use crate::errors::{outcome, Failure, LoreGuiError};
use crate::store::{mutate, written, MutationView, Store, StoreMutation};

verus! {

/// What the dialog collects: the history item, the date that it has,
/// and the date that it is to get.
#[derive(Debug, Clone, Copy, PartialEq, Eq)]
pub struct RedateHistoryData {
    pub timestamp: i64,
    pub old_year: i32,
    pub old_day: Option<i32>,
    pub new_year: i32,
    pub new_day: Option<i32>,
}

impl RedateHistoryData {
    /// The data for a history item, before the user has typed anything:
    /// the new date is the one that the item has.
    pub fn new(timestamp: i64, old_year: i32, old_day: Option<i32>) -> (data: Self)
        ensures
            data == (RedateHistoryData {
                timestamp,
                old_year,
                old_day,
                new_year: old_year,
                new_day: old_day,
            }),
    {
        RedateHistoryData { timestamp, new_year: old_year, new_day: old_day, old_year, old_day }
    }

    /// The change that the data asks for.
    pub open spec fn mutation(self) -> MutationView {
        MutationView::RedateHistoryItem {
            timestamp: self.timestamp,
            year: self.new_year,
            day: self.new_day,
        }
    }

    /// How writing the data ends: without a store in `NoDatabase`, and
    /// else as the store says.
    pub open spec fn saved(self, db: Option<Store>) -> Result<(), Failure> {
        written(db, self.mutation())
    }

    /// Asks the store to give the history item its new date.
    pub fn write_to_database(self, db: &Option<Store>) -> (result: Result<(), LoreGuiError>)
        ensures
            outcome(result) == self.saved(*db),
    {
        mutate(
            db,
            StoreMutation::RedateHistoryItem {
                timestamp: self.timestamp,
                year: self.new_year,
                day: self.new_day,
            },
        )
    }
}

/// What happens inside the dialog.
#[derive(Debug, Clone, Copy, PartialEq, Eq)]
pub enum RedateHistoryMes {
    YearUpd(i32),
    DayUpd(i32),
    Submit,
}

/// The dialog that asks for the new date of a history item.
#[derive(Debug, Clone, Copy, PartialEq, Eq)]
pub struct RedateHistoryDialog {
    pub data: RedateHistoryData,
}

impl RedateHistoryDialog {
    /// The dialog for a history item.
    pub fn new(data: RedateHistoryData) -> (dialog: Self)
        ensures
            dialog.data == data,
    {
        RedateHistoryDialog { data }
    }

    /// The title of the dialog: it names the date that the history item
    /// has, with day 0 for an item without a day, and its timestamp.
    pub open spec fn header_text(self) -> Seq<char> {
        "Redate history for entity: year "@ + decimal(self.data.old_year as int) + ", day "@
            + decimal(
            match self.data.old_day {
                Some(day) => day as int,
                None => 0,
            },
        ) + " ("@ + decimal(self.data.timestamp as int) + ")"@
    }

    /// The title of the dialog.
    pub fn header(&self) -> (header: String)
        ensures
            header@ == self.header_text(),
    {
        let mut header = "Redate history for entity: year ".to_owned();
        append_number(&mut header, self.data.old_year as i64);
        header.append(", day ");
        let day: i32 = match self.data.old_day {
            Some(day) => day,
            None => 0,
        };
        append_number(&mut header, day as i64);
        header.append(" (");
        append_number(&mut header, self.data.timestamp);
        header.append(")");
        header
    }

    /// The text that the year field shows: the new year.
    pub fn year_field_text(&self) -> (text: String)
        ensures
            text@ == decimal(self.data.new_year as int),
    {
        number_text(self.data.new_year as i64)
    }

    /// The text that the day field shows: the new day, and nothing for
    /// an item without a day.
    pub fn day_field_text(&self) -> (text: String)
        ensures
            text@ == (match self.data.new_day {
                Some(day) => decimal(day as int),
                None => Seq::<char>::empty(),
            }),
    {
        match self.data.new_day {
            Some(day) => number_text(day as i64),
            None => String::new(),
        }
    }

    /// What a text typed into the year field does: it sets the year to
    /// the number that the text holds, and to 0 where it holds none.
    pub fn year_input(text: &str) -> (event: RedateHistoryMes)
        ensures
            event == RedateHistoryMes::YearUpd(
                match read_number(text@) {
                    Ok(year) => year,
                    Err(_) => 0,
                },
            ),
    {
        match parse_number(text) {
            Ok(year) => RedateHistoryMes::YearUpd(year),
            Err(_) => RedateHistoryMes::YearUpd(0),
        }
    }

    /// What a text typed into the day field does: it sets the day to the
    /// number that the text holds, and to 0 where it holds none.
    pub fn day_input(text: &str) -> (event: RedateHistoryMes)
        ensures
            event == RedateHistoryMes::DayUpd(
                match read_number(text@) {
                    Ok(day) => day,
                    Err(_) => 0,
                },
            ),
    {
        match parse_number(text) {
            Ok(day) => RedateHistoryMes::DayUpd(day),
            Err(_) => RedateHistoryMes::DayUpd(0),
        }
    }

    /// Takes what happened inside the dialog. A new year or day is kept;
    /// on submission the dialog hands out the message that asks for the
    /// change, and stays as it is.
    pub fn update(&mut self, event: RedateHistoryMes) -> (message: Option<GuiMes>)
        ensures
            final(self).data == (match event {
                RedateHistoryMes::YearUpd(year) => RedateHistoryData {
                    new_year: year,
                    ..old(self).data
                },
                RedateHistoryMes::DayUpd(day) => RedateHistoryData {
                    new_day: Some(day),
                    ..old(self).data
                },
                RedateHistoryMes::Submit => old(self).data,
            }),
            message == (match event {
                RedateHistoryMes::Submit => Some(GuiMes::RedateHistoryItem(old(self).data)),
                _ => None,
            }),
    {
        match event {
            RedateHistoryMes::YearUpd(year) => {
                self.data.new_year = year;
                None
            },
            RedateHistoryMes::DayUpd(day) => {
                self.data.new_day = Some(day);
                None
            },
            RedateHistoryMes::Submit => Some(GuiMes::RedateHistoryItem(self.data)),
        }
    }
}

} // verus!
