//! An entry of a column view: a value, or the explicit "none" marker.

use vstd::prelude::*;
use super::number::{decimal, number_text};
use crate::types::Day;

verus! {

/// A value of the column, or the marker that stands for no selection.
#[derive(Debug, PartialEq, Eq, Hash)]
pub struct DbColViewEntry<T>(pub Option<T>);

impl<T> DbColViewEntry<T> {
    /// The "none" marker.
    pub fn none() -> (entry: Self)
        ensures
            entry == DbColViewEntry::<T>(None),
    {
        DbColViewEntry(None)
    }

    /// Whether this entry is the "none" marker.
    pub fn is_none(&self) -> (none: bool)
        ensures
            none == (self.0 is None),
    {
        self.0.is_none()
    }
}

/// A value that a column can put on display.
pub trait Shown {
    /// The characters that stand for the value.
    spec fn shown(&self) -> Seq<char>;

    /// The text that stands for the value.
    fn show(&self) -> (text: String)
        ensures
            text@ == self.shown(),
    ;
}

impl Shown for String {
    open spec fn shown(&self) -> Seq<char> {
        self@
    }

    fn show(&self) -> (text: String) {
        self.clone()
    }
}

impl Shown for i32 {
    open spec fn shown(&self) -> Seq<char> {
        decimal(*self as int)
    }

    fn show(&self) -> (text: String) {
        number_text(*self as i64)
    }
}

impl Shown for i64 {
    open spec fn shown(&self) -> Seq<char> {
        decimal(*self as int)
    }

    fn show(&self) -> (text: String) {
        number_text(*self)
    }
}

impl Shown for Day {
    /// A day stands as its number; the day "none" stands as nothing.
    open spec fn shown(&self) -> Seq<char> {
        match *self {
            Some(day) => decimal(day as int),
            None => Seq::empty(),
        }
    }

    fn show(&self) -> (text: String) {
        match self {
            Some(day) => number_text(*day as i64),
            None => String::new(),
        }
    }
}

impl<T: Shown> DbColViewEntry<T> {
    /// The characters that stand for the entry: those of its value, and
    /// a fixed token for the "none" marker.
    pub open spec fn shown(self) -> Seq<char> {
        match self.0 {
            Some(value) => value.shown(),
            None => "[none]"@,
        }
    }

    /// The text that stands for the entry.
    pub fn to_text(&self) -> (text: String)
        ensures
            text@ == self.shown(),
    {
        match &self.0 {
            Some(value) => value.show(),
            None => "[none]".to_owned(),
        }
    }
}

impl DbColViewEntry<Day> {
    /// The day of the entry. The "none" marker gives the day "none".
    pub open spec fn flatten_spec(self) -> Day {
        match self.0 {
            Some(day) => day,
            None => None,
        }
    }

    /// The day of the entry. The "none" marker gives the day "none".
    pub fn flatten(self) -> (day: Day)
        ensures
            day == self.flatten_spec(),
    {
        match self.0 {
            Some(day) => day,
            None => None,
        }
    }
}

impl<T> From<T> for DbColViewEntry<T> {
    fn from(value: T) -> (entry: Self) {
        DbColViewEntry(Some(value))
    }
}

impl<T> vstd::std_specs::convert::FromSpecImpl<T> for DbColViewEntry<T> {
    open spec fn obeys_from_spec() -> bool {
        true
    }

    /// A value becomes the entry that holds it.
    open spec fn from_spec(value: T) -> Self {
        DbColViewEntry(Some(value))
    }
}

/// The entries that stand for a list of values, in the same order.
pub open spec fn entries_of<T>(values: Seq<T>) -> Seq<DbColViewEntry<T>> {
    Seq::new(values.len(), |i: int| DbColViewEntry(Some(values[i])))
}

/// Makes an entry of each value of a list.
pub fn entries_from<T>(values: Vec<T>) -> (entries: Vec<DbColViewEntry<T>>)
    ensures
        entries@ == entries_of(values@),
{
    let mut entries: Vec<DbColViewEntry<T>> = Vec::new();
    for value in it: values.into_iter()
        invariant
            it.seq() == values@,
            entries@.len() == it.index(),
            forall|i: int|
                0 <= i < entries@.len() ==> entries@[i] == DbColViewEntry(Some(it.seq()[i])),
    {
        entries.push(DbColViewEntry(Some(value)));
    }
    assert(entries@ =~= entries_of(values@));
    entries
}

impl<T: Clone> Clone for DbColViewEntry<T> {
    fn clone(&self) -> (copy: Self)
        ensures
            self.0 is None ==> copy.0 is None,
            self.0 is Some ==> copy.0 is Some && cloned::<T>(self.0->0, copy.0->0),
    {
        match &self.0 {
            Some(value) => DbColViewEntry(Some(value.clone())),
            None => DbColViewEntry(None),
        }
    }
}

} // verus!
