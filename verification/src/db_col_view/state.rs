//! The state of one column view.

use vstd::prelude::*;
use super::entry::{entries_of, DbColViewEntry};
use super::number::{parse_number, read_number, NumberFault};
use crate::errors::{outcome, Failure, LoreGuiError};
use crate::types::optional_text;

verus! {

/// What a column view holds, as plain mathematical values.
pub struct ColumnModel<E> {
    /// The raw text of the search field; empty means no filter.
    pub search_text: Seq<char>,
    /// The entries on display, in the order in which they were set.
    pub entries: Seq<DbColViewEntry<E>>,
    /// The selected entry; it need not be among `entries`.
    pub selected: DbColViewEntry<E>,
    /// Whether the column offers the "none" marker as an entry.
    pub add_none_option: bool,
}

impl<E> ColumnModel<E> {
    /// What holds of every column: one that offers the "none" marker
    /// shows it.
    pub open spec fn well_formed(self) -> bool {
        self.add_none_option ==> has_none(self.entries)
    }

    /// The column before anything was set: no search text, no selection,
    /// and no entries but the "none" marker where the column offers it.
    pub open spec fn blank(add_none_option: bool) -> ColumnModel<E> {
        ColumnModel {
            search_text: Seq::empty(),
            entries: shown_entries(add_none_option, Seq::empty()),
            selected: DbColViewEntry(None),
            add_none_option,
        }
    }
}

/// Whether some entry of the list is the "none" marker.
pub open spec fn has_none<E>(entries: Seq<DbColViewEntry<E>>) -> bool {
    exists|i: int| 0 <= i < entries.len() && (#[trigger] entries[i]).0 is None
}

/// The list with the "none" marker in front, unless the list holds one.
pub open spec fn with_none<E>(entries: Seq<DbColViewEntry<E>>) -> Seq<DbColViewEntry<E>> {
    if has_none(entries) {
        entries
    } else {
        seq![DbColViewEntry::<E>(None)] + entries
    }
}

/// The entries that a column shows for a list handed to it.
pub open spec fn shown_entries<E>(add_none_option: bool, entries: Seq<DbColViewEntry<E>>) -> Seq<
    DbColViewEntry<E>,
> {
    if add_none_option {
        with_none(entries)
    } else {
        entries
    }
}

/// Putting the "none" marker in front twice is putting it in front once:
/// a list that was shown can be set again and stays as it is.
pub proof fn with_none_is_idempotent<E>(entries: Seq<DbColViewEntry<E>>)
    ensures
        has_none(with_none(entries)),
        with_none(with_none(entries)) == with_none(entries),
{
    if !has_none(entries) {
        assert(with_none(entries)[0].0 is None);
    }
}

/// Setting the entries that a column shows for a list gives the same
/// entries again, whether or not the column offers the "none" marker.
pub proof fn shown_entries_is_idempotent<E>(add_none_option: bool, entries: Seq<DbColViewEntry<E>>)
    ensures
        shown_entries(add_none_option, shown_entries(add_none_option, entries)) == shown_entries(
            add_none_option,
            entries,
        ),
{
    with_none_is_idempotent(entries);
}

/// A column that offers the "none" marker shows a list of values with
/// exactly one marker, in front, and the values behind it in their order.
pub proof fn values_get_one_none_marker<E>(values: Seq<E>)
    ensures
        shown_entries(true, entries_of(values)).len() == values.len() + 1,
        shown_entries(true, entries_of(values))[0].0 is None,
        forall|i: int|
            1 <= i <= values.len() ==> (#[trigger] shown_entries(true, entries_of(values))[i]).0
                == Some(values[i - 1]),
{
    assert(!has_none(entries_of(values)));
}

/// The search text as a filter on names: none when the text is empty.
pub open spec fn search_filter(text: Seq<char>) -> Option<Seq<char>> {
    if text.len() == 0 {
        None
    } else {
        Some(text)
    }
}

/// The search text as a filter on numbers: none when the text is empty,
/// a fault when it is not empty and no number.
pub open spec fn search_number(text: Seq<char>) -> Result<Option<i32>, NumberFault> {
    if text.len() == 0 {
        Ok(None)
    } else {
        match read_number(text) {
            Ok(number) => Ok(Some(number)),
            Err(fault) => Err(fault),
        }
    }
}

/// The search text as a filter on numbers, with a fault as the input
/// error that carries its words.
pub open spec fn search_int(text: Seq<char>) -> Result<Option<i32>, Failure> {
    match search_number(text) {
        Ok(number) => Ok(number),
        Err(fault) => Err(Failure::InputError(fault.text())),
    }
}

/// Search text, entry list and selection of one level of a picker.
#[derive(Debug)]
pub struct DbColViewState<E> {
    search_text: String,
    entries: Vec<DbColViewEntry<E>>,
    selected_entry: DbColViewEntry<E>,
    add_none_option: bool,
}

impl<E> View for DbColViewState<E> {
    type V = ColumnModel<E>;

    closed spec fn view(&self) -> ColumnModel<E> {
        ColumnModel {
            search_text: self.search_text@,
            entries: self.entries@,
            selected: self.selected_entry,
            add_none_option: self.add_none_option,
        }
    }
}

/// Whether the list holds the "none" marker.
fn holds_none<E>(entries: &Vec<DbColViewEntry<E>>) -> (found: bool)
    ensures
        found == has_none(entries@),
{
    let mut i: usize = 0;
    while i < entries.len()
        invariant
            i <= entries.len(),
            forall|j: int| 0 <= j < i ==> (#[trigger] entries@[j]).0 is Some,
        decreases entries.len() - i,
    {
        if entries[i].is_none() {
            return true;
        }
        i += 1;
    }
    false
}

/// The entries that a column shows for a list handed to it.
fn shown<E>(add_none_option: bool, entries: Vec<DbColViewEntry<E>>) -> (list: Vec<DbColViewEntry<E>>)
    ensures
        list@ == shown_entries(add_none_option, entries@),
        add_none_option ==> has_none(list@),
{
    let ghost given = entries@;
    let mut entries = entries;
    if add_none_option && !holds_none(&entries) {
        entries.insert(0, DbColViewEntry::none());
        assert(entries@ =~= with_none(given));
        assert(entries@[0].0 is None);
    }
    entries
}

impl<E> DbColViewState<E> {
    #[verifier::type_invariant]
    spec fn marker_is_shown(self) -> bool {
        self.add_none_option ==> has_none(self.entries@)
    }

    /// A column with no search text and no selection that shows `entries`.
    pub fn new(entries: Vec<DbColViewEntry<E>>, add_none_option: bool) -> (state: Self)
        ensures
            state@.search_text.len() == 0,
            state@.entries == shown_entries(add_none_option, entries@),
            state@.selected.0 is None,
            state@.add_none_option == add_none_option,
    {
        DbColViewState {
            search_text: String::new(),
            entries: shown(add_none_option, entries),
            selected_entry: DbColViewEntry::none(),
            add_none_option,
        }
    }

    /// Replaces the entry list. The values are neither sorted nor
    /// deduplicated; a column that offers the "none" marker gets it in
    /// front unless the list already holds it.
    pub fn set_entries(&mut self, entries: Vec<DbColViewEntry<E>>)
        ensures
            final(self)@.entries == shown_entries(old(self)@.add_none_option, entries@),
            final(self)@.search_text == old(self)@.search_text,
            final(self)@.selected == old(self)@.selected,
            final(self)@.add_none_option == old(self)@.add_none_option,
    {
        self.entries = shown(self.add_none_option, entries);
    }

    /// The entries on display. A column that offers the "none" marker
    /// shows it, whatever list it was given.
    pub fn get_entries(&self) -> (entries: &Vec<DbColViewEntry<E>>)
        ensures
            entries@ == self@.entries,
            self@.well_formed(),
    {
        proof {
            use_type_invariant(self);
        }
        &self.entries
    }

    /// Replaces the selection; the entry list is left as it is.
    pub fn set_selected(&mut self, entry: DbColViewEntry<E>)
        ensures
            final(self)@ == (ColumnModel { selected: entry, ..old(self)@ }),
    {
        proof {
            use_type_invariant(&*self);
        }
        self.selected_entry = entry;
    }

    /// Clears the selection.
    pub fn set_selected_none(&mut self)
        ensures
            final(self)@ == (ColumnModel { selected: DbColViewEntry::<E>(None), ..old(self)@ }),
    {
        proof {
            use_type_invariant(&*self);
        }
        self.selected_entry = DbColViewEntry::none();
    }

    /// The selected entry.
    pub fn get_selected(&self) -> (entry: &DbColViewEntry<E>)
        ensures
            *entry == self@.selected,
    {
        &self.selected_entry
    }

    /// Stores the raw search text. Nothing is queried anew: the owner of
    /// the column decides in which order its columns are refreshed.
    pub fn set_search_text(&mut self, text: String)
        ensures
            final(self)@ == (ColumnModel { search_text: text@, ..old(self)@ }),
    {
        proof {
            use_type_invariant(&*self);
        }
        self.search_text = text;
    }

    /// The search text as a filter: none when the field is empty.
    pub fn get_search_text(&self) -> (text: Option<&str>)
        ensures
            self@.search_text.len() == 0 ==> text is None,
            self@.search_text.len() > 0 ==> text is Some && text->0@ == self@.search_text,
    {
        if self.search_text.as_str().unicode_len() == 0 {
            None
        } else {
            Some(self.search_text.as_str())
        }
    }

    /// The search text as a filter on names, for a query of its own.
    pub fn search_filter(&self) -> (filter: Option<String>)
        ensures
            optional_text(filter) == search_filter(self@.search_text),
    {
        if self.search_text.as_str().unicode_len() == 0 {
            None
        } else {
            Some(self.search_text.clone())
        }
    }

    /// The search text as a whole number. An empty field is no filter;
    /// text that is no number is an input error, whose message says what
    /// is wrong with it.
    pub fn get_search_int(&self) -> (result: Result<Option<i32>, LoreGuiError>)
        ensures
            outcome(result) == search_int(self@.search_text),
    {
        match self.get_search_text() {
            None => Ok(None),
            Some(text) => match parse_number(text) {
                Ok(number) => Ok(Some(number)),
                Err(fault) => Err(LoreGuiError::InputError(fault.message())),
            },
        }
    }
}

/// Whether `copy` may be what cloning `entry` gave.
pub open spec fn entry_cloned<E: Clone>(entry: DbColViewEntry<E>, copy: DbColViewEntry<E>) -> bool {
    &&& entry.0 is None ==> copy.0 is None
    &&& entry.0 is Some ==> copy.0 is Some && cloned::<E>(entry.0->0, copy.0->0)
}

impl<E: Clone> Clone for DbColViewState<E> {
    fn clone(&self) -> (copy: Self)
        ensures
            copy@.search_text == self@.search_text,
            copy@.add_none_option == self@.add_none_option,
            entry_cloned(self@.selected, copy@.selected),
            copy@.entries.len() == self@.entries.len(),
            forall|i: int|
                0 <= i < self@.entries.len() ==> entry_cloned(
                    #[trigger] self@.entries[i],
                    copy@.entries[i],
                ),
    {
        let entries = self.entries.clone();
        proof {
            use_type_invariant(self);
            if self.add_none_option {
                let i = choose|i: int|
                    0 <= i < self.entries@.len() && (#[trigger] self.entries@[i]).0 is None;
                assert(entries@[i].0 is None);
            }
        }
        DbColViewState {
            search_text: self.search_text.clone(),
            entries,
            selected_entry: self.selected_entry.clone(),
            add_none_option: self.add_none_option,
        }
    }
}

impl<E> Default for DbColViewState<E> {
    fn default() -> (state: Self)
        ensures
            state@ == ColumnModel::<E>::blank(false),
    {
        let state = Self::new(Vec::new(), false);
        assert(state@.search_text =~= Seq::empty());
        assert(state@.entries =~= Seq::empty());
        state
    }
}

} // verus!
