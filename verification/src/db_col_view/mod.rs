//! One level of a hierarchical picker: its entries, its search text and
//! its selection.

use vstd::prelude::*;

pub mod entry;
pub mod number;
pub mod state;

verus! {

/// What a column view reports to its owner.
#[derive(Debug, PartialEq, Eq)]
pub enum ColViewMes<E> {
    /// The search field now holds this text.
    SearchFieldUpd(String),
    /// The entry at this position of the list was picked.
    Selected(usize, entry::DbColViewEntry<E>),
}

/// Whether `copy` may be what cloning `message` gave.
pub open spec fn message_cloned<E: Clone>(message: ColViewMes<E>, copy: ColViewMes<E>) -> bool {
    match (message, copy) {
        (ColViewMes::SearchFieldUpd(a), ColViewMes::SearchFieldUpd(b)) => a == b,
        (ColViewMes::Selected(i, a), ColViewMes::Selected(j, b)) => i == j && state::entry_cloned(
            a,
            b,
        ),
        _ => false,
    }
}

impl<E: Clone> Clone for ColViewMes<E> {
    fn clone(&self) -> (copy: Self)
        ensures
            message_cloned(*self, copy),
    {
        match self {
            ColViewMes::SearchFieldUpd(text) => ColViewMes::SearchFieldUpd(text.clone()),
            ColViewMes::Selected(index, entry) => ColViewMes::Selected(*index, entry.clone()),
        }
    }
}

} // verus!
