//! The selection and filter logic of a lore browser.
//!
//! A lore database holds entities with their descriptors and
//! descriptions, relationships between entities, and history items. The
//! browser shows them in three views, each made of columns that depend on
//! one another: what a column lists follows from what is selected in the
//! columns above it. This library keeps the columns consistent. Whenever
//! the user types into a search field, selects an entry or changes the
//! database, every column below the change is brought up to date, in a
//! fixed order, before the change is seen; where something fails, nothing
//! changes at all.
//!
//! The library reaches no database itself. It names the request that it
//! needs answered; the program around it asks the database, records the
//! reply, and hands the event in again ([`store`]).
//!
//! - [`db_col_view`]: one column, and the numbers that are typed into it.
//! - [`store`]: the requests to the database and the record of its replies.
//! - [`entity_view`], [`history_view`], [`relationship_view`]: the three
//!   views, each with its state, its rules and the laws that hold of it.
//! - [`dialog`]: the dialogs that collect the data for a change.
//! - [`gui`]: the application as a whole, and what each message does to it.

pub mod db_col_view;
pub mod dialog;
pub mod entity_view;
pub mod errors;
pub mod gui;
pub mod history_view;
pub mod relationship_view;
pub mod store;
pub mod types;
