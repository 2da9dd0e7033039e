use loregui::db_col_view::entry::{entries_from, DbColViewEntry};
use loregui::db_col_view::state::DbColViewState;
use loregui::errors::LoreGuiError;
use loregui::types::{each_once_of, holds_text};

fn entry(text: &str) -> DbColViewEntry<String> {
    DbColViewEntry(Some(text.to_string()))
}

#[test]
fn a_new_column_has_no_selection() {
    let state: DbColViewState<String> = DbColViewState::new(vec![], false);
    assert_eq!(state.get_selected(), &DbColViewEntry(None));
    assert!(state.get_entries().is_empty());
    assert_eq!(state.get_search_text(), None);
}

#[test]
fn the_default_column_offers_no_none_marker() {
    let mut state: DbColViewState<String> = DbColViewState::default();
    state.set_entries(vec![entry("a")]);
    assert_eq!(state.get_entries(), &vec![entry("a")]);
}

#[test]
fn a_column_with_none_option_starts_with_the_marker() {
    let state: DbColViewState<String> = DbColViewState::new(vec![], true);
    assert_eq!(state.get_entries(), &vec![DbColViewEntry(None)]);
}

#[test]
fn set_entries_puts_the_none_marker_in_front() {
    let mut state: DbColViewState<String> = DbColViewState::new(vec![], true);
    state.set_entries(vec![entry("b"), entry("a")]);
    assert_eq!(state.get_entries(), &vec![DbColViewEntry(None), entry("b"), entry("a")]);
}

#[test]
fn set_entries_neither_sorts_nor_deduplicates() {
    let mut state: DbColViewState<String> = DbColViewState::new(vec![], false);
    state.set_entries(vec![entry("b"), entry("a"), entry("b")]);
    assert_eq!(state.get_entries(), &vec![entry("b"), entry("a"), entry("b")]);
}

#[test]
fn setting_the_shown_entries_again_adds_no_second_marker() {
    let mut state: DbColViewState<String> = DbColViewState::new(vec![], true);
    state.set_entries(vec![entry("a"), entry("b")]);
    let shown = state.get_entries().clone();
    state.set_entries(shown.clone());
    assert_eq!(state.get_entries(), &shown);
    state.set_entries(vec![entry("a"), entry("b")]);
    assert_eq!(state.get_entries(), &shown);
    let markers = state.get_entries().iter().filter(|e| e.0.is_none()).count();
    assert_eq!(markers, 1);
}

#[test]
fn a_marker_anywhere_in_the_list_counts_as_present() {
    let mut state: DbColViewState<String> = DbColViewState::new(vec![], true);
    state.set_entries(vec![entry("a"), DbColViewEntry(None)]);
    assert_eq!(state.get_entries(), &vec![entry("a"), DbColViewEntry(None)]);
}

#[test]
fn the_selection_need_not_be_among_the_entries() {
    let mut state: DbColViewState<String> = DbColViewState::new(vec![entry("a")], false);
    state.set_selected(entry("z"));
    assert_eq!(state.get_selected(), &entry("z"));
    state.set_entries(vec![entry("b")]);
    assert_eq!(state.get_selected(), &entry("z"));
    state.set_selected_none();
    assert_eq!(state.get_selected(), &DbColViewEntry(None));
    assert_eq!(state.get_entries(), &vec![entry("b")]);
}

#[test]
fn the_search_text_alone_changes_nothing_else() {
    let mut state: DbColViewState<String> = DbColViewState::new(vec![entry("a")], false);
    state.set_selected(entry("a"));
    state.set_search_text("xy".to_string());
    assert_eq!(state.get_search_text(), Some("xy"));
    assert_eq!(state.search_filter(), Some("xy".to_string()));
    assert_eq!(state.get_selected(), &entry("a"));
    assert_eq!(state.get_entries(), &vec![entry("a")]);
    state.set_search_text(String::new());
    assert_eq!(state.get_search_text(), None);
    assert_eq!(state.search_filter(), None);
}

#[test]
fn an_empty_search_text_is_no_number_filter() {
    let state: DbColViewState<i32> = DbColViewState::default();
    assert_eq!(state.get_search_int(), Ok(None));
}

#[test]
fn a_number_in_the_search_text_is_the_filter() {
    let mut state: DbColViewState<i32> = DbColViewState::default();
    state.set_search_text("1984".to_string());
    assert_eq!(state.get_search_int(), Ok(Some(1984)));
    state.set_search_text("-7".to_string());
    assert_eq!(state.get_search_int(), Ok(Some(-7)));
}

#[test]
fn a_search_text_that_is_no_number_is_an_input_error() {
    let mut state: DbColViewState<i32> = DbColViewState::default();
    state.set_search_text("19x4".to_string());
    assert_eq!(
        state.get_search_int(),
        Err(LoreGuiError::InputError("invalid digit found in string".to_string()))
    );
    state.set_search_text("99999999999".to_string());
    assert_eq!(
        state.get_search_int(),
        Err(LoreGuiError::InputError("number too large to fit in target type".to_string()))
    );
    state.set_search_text(" 5".to_string());
    assert!(matches!(state.get_search_int(), Err(LoreGuiError::InputError(_))));
}

#[test]
fn a_clone_of_a_column_holds_the_same() {
    let mut state: DbColViewState<String> = DbColViewState::new(vec![entry("a")], true);
    state.set_selected(entry("a"));
    state.set_search_text("a".to_string());
    let copy = state.clone();
    assert_eq!(copy.get_entries(), state.get_entries());
    assert_eq!(copy.get_selected(), state.get_selected());
    assert_eq!(copy.get_search_text(), state.get_search_text());
}

#[test]
fn entries_are_made_of_values_in_their_order() {
    assert_eq!(entries_from(vec![3, 1, 2]), vec![
        DbColViewEntry(Some(3)),
        DbColViewEntry(Some(1)),
        DbColViewEntry(Some(2)),
    ]);
    assert_eq!(entries_from(Vec::<i32>::new()), vec![]);
}

#[test]
fn an_entry_is_made_from_a_value() {
    let made: DbColViewEntry<i32> = DbColViewEntry::from(5);
    assert_eq!(made, DbColViewEntry(Some(5)));
    assert!(!made.is_none());
    assert!(DbColViewEntry::<i32>::none().is_none());
}

#[test]
fn the_none_marker_is_shown_as_a_fixed_token() {
    assert_eq!(DbColViewEntry::<String>(None).to_text(), "[none]");
    assert_eq!(entry("Gandalf").to_text(), "Gandalf");
    assert_eq!(DbColViewEntry(Some(-12i32)).to_text(), "-12");
    assert_eq!(DbColViewEntry(Some(1_700_000_000_000i64)).to_text(), "1700000000000");
    assert_eq!(DbColViewEntry::<i64>(None).to_text(), "[none]");
}

#[test]
fn the_day_none_is_a_value_and_not_the_marker() {
    let no_day: DbColViewEntry<Option<i32>> = DbColViewEntry(Some(None));
    let marker: DbColViewEntry<Option<i32>> = DbColViewEntry(None);
    assert_ne!(no_day, marker);
    assert_eq!(no_day.to_text(), "");
    assert_eq!(marker.to_text(), "[none]");
    assert_eq!(DbColViewEntry(Some(Some(5))).to_text(), "5");
    assert_eq!(no_day.flatten(), None);
    assert_eq!(marker.flatten(), None);
    assert_eq!(DbColViewEntry(Some(Some(5))).flatten(), Some(5));
}

#[test]
fn each_text_is_taken_once_in_the_order_of_its_first_place() {
    let texts: Vec<String> = ["b", "a", "b", "c", "a", "b"].iter().map(|t| t.to_string()).collect();
    assert_eq!(each_once_of(texts), vec!["b", "a", "c"]);
    assert_eq!(each_once_of(vec![]), Vec::<String>::new());
    let apart: Vec<String> = ["x", "y"].iter().map(|t| t.to_string()).collect();
    assert_eq!(each_once_of(apart.clone()), apart);
    assert_eq!(each_once_of(each_once_of(vec!["a".into(), "a".into()])), vec!["a"]);
}

#[test]
fn a_list_holds_a_text_of_the_same_characters() {
    let texts = vec!["ab".to_string(), "c".to_string()];
    assert!(holds_text(&texts, &"c".to_string()));
    assert!(!holds_text(&texts, &"a".to_string()));
    assert!(!holds_text(&vec![], &"a".to_string()));
}
