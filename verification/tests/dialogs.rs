use loregui::db_col_view::entry::DbColViewEntry;
use loregui::db_col_view::number::NumberFault;
use loregui::dialog::change_role::{ChangeRoleData, ChangeRoleDialog};
use loregui::dialog::confirmation::ConfirmationDialog;
use loregui::dialog::new_descriptor::NewDescriptorDialog;
use loregui::dialog::new_entity::{NewEntityData, NewEntityDialog};
use loregui::dialog::new_history_item::NewHistoryDialog;
use loregui::dialog::new_relationship::NewRelationshipDialog;
use loregui::dialog::redate_history::{RedateHistoryData, RedateHistoryDialog, RedateHistoryMes};
use loregui::dialog::relabel_entity::{RelabelEntityData, RelabelEntityDialog};
use loregui::dialog::rename_descriptor::{RenameDescriptorData, RenameDescriptorDialog};
use loregui::dialog::{day_update, role_update, year_update, Dialog, DialogUpdate};
use loregui::entity_view::{descriptor_buttons, label_buttons, EntityViewMessage, EntityViewState};
use loregui::errors::LoreGuiError;
use loregui::gui::message_handling::GuiMes;
use loregui::history_view::{history_buttons, HistoryViewMessage, HistoryViewState};
use loregui::relationship_view::{
    relationship_buttons, RelationshipViewMessage, RelationshipViewState,
};
use loregui::store::{Store, StoreMutation, StoreReply, StoreRequest};
use loregui::types::EntityRelationship;

fn ally() -> EntityRelationship {
    EntityRelationship { parent: "A".into(), child: "B".into(), role: Some("ally".into()) }
}

#[test]
fn redate_data_starts_from_the_old_date() {
    let data = RedateHistoryData::new(77, 3, Some(4));
    assert_eq!(data.timestamp, 77);
    assert_eq!(data.old_year, 3);
    assert_eq!(data.old_day, Some(4));
    assert_eq!(data.new_year, 3);
    assert_eq!(data.new_day, Some(4));
    let data = RedateHistoryData::new(-1, -3, None);
    assert_eq!((data.new_year, data.new_day), (-3, None));
}

#[test]
fn the_redate_dialog_takes_a_year_and_a_day() {
    let mut dialog = RedateHistoryDialog::new(RedateHistoryData::new(77, 3, None));
    assert_eq!(dialog.update(RedateHistoryMes::YearUpd(9)), None);
    assert_eq!(dialog.data.new_year, 9);
    assert_eq!(dialog.data.old_year, 3);
    assert_eq!(dialog.update(RedateHistoryMes::DayUpd(2)), None);
    assert_eq!(dialog.data.new_day, Some(2));
    assert_eq!(dialog.data.old_day, None);
    let before = dialog;
    assert_eq!(
        dialog.update(RedateHistoryMes::Submit),
        Some(GuiMes::RedateHistoryItem(RedateHistoryData {
            timestamp: 77,
            old_year: 3,
            old_day: None,
            new_year: 9,
            new_day: Some(2),
        }))
    );
    assert_eq!(dialog, before);
}

#[test]
fn the_redate_dialog_names_the_old_date() {
    let dialog = RedateHistoryDialog::new(RedateHistoryData::new(1700000000, 12, Some(34)));
    assert_eq!(dialog.header(), "Redate history for entity: year 12, day 34 (1700000000)");
    let dialog = RedateHistoryDialog::new(RedateHistoryData::new(-5, -12, None));
    assert_eq!(dialog.header(), "Redate history for entity: year -12, day 0 (-5)");
    assert_eq!(Dialog::RedateHistory(dialog).header(), dialog.header());
}

#[test]
fn the_redate_fields_show_the_new_date() {
    let mut dialog = RedateHistoryDialog::new(RedateHistoryData::new(1, 12, None));
    assert_eq!(dialog.year_field_text(), "12");
    assert_eq!(dialog.day_field_text(), "");
    dialog.update(RedateHistoryMes::DayUpd(7));
    assert_eq!(dialog.day_field_text(), "7");
}

#[test]
fn text_that_is_no_number_sets_the_redate_fields_to_zero() {
    assert_eq!(RedateHistoryDialog::year_input("15"), RedateHistoryMes::YearUpd(15));
    assert_eq!(RedateHistoryDialog::year_input("-15"), RedateHistoryMes::YearUpd(-15));
    assert_eq!(RedateHistoryDialog::year_input("x"), RedateHistoryMes::YearUpd(0));
    assert_eq!(RedateHistoryDialog::year_input(""), RedateHistoryMes::YearUpd(0));
    assert_eq!(RedateHistoryDialog::day_input("3"), RedateHistoryMes::DayUpd(3));
    assert_eq!(RedateHistoryDialog::day_input("3rd"), RedateHistoryMes::DayUpd(0));
}

#[test]
fn writing_redate_data_asks_for_the_new_date() {
    let mut data = RedateHistoryData::new(77, 3, Some(4));
    data.new_year = 5;
    data.new_day = None;
    assert_eq!(data.write_to_database(&None), Err(LoreGuiError::NoDatabase));
    let request = StoreRequest::Mutation(StoreMutation::RedateHistoryItem {
        timestamp: 77,
        year: 5,
        day: None,
    });
    let mut store = Store::new();
    assert_eq!(
        data.write_to_database(&Some(Store::new())),
        Err(LoreGuiError::Unanswered(request.clone()))
    );
    store.record(request, StoreReply::Done);
    assert_eq!(data.write_to_database(&Some(store)), Ok(()));
}

#[test]
fn a_confirmation_keeps_what_is_to_be_confirmed() {
    let on_confirm = GuiMes::DeleteEntity("Sam".into());
    let mut dialog = ConfirmationDialog::new("Really?".into(), on_confirm.clone());
    assert_eq!(dialog.message, "Really?");
    assert_eq!(dialog.on_confirm, on_confirm);
    assert_eq!(dialog.header(), "Confirmation");
    assert_eq!(dialog.update(GuiMes::DialogClosed), Some(GuiMes::DialogClosed));
    assert_eq!(dialog.update(on_confirm.clone()), Some(on_confirm.clone()));
    assert_eq!(dialog.clone(), dialog);
    let dialog = Dialog::Confirmation(dialog);
    assert_eq!(dialog.submit(), on_confirm);
    assert_eq!(dialog.header(), "Confirmation");
}

#[test]
fn a_confirmation_takes_no_updates() {
    let mut dialog =
        Dialog::Confirmation(ConfirmationDialog::new("Really?".into(), GuiMes::DialogClosed));
    dialog.update(DialogUpdate::Label("x".into()));
    assert_eq!(
        dialog,
        Dialog::Confirmation(ConfirmationDialog::new("Really?".into(), GuiMes::DialogClosed))
    );
}

#[test]
fn change_role_data_starts_from_the_old_role() {
    let data = ChangeRoleData::new(ally());
    assert_eq!(data.parent(), "A");
    assert_eq!(data.child(), "B");
    assert_eq!(data.new_role(), &Some("ally".to_string()));
    assert_eq!(data.old_relationship, ally());
}

#[test]
fn the_change_role_dialog_names_the_relationship() {
    let dialog = ChangeRoleDialog::new(ChangeRoleData::new(ally()));
    assert_eq!(dialog.header(), "Change role ally for relationship between A and B");
    let bare = EntityRelationship { parent: "A".into(), child: "B".into(), role: None };
    let dialog = ChangeRoleDialog::new(ChangeRoleData::new(bare));
    assert_eq!(dialog.header(), "Change role  for relationship between A and B");
}

#[test]
fn the_change_role_dialog_takes_a_role() {
    let mut dialog = Dialog::ChangeRole(ChangeRoleDialog::new(ChangeRoleData::new(ally())));
    dialog.update(DialogUpdate::Role(Some("friend".into())));
    dialog.update(DialogUpdate::Label("ignored".into()));
    let mut expected = ChangeRoleData::new(ally());
    expected.set_new_role(Some("friend".into()));
    assert_eq!(dialog.submit(), GuiMes::ChangeRole(expected.clone()));
    dialog.update(DialogUpdate::Role(None));
    expected.set_new_role(None);
    assert_eq!(dialog.submit(), GuiMes::ChangeRole(expected));
}

#[test]
fn writing_a_changed_role_names_the_pair_and_the_new_role() {
    let mut data = ChangeRoleData::new(ally());
    data.set_new_role(Some("friend".into()));
    let request = StoreRequest::Mutation(StoreMutation::ChangeRole {
        parent: "A".into(),
        child: "B".into(),
        role: Some("friend".into()),
    });
    assert_eq!(
        data.clone().write_to_database(&Some(Store::new())),
        Err(LoreGuiError::Unanswered(request))
    );
    assert_eq!(data.write_to_database(&None), Err(LoreGuiError::NoDatabase));
}

#[test]
fn the_new_history_dialog_starts_at_year_zero_without_a_day() {
    let dialog = NewHistoryDialog::new();
    assert_eq!(dialog.data.year(), &0);
    assert_eq!(dialog.data.day(), &None);
    assert_eq!(dialog.data.content(), "");
    assert_eq!(dialog.year_field_text(), "0");
    assert_eq!(dialog.day_field_text(), "");
    assert_eq!(Dialog::NewHistoryItem(dialog).header(), "Create new history item");
}

#[test]
fn the_new_history_dialog_keeps_numbers_and_ignores_the_rest() {
    let mut dialog = Dialog::NewHistoryItem(NewHistoryDialog::new());
    dialog.update(year_update("1984"));
    dialog.update(day_update("12"));
    dialog.update(DialogUpdate::Content("war".into()));
    dialog.update(year_update("19x"));
    dialog.update(day_update("x"));
    match dialog.submit() {
        GuiMes::NewHistoryItem(data) => {
            assert_eq!(data.year, 1984);
            assert_eq!(data.day, Some(12));
            assert_eq!(data.content, "war");
        }
        other => panic!("{other:?}"),
    }
    dialog.update(day_update(""));
    match dialog.submit() {
        GuiMes::NewHistoryItem(data) => assert_eq!(data.day, None),
        other => panic!("{other:?}"),
    }
}

#[test]
fn what_is_typed_becomes_an_update() {
    assert_eq!(year_update("12"), DialogUpdate::Year(Ok(12)));
    assert_eq!(year_update(""), DialogUpdate::Year(Err(NumberFault::Empty)));
    assert_eq!(year_update("a"), DialogUpdate::Year(Err(NumberFault::InvalidDigit)));
    assert_eq!(day_update("12"), DialogUpdate::Day(Ok(Some(12))));
    assert_eq!(day_update(""), DialogUpdate::Day(Ok(None)));
    assert_eq!(day_update("1e3"), DialogUpdate::Day(Err(NumberFault::InvalidDigit)));
    assert_eq!(role_update("ally".into()), DialogUpdate::Role(Some("ally".into())));
    assert_eq!(role_update(String::new()), DialogUpdate::Role(None));
    let update = DialogUpdate::Day(Ok(Some(3)));
    assert_eq!(update.clone(), update);
}

#[test]
fn the_entity_dialogs_take_what_they_have_a_field_for() {
    let mut dialog = Dialog::NewEntity(NewEntityDialog::new());
    assert_eq!(dialog.header(), "Create new entity");
    dialog.update(DialogUpdate::Descriptor("ignored".into()));
    dialog.update(DialogUpdate::Label("Pippin".into()));
    assert_eq!(dialog.submit(), GuiMes::NewEntity(NewEntityData::new("Pippin".into())));

    let mut dialog =
        Dialog::RelabelEntity(RelabelEntityDialog::new(RelabelEntityData::new("Sam".into())));
    assert_eq!(dialog.header(), "Relabel entity");
    dialog.update(DialogUpdate::Label("Samwise".into()));
    match dialog.submit() {
        GuiMes::RelabelEntity(data) => {
            assert_eq!(data.old_label, "Sam");
            assert_eq!(data.get_label(), "Samwise");
        }
        other => panic!("{other:?}"),
    }

    let mut dialog = Dialog::NewDescriptor(NewDescriptorDialog::new("Sam".into()));
    assert_eq!(dialog.header(), "Create new descriptor");
    dialog.update(DialogUpdate::Label("ignored".into()));
    dialog.update(DialogUpdate::Descriptor("age".into()));
    match dialog.submit() {
        GuiMes::NewDescriptor(data) => {
            assert_eq!(data.get_label(), "Sam");
            assert_eq!(data.get_descriptor(), "age");
        }
        other => panic!("{other:?}"),
    }

    let data = RenameDescriptorData::new("Sam".into(), "age".into());
    let mut dialog = Dialog::RenameDescriptor(RenameDescriptorDialog::new(data));
    assert_eq!(dialog.header(), "Rename descriptor");
    dialog.update(DialogUpdate::Descriptor("years".into()));
    match dialog.submit() {
        GuiMes::RenameDescriptor(data) => {
            assert_eq!(data.label, "Sam");
            assert_eq!(data.old_descriptor, "age");
            assert_eq!(data.get_descriptor(), "years");
        }
        other => panic!("{other:?}"),
    }
}

#[test]
fn the_relationship_dialog_takes_both_ends_and_a_role() {
    let mut dialog = Dialog::NewRelationship(NewRelationshipDialog::new(
        vec!["A".into(), "B".into()],
        vec!["A".into(), "B".into()],
    ));
    assert_eq!(dialog.header(), "Create new relationship");
    dialog.update(DialogUpdate::Parent("A".into()));
    dialog.update(DialogUpdate::Child("B".into()));
    dialog.update(DialogUpdate::Role(Some("kin".into())));
    match dialog.submit() {
        GuiMes::NewRelationship(data) => {
            assert_eq!(data.parent, "A");
            assert_eq!(data.child, "B");
            assert_eq!(data.role, Some("kin".to_string()));
        }
        other => panic!("{other:?}"),
    }
    match &dialog {
        Dialog::NewRelationship(inner) => assert_eq!(inner.parents, vec!["A", "B"]),
        other => panic!("{other:?}"),
    }
}

#[test]
fn the_label_buttons_act_on_the_selected_label() {
    let mut state = EntityViewState::new();
    let buttons = label_buttons(&state);
    assert_eq!(buttons.new_entity, EntityViewMessage::NewEntity);
    assert_eq!(buttons.relabel_entity, None);
    assert_eq!(buttons.delete_entity, None);
    state.label_view_state.set_selected(DbColViewEntry(Some("Sam".to_string())));
    let buttons = label_buttons(&state);
    assert_eq!(
        buttons.relabel_entity,
        Some(EntityViewMessage::RelabelEntity(RelabelEntityData::new("Sam".into())))
    );
    assert_eq!(buttons.delete_entity, Some(EntityViewMessage::DeleteEntity("Sam".into())));
}

#[test]
fn the_descriptor_buttons_need_a_label_and_a_descriptor() {
    let mut state = EntityViewState::new();
    state.descriptor_view_state.set_selected(DbColViewEntry(Some("age".to_string())));
    let buttons = descriptor_buttons(&state);
    assert_eq!(buttons.new_descriptor, None);
    assert_eq!(buttons.rename_descriptor, None);
    assert_eq!(buttons.delete_descriptor, None);
    state.descriptor_view_state.set_selected_none();
    state.label_view_state.set_selected(DbColViewEntry(Some("Sam".to_string())));
    let buttons = descriptor_buttons(&state);
    assert_eq!(buttons.new_descriptor, Some(EntityViewMessage::NewDescriptor("Sam".into())));
    assert_eq!(buttons.rename_descriptor, None);
    assert_eq!(buttons.delete_descriptor, None);
    state.descriptor_view_state.set_selected(DbColViewEntry(Some("age".to_string())));
    let buttons = descriptor_buttons(&state);
    assert_eq!(
        buttons.rename_descriptor,
        Some(EntityViewMessage::RenameDescriptor(RenameDescriptorData::new(
            "Sam".into(),
            "age".into()
        )))
    );
    assert_eq!(
        buttons.delete_descriptor,
        Some(EntityViewMessage::DeleteDescriptor("Sam".into(), "age".into()))
    );
}

#[test]
fn the_history_buttons_act_on_the_selected_item() {
    let mut state = HistoryViewState::default();
    let buttons = history_buttons(&state);
    assert_eq!(buttons.new_history_item, HistoryViewMessage::NewHistoryItem);
    assert_eq!(buttons.redate_history_item, None);
    assert_eq!(buttons.delete_history_item, None);
    state.set_selected_timestamp(Some(9));
    let buttons = history_buttons(&state);
    assert_eq!(buttons.redate_history_item, None);
    assert_eq!(buttons.delete_history_item, Some(HistoryViewMessage::DeleteHistoryItem(9)));
    state.set_selected_year(Some(2));
    let buttons = history_buttons(&state);
    assert_eq!(
        buttons.redate_history_item,
        Some(HistoryViewMessage::RedateHistoryItem(RedateHistoryData::new(9, 2, None)))
    );
    state.set_selected_day(Some(Some(4)));
    let buttons = history_buttons(&state);
    assert_eq!(
        buttons.redate_history_item,
        Some(HistoryViewMessage::RedateHistoryItem(RedateHistoryData::new(9, 2, Some(4))))
    );
}

#[test]
fn the_content_on_display_can_be_set() {
    let mut state = HistoryViewState::new();
    assert_eq!(state.get_content_text(), "");
    state.set_content_text("draft");
    assert_eq!(state.get_content_text(), "draft");
    assert_eq!(state.current_content, Some("draft".to_string()));
    assert_eq!(state.get_selected_timestamp(), None);
}

#[test]
fn the_role_can_be_changed_of_a_resolved_relationship_only() {
    let mut state = RelationshipViewState::new();
    let buttons = relationship_buttons(&state);
    assert_eq!(buttons.new_relationship, RelationshipViewMessage::NewRelationship);
    assert_eq!(buttons.change_role, None);
    state.parent_view_state.set_selected(DbColViewEntry(Some("A".to_string())));
    state.child_view_state.set_selected(DbColViewEntry(Some("B".to_string())));
    assert_eq!(relationship_buttons(&state).change_role, None);
    state.role_view_state.set_entries(vec![DbColViewEntry(Some("ally".to_string()))]);
    assert_eq!(
        relationship_buttons(&state).change_role,
        Some(RelationshipViewMessage::ChangeRole(ally()))
    );
    assert_eq!(state.current_role(), Some("ally".to_string()));
}
