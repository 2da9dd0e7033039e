//! The entity view: the labels of the entities, the descriptors of the
//! selected entity, and the description under the selected descriptor.
//!
//! Each level depends on the levels above it. The descriptors on display
//! are those of the selected label; the description is that of the
//! selected label and descriptor. Whenever a level changes, every level
//! below it is brought up to date before the change is seen.

use vstd::prelude::*;
use crate::db_col_view::entry::{entries_from, entries_of, DbColViewEntry};
use crate::db_col_view::state::{search_filter, shown_entries, ColumnModel, DbColViewState};
use crate::db_col_view::ColViewMes;
use crate::dialog::relabel_entity::RelabelEntityData;
use crate::dialog::rename_descriptor::RenameDescriptorData;
use crate::errors::{lands, outcome, rows, Failure, LoreGuiError};
use crate::store::{
    description_of, descriptors_of, get_description, labels_of, query_descriptors, query_labels,
    Store,
};
use crate::types::{clone_optional_text, text_eq, Descriptor, Label};

verus! {

/// What the entity view reports to the application.
#[derive(Debug, PartialEq, Eq)]
pub enum EntityViewMessage {
    NewEntity,
    RelabelEntity(RelabelEntityData),
    DeleteEntity(Label),
    NewDescriptor(Label),
    RenameDescriptor(RenameDescriptorData),
    DeleteDescriptor(Label, Descriptor),
    LabelViewUpd(ColViewMes<Label>),
    DescriptorViewUpd(ColViewMes<Descriptor>),
}

/// The state of the entity view.
#[derive(Debug)]
pub struct EntityViewState {
    pub label_view_state: DbColViewState<Label>,
    pub descriptor_view_state: DbColViewState<Descriptor>,
    /// The description of the selected label under the selected
    /// descriptor, where the store has one.
    pub current_description: Option<String>,
}

/// The state of the entity view as plain values.
pub struct EntityModel {
    pub label: ColumnModel<Label>,
    pub descriptor: ColumnModel<Descriptor>,
    pub description: Option<String>,
}

impl View for EntityViewState {
    type V = EntityModel;

    open spec fn view(&self) -> EntityModel {
        EntityModel {
            label: self.label_view_state@,
            descriptor: self.descriptor_view_state@,
            description: self.current_description,
        }
    }
}

impl EntityModel {
    /// The view before anything was asked of the store: no entries, no
    /// search text, nothing selected, no description.
    pub open spec fn initial() -> EntityModel {
        EntityModel {
            label: ColumnModel::blank(false),
            descriptor: ColumnModel::blank(false),
            description: None,
        }
    }

    /// The labels that the store has for the label search text.
    pub open spec fn current_labels(self, db: Option<Store>) -> Result<Seq<Label>, Failure> {
        labels_of(db, search_filter(self.label.search_text))
    }

    /// The descriptors that the store has for the selected label and the
    /// descriptor search text. Without a selected label there are none,
    /// and the store is not asked.
    pub open spec fn current_descriptors(self, db: Option<Store>) -> Result<
        Seq<Descriptor>,
        Failure,
    > {
        match self.label.selected.0 {
            Some(label) => descriptors_of(db, label@, search_filter(self.descriptor.search_text)),
            None => Ok(Seq::empty()),
        }
    }

    /// The description that the store has for the selected label and
    /// descriptor. Where one of them is not selected there is none, and
    /// the store is not asked.
    pub open spec fn current_description(self, db: Option<Store>) -> Result<
        Option<String>,
        Failure,
    > {
        match (self.label.selected.0, self.descriptor.selected.0) {
            (Some(label), Some(descriptor)) => description_of(db, label@, descriptor@),
            _ => Ok(None),
        }
    }

    /// Whether the label column shows what the store has for its search text.
    pub open spec fn labels_current(self, db: Option<Store>) -> bool {
        self.current_labels(db) matches Ok(labels) && self.label.entries == shown_entries(
            self.label.add_none_option,
            entries_of(labels),
        )
    }

    /// Whether the descriptor column shows what the store has for the
    /// selected label and its own search text.
    pub open spec fn descriptors_current(self, db: Option<Store>) -> bool {
        self.current_descriptors(db) matches Ok(descriptors) && self.descriptor.entries
            == shown_entries(self.descriptor.add_none_option, entries_of(descriptors))
    }

    /// Whether the description is what the store has for the selections.
    pub open spec fn description_current(self, db: Option<Store>) -> bool {
        self.current_description(db) == Ok::<Option<String>, Failure>(self.description)
    }

    /// The state with the description brought up to date.
    pub open spec fn refreshed_description(self, db: Option<Store>) -> Result<EntityModel, Failure> {
        match self.current_description(db) {
            Ok(description) => Ok(EntityModel { description, ..self }),
            Err(failure) => Err(failure),
        }
    }

    /// The state with the descriptors, and then the description, brought
    /// up to date.
    pub open spec fn refreshed_descriptors(self, db: Option<Store>) -> Result<EntityModel, Failure> {
        match self.current_descriptors(db) {
            Ok(descriptors) => match self.refreshed_description(db) {
                Ok(next) => Ok(
                    EntityModel {
                        descriptor: ColumnModel {
                            entries: shown_entries(
                                self.descriptor.add_none_option,
                                entries_of(descriptors),
                            ),
                            ..self.descriptor
                        },
                        ..next
                    },
                ),
                Err(failure) => Err(failure),
            },
            Err(failure) => Err(failure),
        }
    }

    /// The state with the labels, then the descriptors, and then the
    /// description, brought up to date.
    pub open spec fn refreshed_labels(self, db: Option<Store>) -> Result<EntityModel, Failure> {
        match self.current_labels(db) {
            Ok(labels) => match self.refreshed_descriptors(db) {
                Ok(next) => Ok(
                    EntityModel {
                        label: ColumnModel {
                            entries: shown_entries(self.label.add_none_option, entries_of(labels)),
                            ..self.label
                        },
                        ..next
                    },
                ),
                Err(failure) => Err(failure),
            },
            Err(failure) => Err(failure),
        }
    }

    /// The state with nothing selected and no description.
    pub open spec fn unselected(self) -> EntityModel {
        EntityModel {
            label: ColumnModel { selected: DbColViewEntry(None), ..self.label },
            descriptor: ColumnModel { selected: DbColViewEntry(None), ..self.descriptor },
            description: None,
        }
    }

    /// The state after the label search text was set: the selected label
    /// stays, and no descriptor is selected any more.
    pub open spec fn label_searched(self, text: String) -> EntityModel {
        EntityModel {
            label: ColumnModel { search_text: text@, ..self.label },
            descriptor: ColumnModel { selected: DbColViewEntry(None), ..self.descriptor },
            ..self
        }
    }

    /// The state after a label was selected: no descriptor is selected
    /// any more.
    pub open spec fn label_selected(self, label: DbColViewEntry<Label>) -> EntityModel {
        EntityModel {
            label: ColumnModel { selected: label, ..self.label },
            descriptor: ColumnModel { selected: DbColViewEntry(None), ..self.descriptor },
            ..self
        }
    }

    /// The state after the descriptor search text was set: the selected
    /// descriptor stays.
    pub open spec fn descriptor_searched(self, text: String) -> EntityModel {
        EntityModel { descriptor: ColumnModel { search_text: text@, ..self.descriptor }, ..self }
    }

    /// The state after a descriptor was selected.
    pub open spec fn descriptor_selected(
        self,
        descriptor: DbColViewEntry<Descriptor>,
    ) -> EntityModel {
        EntityModel { descriptor: ColumnModel { selected: descriptor, ..self.descriptor }, ..self }
    }

    /// The state after a change to the store that touched the labels:
    /// the label search text is empty, the label is selected, and no
    /// descriptor is.
    pub open spec fn label_reselected(self, label: DbColViewEntry<Label>) -> EntityModel {
        EntityModel {
            label: ColumnModel { search_text: Seq::empty(), selected: label, ..self.label },
            descriptor: ColumnModel { selected: DbColViewEntry(None), ..self.descriptor },
            ..self
        }
    }

    /// The state after a change to the store that touched the descriptors
    /// of the selected label: the descriptor search text is empty, and
    /// the descriptor is selected.
    pub open spec fn descriptor_reselected(
        self,
        descriptor: DbColViewEntry<Descriptor>,
    ) -> EntityModel {
        EntityModel {
            descriptor: ColumnModel {
                search_text: Seq::empty(),
                selected: descriptor,
                ..self.descriptor
            },
            ..self
        }
    }

    /// Whether the entity with this label is the selected one.
    pub open spec fn has_selected(self, label: Seq<char>) -> bool {
        self.label.selected.0 matches Some(selected) && selected@ == label
    }

    /// The state after an event of the label column, with every level
    /// below the change brought up to date.
    pub open spec fn after_label_event(self, event: ColViewMes<Label>, db: Option<Store>) -> Result<
        EntityModel,
        Failure,
    > {
        match event {
            ColViewMes::SearchFieldUpd(text) => self.label_searched(text).refreshed_labels(db),
            ColViewMes::Selected(_, label) => self.label_selected(label).refreshed_descriptors(db),
        }
    }

    /// The state after an event of the descriptor column, with every
    /// level below the change brought up to date. The label column is
    /// left as it is.
    pub open spec fn after_descriptor_event(
        self,
        event: ColViewMes<Descriptor>,
        db: Option<Store>,
    ) -> Result<EntityModel, Failure> {
        match event {
            ColViewMes::SearchFieldUpd(text) => self.descriptor_searched(text).refreshed_descriptors(
                db,
            ),
            ColViewMes::Selected(_, descriptor) => self.descriptor_selected(
                descriptor,
            ).refreshed_description(db),
        }
    }
}

impl EntityModel {
    /// Whether every column, and the description, is what the store has
    /// for the search texts and the selections.
    pub open spec fn current(self, db: Option<Store>) -> bool {
        self.labels_current(db) && self.descriptors_current(db) && self.description_current(db)
    }
}

/// After an event of the label column, nothing below the change is
/// stale: no descriptor is selected, and the descriptors and the
/// description are what the store has for the new state. After a new
/// search text the labels are what the store has for it, too.
pub proof fn label_event_leaves_nothing_stale(
    state: EntityModel,
    event: ColViewMes<Label>,
    db: Option<Store>,
)
    requires
        state.after_label_event(event, db) is Ok,
    ensures
        ({
            let next = state.after_label_event(event, db)->Ok_0;
            &&& next.descriptor.selected.0 is None
            &&& next.description is None
            &&& next.descriptors_current(db)
            &&& next.description_current(db)
            &&& event is SearchFieldUpd ==> next.labels_current(db)
            &&& state.labels_current(db) ==> next.current(db)
        }),
{
}

/// After an event of the descriptor column, nothing below the change is
/// stale: the description is what the store has for the new state, and
/// after a new search text the descriptors are, too. The label column is
/// as it was.
pub proof fn descriptor_event_leaves_nothing_stale(
    state: EntityModel,
    event: ColViewMes<Descriptor>,
    db: Option<Store>,
)
    requires
        state.after_descriptor_event(event, db) is Ok,
    ensures
        ({
            let next = state.after_descriptor_event(event, db)->Ok_0;
            &&& next.label == state.label
            &&& next.description_current(db)
            &&& event is SearchFieldUpd ==> next.descriptors_current(db)
            &&& state.current(db) ==> next.current(db)
        }),
{
}

/// A new search text changes no selection of its own column: the
/// selected label stays when the labels are searched, and the selected
/// descriptor when the descriptors are.
pub proof fn entity_search_keeps_selection(
    state: EntityModel,
    text: String,
    db: Option<Store>,
)
    ensures
        state.after_label_event(ColViewMes::SearchFieldUpd(text), db) matches Ok(next)
            ==> next.label.selected == state.label.selected && next.label.search_text == text@,
        state.after_descriptor_event(ColViewMes::SearchFieldUpd(text), db) matches Ok(next)
            ==> next.descriptor.selected == state.descriptor.selected
            && next.descriptor.search_text == text@,
{
}

/// A change to the store that touched the labels ends, where it goes
/// through, with an empty label search text, with the label selected,
/// with no descriptor selected and no description, and with every column
/// showing what the store has.
pub proof fn label_is_selected_after_change(
    state: EntityModel,
    label: DbColViewEntry<Label>,
    db: Option<Store>,
)
    requires
        state.label_reselected(label).refreshed_labels(db) is Ok,
    ensures
        ({
            let next = state.label_reselected(label).refreshed_labels(db)->Ok_0;
            &&& next.label.search_text.len() == 0
            &&& next.label.selected == label
            &&& next.descriptor.selected.0 is None
            &&& next.descriptor.search_text == state.descriptor.search_text
            &&& next.description is None
            &&& next.current(db)
        }),
{
}

/// A change to the store that touched the descriptors ends, where it
/// goes through, with an empty descriptor search text, with the
/// descriptor selected, and with the description that the store has for
/// it: none for a descriptor that has no description yet.
pub proof fn descriptor_is_selected_after_change(
    state: EntityModel,
    descriptor: DbColViewEntry<Descriptor>,
    db: Option<Store>,
)
    requires
        state.descriptor_reselected(descriptor).refreshed_descriptors(db) is Ok,
    ensures
        ({
            let next = state.descriptor_reselected(descriptor).refreshed_descriptors(db)->Ok_0;
            &&& next.label == state.label
            &&& next.descriptor.search_text.len() == 0
            &&& next.descriptor.selected == descriptor
            &&& next.descriptors_current(db)
            &&& next.description_current(db)
        }),
{
}

impl Clone for EntityViewMessage {
    fn clone(&self) -> (copy: Self)
        ensures
            copy == *self,
    {
        match self {
            EntityViewMessage::NewEntity => EntityViewMessage::NewEntity,
            EntityViewMessage::RelabelEntity(data) => EntityViewMessage::RelabelEntity(data.clone()),
            EntityViewMessage::DeleteEntity(label) => EntityViewMessage::DeleteEntity(label.clone()),
            EntityViewMessage::NewDescriptor(label) => EntityViewMessage::NewDescriptor(
                label.clone(),
            ),
            EntityViewMessage::RenameDescriptor(data) => EntityViewMessage::RenameDescriptor(
                data.clone(),
            ),
            EntityViewMessage::DeleteDescriptor(label, descriptor) => EntityViewMessage::DeleteDescriptor(
                label.clone(),
                descriptor.clone(),
            ),
            EntityViewMessage::LabelViewUpd(event) => EntityViewMessage::LabelViewUpd(event.clone()),
            EntityViewMessage::DescriptorViewUpd(event) => EntityViewMessage::DescriptorViewUpd(
                event.clone(),
            ),
        }
    }
}

impl Clone for EntityViewState {
    fn clone(&self) -> (copy: Self)
        ensures
            copy@ == self@,
    {
        let copy = EntityViewState {
            label_view_state: self.label_view_state.clone(),
            descriptor_view_state: self.descriptor_view_state.clone(),
            current_description: clone_optional_text(&self.current_description),
        };
        assert(copy.label_view_state@.entries =~= self.label_view_state@.entries);
        assert(copy.descriptor_view_state@.entries =~= self.descriptor_view_state@.entries);
        copy
    }
}

/// What the buttons above the label column send when they are pressed.
/// A button that has nothing to act on sends nothing.
#[derive(Debug, Clone, PartialEq, Eq)]
pub struct LabelButtons {
    pub new_entity: EntityViewMessage,
    pub relabel_entity: Option<EntityViewMessage>,
    pub delete_entity: Option<EntityViewMessage>,
}

/// What the buttons above the descriptor column send when they are
/// pressed. A button that has nothing to act on sends nothing.
#[derive(Debug, Clone, PartialEq, Eq)]
pub struct DescriptorButtons {
    pub new_descriptor: Option<EntityViewMessage>,
    pub rename_descriptor: Option<EntityViewMessage>,
    pub delete_descriptor: Option<EntityViewMessage>,
}

/// The buttons above the label column. An entity can always be created;
/// the selected entity can be relabelled and deleted.
pub fn label_buttons(state: &EntityViewState) -> (buttons: LabelButtons)
    ensures
        buttons.new_entity == EntityViewMessage::NewEntity,
        buttons.relabel_entity == (match state@.label.selected.0 {
            Some(label) => Some(
                EntityViewMessage::RelabelEntity(
                    RelabelEntityData { old_label: label, new_label: label },
                ),
            ),
            None => None,
        }),
        buttons.delete_entity == (match state@.label.selected.0 {
            Some(label) => Some(EntityViewMessage::DeleteEntity(label)),
            None => None,
        }),
{
    let mut relabel_entity = None;
    let mut delete_entity = None;
    if let Some(label) = &state.label_view_state.get_selected().0 {
        let relabel_entity_data = RelabelEntityData::new(label.clone());
        relabel_entity = Some(EntityViewMessage::RelabelEntity(relabel_entity_data));
        delete_entity = Some(EntityViewMessage::DeleteEntity(label.clone()));
    }
    LabelButtons { new_entity: EntityViewMessage::NewEntity, relabel_entity, delete_entity }
}

/// The buttons above the descriptor column. The selected entity can get
/// a new descriptor; its selected descriptor can be renamed and deleted.
pub fn descriptor_buttons(state: &EntityViewState) -> (buttons: DescriptorButtons)
    ensures
        buttons.new_descriptor == (match state@.label.selected.0 {
            Some(label) => Some(EntityViewMessage::NewDescriptor(label)),
            None => None,
        }),
        buttons.rename_descriptor == (match (state@.label.selected.0, state@.descriptor.selected.0) {
            (Some(label), Some(descriptor)) => Some(
                EntityViewMessage::RenameDescriptor(
                    RenameDescriptorData {
                        label,
                        old_descriptor: descriptor,
                        new_descriptor: descriptor,
                    },
                ),
            ),
            _ => None,
        }),
        buttons.delete_descriptor == (match (state@.label.selected.0, state@.descriptor.selected.0) {
            (Some(label), Some(descriptor)) => Some(
                EntityViewMessage::DeleteDescriptor(label, descriptor),
            ),
            _ => None,
        }),
{
    let mut new_descriptor = None;
    let mut rename_descriptor = None;
    let mut delete_descriptor = None;
    if let Some(label) = &state.label_view_state.get_selected().0 {
        new_descriptor = Some(EntityViewMessage::NewDescriptor(label.clone()));
        if let Some(descriptor) = &state.descriptor_view_state.get_selected().0 {
            let rename_descriptor_data = RenameDescriptorData::new(
                label.clone(),
                descriptor.clone(),
            );
            rename_descriptor = Some(EntityViewMessage::RenameDescriptor(rename_descriptor_data));
            delete_descriptor = Some(
                EntityViewMessage::DeleteDescriptor(label.clone(), descriptor.clone()),
            );
        }
    }
    DescriptorButtons { new_descriptor, rename_descriptor, delete_descriptor }
}

impl EntityViewState {
    /// The view before anything was asked of the store: no entries, no
    /// search text, nothing selected.
    pub fn new() -> (state: Self)
        ensures
            state@ == EntityModel::initial(),
    {
        EntityViewState {
            label_view_state: DbColViewState::default(),
            descriptor_view_state: DbColViewState::default(),
            current_description: None,
        }
    }

    /// Whether the entity with this label is the selected one.
    pub fn has_selected(&self, label: &Label) -> (selected: bool)
        ensures
            selected == self@.has_selected(label@),
    {
        match &self.label_view_state.get_selected().0 {
            Some(selected) => text_eq(selected, label),
            None => false,
        }
    }

    /// Asks the store for the labels that the label search text admits.
    pub fn get_current_labels(&self, db: &Option<Store>) -> (result: Result<Vec<Label>, LoreGuiError>)
        ensures
            rows(result) == self@.current_labels(*db),
    {
        query_labels(db, self.label_view_state.search_filter())
    }

    /// Asks the store for the descriptors of the selected label that the
    /// descriptor search text admits.
    pub fn get_current_descriptors(&self, db: &Option<Store>) -> (result: Result<
        Vec<Descriptor>,
        LoreGuiError,
    >)
        ensures
            rows(result) == self@.current_descriptors(*db),
    {
        match &self.label_view_state.get_selected().0 {
            Some(label) => query_descriptors(
                db,
                label.clone(),
                self.descriptor_view_state.search_filter(),
            ),
            None => Ok(Vec::new()),
        }
    }

    /// Asks the store for the description of the selected label under the
    /// selected descriptor.
    pub fn get_current_description(&self, db: &Option<Store>) -> (result: Result<
        Option<String>,
        LoreGuiError,
    >)
        ensures
            outcome(result) == self@.current_description(*db),
    {
        match (
            &self.label_view_state.get_selected().0,
            &self.descriptor_view_state.get_selected().0,
        ) {
            (Some(label), Some(descriptor)) => get_description(
                db,
                label.clone(),
                descriptor.clone(),
            ),
            _ => Ok(None),
        }
    }

    /// Clears both selections and the description, and brings every
    /// column up to date.
    pub fn reset_selections(&mut self, db: &Option<Store>) -> (result: Result<(), LoreGuiError>)
        ensures
            lands(result, old(self)@, final(self)@, old(self)@.unselected().refreshed_labels(*db)),
    {
        let mut next = self.clone();
        next.label_view_state.set_selected(DbColViewEntry::none());
        next.descriptor_view_state.set_selected(DbColViewEntry::none());
        next.current_description = None;
        next.update_labels(db)?;
        *self = next;
        Ok(())
    }

    /// Brings the labels up to date, and with them the descriptors and
    /// the description.
    pub fn update_labels(&mut self, db: &Option<Store>) -> (result: Result<(), LoreGuiError>)
        ensures
            lands(result, old(self)@, final(self)@, old(self)@.refreshed_labels(*db)),
    {
        let labels = self.get_current_labels(db)?;
        self.update_descriptors(db)?;
        self.label_view_state.set_entries(entries_from(labels));
        Ok(())
    }

    /// Brings the descriptors up to date, and with them the description.
    pub fn update_descriptors(&mut self, db: &Option<Store>) -> (result: Result<(), LoreGuiError>)
        ensures
            lands(result, old(self)@, final(self)@, old(self)@.refreshed_descriptors(*db)),
    {
        let descriptors = self.get_current_descriptors(db)?;
        self.update_description(db)?;
        self.descriptor_view_state.set_entries(entries_from(descriptors));
        Ok(())
    }

    /// Brings the description up to date.
    pub fn update_description(&mut self, db: &Option<Store>) -> (result: Result<(), LoreGuiError>)
        ensures
            lands(result, old(self)@, final(self)@, old(self)@.refreshed_description(*db)),
    {
        let description = self.get_current_description(db)?;
        self.current_description = description;
        Ok(())
    }
}

} // verus!
