//! The relationship view: the parents and the children of the
//! relationships that the store holds, and the role of the relationship
//! between the selected parent and the selected child.
//!
//! The parents and the children filter each other: the children on
//! display are those of the selected parent, the parents those of the
//! selected child. An entity that several relationships name is on
//! display once. The role follows from the two selections. At most one
//! relationship may link a parent and a child; more are an error.

use vstd::prelude::*;
use crate::db_col_view::entry::{entries_from, entries_of, DbColViewEntry};
use crate::db_col_view::state::{search_filter, shown_entries, ColumnModel, DbColViewState};
use crate::db_col_view::ColViewMes;
use crate::errors::{lands, rows, Failure, LoreGuiError};
use crate::store::{
    optional_match, query_relationships, relationships_of, LabelMatch, LabelMatchView, Store,
};
use crate::types::{
    clone_optional_text, each_once, each_once_of, EntityRelationship, Label, Role,
};

verus! {

/// What the relationship view reports to the application.
#[derive(Debug, PartialEq, Eq)]
pub enum RelationshipViewMessage {
    NewRelationship,
    ChangeRole(EntityRelationship),
    ParentViewUpd(ColViewMes<Label>),
    ChildViewUpd(ColViewMes<Label>),
    RoleViewUpd(ColViewMes<Role>),
}

/// The state of the relationship view.
#[derive(Debug)]
pub struct RelationshipViewState {
    pub parent_view_state: DbColViewState<Label>,
    pub child_view_state: DbColViewState<Label>,
    /// The role of the relationship between the selected parent and the
    /// selected child. Its entry list is empty where there is no such
    /// relationship, and holds one entry where there is one: the role,
    /// or the "none" marker for a relationship without a role.
    pub role_view_state: DbColViewState<Role>,
}

/// The state of the relationship view as plain values.
pub struct RelationshipModel {
    pub parent: ColumnModel<Label>,
    pub child: ColumnModel<Label>,
    pub role: ColumnModel<Role>,
}

impl View for RelationshipViewState {
    type V = RelationshipModel;

    open spec fn view(&self) -> RelationshipModel {
        RelationshipModel {
            parent: self.parent_view_state@,
            child: self.child_view_state@,
            role: self.role_view_state@,
        }
    }
}

/// A search text as a match on a part of a label.
pub open spec fn part_match(text: Seq<char>) -> Option<LabelMatchView> {
    match search_filter(text) {
        Some(label) => Some(LabelMatchView { label, exact: false }),
        None => None,
    }
}

/// A selection as a match on the whole label.
pub open spec fn whole_match(selected: DbColViewEntry<Label>) -> Option<LabelMatchView> {
    match selected.0 {
        Some(label) => Some(LabelMatchView { label: label@, exact: true }),
        None => None,
    }
}

/// The parents of a list of relationships, in the same order.
pub open spec fn parents(relationships: Seq<EntityRelationship>) -> Seq<Label> {
    Seq::new(relationships.len(), |i: int| relationships[i].parent)
}

/// The children of a list of relationships, in the same order.
pub open spec fn children(relationships: Seq<EntityRelationship>) -> Seq<Label> {
    Seq::new(relationships.len(), |i: int| relationships[i].child)
}

/// The parents of a list of relationships as entries: each parent once,
/// in the order in which the list first names it.
pub open spec fn parent_entries(relationships: Seq<EntityRelationship>) -> Seq<
    DbColViewEntry<Label>,
> {
    entries_of(each_once(parents(relationships)))
}

/// The children of a list of relationships as entries: each child once,
/// in the order in which the list first names it.
pub open spec fn child_entries(relationships: Seq<EntityRelationship>) -> Seq<
    DbColViewEntry<Label>,
> {
    entries_of(each_once(children(relationships)))
}

/// The roles of a list of relationships, as entries in the same order. A
/// relationship without a role gives the "none" marker.
pub open spec fn role_entries(relationships: Seq<EntityRelationship>) -> Seq<DbColViewEntry<Role>> {
    Seq::new(relationships.len(), |i: int| DbColViewEntry(relationships[i].role))
}

impl RelationshipModel {
    /// The view before anything was asked of the store. The parent and
    /// the child column offer the "none" marker, with which a selection
    /// is taken back.
    pub open spec fn initial() -> RelationshipModel {
        RelationshipModel {
            parent: ColumnModel::blank(true),
            child: ColumnModel::blank(true),
            role: ColumnModel::blank(false),
        }
    }

    /// What holds of every relationship view: the role column holds the
    /// one role that follows from the two selections and nothing else. It
    /// has one entry at most, and does not offer the "none" marker.
    pub open spec fn well_formed(self) -> bool {
        !self.role.add_none_option && self.role.entries.len() <= 1
    }

    /// The parents that the store has for the parent search text and the
    /// selected child.
    pub open spec fn current_parents(self, db: Option<Store>) -> Result<
        Seq<DbColViewEntry<Label>>,
        Failure,
    > {
        match relationships_of(
            db,
            part_match(self.parent.search_text),
            whole_match(self.child.selected),
        ) {
            Ok(relationships) => Ok(parent_entries(relationships)),
            Err(failure) => Err(failure),
        }
    }

    /// The children that the store has for the selected parent and the
    /// child search text.
    pub open spec fn current_children(self, db: Option<Store>) -> Result<
        Seq<DbColViewEntry<Label>>,
        Failure,
    > {
        match relationships_of(
            db,
            whole_match(self.parent.selected),
            part_match(self.child.search_text),
        ) {
            Ok(relationships) => Ok(child_entries(relationships)),
            Err(failure) => Err(failure),
        }
    }

    /// The role that the store has for the selected parent and child.
    /// Where one of them is not selected there is none, and the store is
    /// not asked. More than one relationship between the two is an error.
    pub open spec fn current_roles(self, db: Option<Store>) -> Result<
        Seq<DbColViewEntry<Role>>,
        Failure,
    > {
        match (self.parent.selected.0, self.child.selected.0) {
            (Some(_), Some(_)) => match relationships_of(
                db,
                whole_match(self.parent.selected),
                whole_match(self.child.selected),
            ) {
                Ok(relationships) => if relationships.len() > 1 {
                    Err(Failure::MultipleResults)
                } else {
                    Ok(role_entries(relationships))
                },
                Err(failure) => Err(failure),
            },
            _ => Ok(Seq::empty()),
        }
    }

    /// The role on display: that of the one relationship between the
    /// selected parent and child, where there is such a relationship and
    /// it has a role.
    pub open spec fn current_role(self) -> Option<Role> {
        if self.role.entries.len() == 1 {
            self.role.entries[0].0
        } else {
            None
        }
    }

    /// Whether the parent column shows what the store has for its search
    /// text and the selected child.
    pub open spec fn parents_current(self, db: Option<Store>) -> bool {
        self.current_parents(db) matches Ok(parents) && self.parent.entries == shown_entries(
            self.parent.add_none_option,
            parents,
        )
    }

    /// Whether the child column shows what the store has for the selected
    /// parent and its own search text.
    pub open spec fn children_current(self, db: Option<Store>) -> bool {
        self.current_children(db) matches Ok(children) && self.child.entries == shown_entries(
            self.child.add_none_option,
            children,
        )
    }

    /// Whether the role is what the store has for the two selections.
    pub open spec fn role_current(self, db: Option<Store>) -> bool {
        self.current_roles(db) matches Ok(roles) && self.role.entries == shown_entries(
            self.role.add_none_option,
            roles,
        )
    }

    /// The state with the parents brought up to date.
    pub open spec fn refreshed_parents(self, db: Option<Store>) -> Result<
        RelationshipModel,
        Failure,
    > {
        match self.current_parents(db) {
            Ok(parents) => Ok(
                RelationshipModel {
                    parent: ColumnModel {
                        entries: shown_entries(self.parent.add_none_option, parents),
                        ..self.parent
                    },
                    ..self
                },
            ),
            Err(failure) => Err(failure),
        }
    }

    /// The state with the children brought up to date.
    pub open spec fn refreshed_children(self, db: Option<Store>) -> Result<
        RelationshipModel,
        Failure,
    > {
        match self.current_children(db) {
            Ok(children) => Ok(
                RelationshipModel {
                    child: ColumnModel {
                        entries: shown_entries(self.child.add_none_option, children),
                        ..self.child
                    },
                    ..self
                },
            ),
            Err(failure) => Err(failure),
        }
    }

    /// The state with the role brought up to date.
    pub open spec fn refreshed_role(self, db: Option<Store>) -> Result<RelationshipModel, Failure> {
        match self.current_roles(db) {
            Ok(roles) => Ok(
                RelationshipModel {
                    role: ColumnModel {
                        entries: shown_entries(self.role.add_none_option, roles),
                        ..self.role
                    },
                    ..self
                },
            ),
            Err(failure) => Err(failure),
        }
    }

    /// The state with nothing selected.
    pub open spec fn unselected(self) -> RelationshipModel {
        RelationshipModel {
            parent: ColumnModel { selected: DbColViewEntry(None), ..self.parent },
            child: ColumnModel { selected: DbColViewEntry(None), ..self.child },
            role: ColumnModel { selected: DbColViewEntry(None), ..self.role },
        }
    }

    /// The state with every column brought up to date: the parents, then
    /// the children, then the role.
    pub open spec fn refreshed(self, db: Option<Store>) -> Result<RelationshipModel, Failure> {
        match self.refreshed_parents(db) {
            Ok(first) => match first.refreshed_children(db) {
                Ok(second) => second.refreshed_role(db),
                Err(failure) => Err(failure),
            },
            Err(failure) => Err(failure),
        }
    }

    /// The state after an event of the parent column. A new search text
    /// brings the parents up to date and nothing else; a new selection
    /// clears the selection of the role and brings the children and the
    /// role up to date.
    pub open spec fn after_parent_event(self, event: ColViewMes<Label>, db: Option<Store>) -> Result<
        RelationshipModel,
        Failure,
    > {
        match event {
            ColViewMes::SearchFieldUpd(text) => (RelationshipModel {
                parent: ColumnModel { search_text: text@, ..self.parent },
                ..self
            }).refreshed_parents(db),
            ColViewMes::Selected(_, parent) => match (RelationshipModel {
                parent: ColumnModel { selected: parent, ..self.parent },
                role: ColumnModel { selected: DbColViewEntry(None), ..self.role },
                ..self
            }).refreshed_children(db) {
                Ok(next) => next.refreshed_role(db),
                Err(failure) => Err(failure),
            },
        }
    }

    /// The state after an event of the child column. A new search text
    /// brings the children up to date and nothing else; a new selection
    /// clears the selection of the role and brings the parents and the
    /// role up to date.
    pub open spec fn after_child_event(self, event: ColViewMes<Label>, db: Option<Store>) -> Result<
        RelationshipModel,
        Failure,
    > {
        match event {
            ColViewMes::SearchFieldUpd(text) => (RelationshipModel {
                child: ColumnModel { search_text: text@, ..self.child },
                ..self
            }).refreshed_children(db),
            ColViewMes::Selected(_, child) => match (RelationshipModel {
                child: ColumnModel { selected: child, ..self.child },
                role: ColumnModel { selected: DbColViewEntry(None), ..self.role },
                ..self
            }).refreshed_parents(db) {
                Ok(next) => next.refreshed_role(db),
                Err(failure) => Err(failure),
            },
        }
    }

    /// The state after an event of the role column. The role follows
    /// from the selected parent and child, so such an event changes what
    /// the role column itself keeps, and asks nothing of the store.
    pub open spec fn after_role_event(self, event: ColViewMes<Role>) -> RelationshipModel {
        match event {
            ColViewMes::SearchFieldUpd(text) => RelationshipModel {
                role: ColumnModel { search_text: text@, ..self.role },
                ..self
            },
            ColViewMes::Selected(_, role) => RelationshipModel {
                role: ColumnModel { selected: role, ..self.role },
                ..self
            },
        }
    }

    /// The relationship that the view has resolved: that between the
    /// selected parent and child, where the role column holds its role.
    pub open spec fn resolved(self) -> Option<EntityRelationship> {
        match (self.parent.selected.0, self.child.selected.0) {
            (Some(parent), Some(child)) => if self.role.entries.len() == 1 {
                Some(EntityRelationship { parent, child, role: self.role.entries[0].0 })
            } else {
                None
            },
            _ => None,
        }
    }
}

/// After a parent or a child was selected, nothing that follows from the
/// selection is stale: the other column and the role are what the store
/// has for the new state, and no role is selected. The role column holds
/// one entry at most.
pub proof fn selection_leaves_nothing_stale(
    state: RelationshipModel,
    index: usize,
    selected: DbColViewEntry<Label>,
    db: Option<Store>,
)
    requires
        state.well_formed(),
    ensures
        state.after_parent_event(ColViewMes::Selected(index, selected), db) matches Ok(next) ==> {
            &&& next.parent.selected == selected
            &&& next.child.selected == state.child.selected
            &&& next.role.selected.0 is None
            &&& next.children_current(db)
            &&& next.role_current(db)
            &&& next.role.entries.len() <= 1
        },
        state.after_child_event(ColViewMes::Selected(index, selected), db) matches Ok(next) ==> {
            &&& next.child.selected == selected
            &&& next.parent.selected == state.parent.selected
            &&& next.role.selected.0 is None
            &&& next.parents_current(db)
            &&& next.role_current(db)
            &&& next.role.entries.len() <= 1
        },
{
}

/// The view is well formed at its start, and whatever happens to it
/// leaves it well formed: the role never has more than one value.
pub proof fn role_stays_one_at_most(
    state: RelationshipModel,
    parent_event: ColViewMes<Label>,
    child_event: ColViewMes<Label>,
    role_event: ColViewMes<Role>,
    db: Option<Store>,
)
    requires
        state.well_formed(),
    ensures
        RelationshipModel::initial().well_formed(),
        state.after_parent_event(parent_event, db) matches Ok(next) ==> next.well_formed(),
        state.after_child_event(child_event, db) matches Ok(next) ==> next.well_formed(),
        state.after_role_event(role_event).well_formed(),
        state.unselected().refreshed(db) matches Ok(next) ==> next.well_formed(),
        state.refreshed_role(db) matches Ok(next) ==> next.well_formed(),
        state.refreshed_parents(db) matches Ok(next) ==> next.well_formed(),
        state.refreshed_children(db) matches Ok(next) ==> next.well_formed(),
{
}

/// A new search text brings its own column up to date and changes
/// nothing else: both selections, the other column and the role stay.
pub proof fn relationship_search_keeps_selection(
    state: RelationshipModel,
    text: String,
    db: Option<Store>,
)
    ensures
        state.after_parent_event(ColViewMes::SearchFieldUpd(text), db) matches Ok(next) ==> {
            &&& next.parent.selected == state.parent.selected
            &&& next.parent.search_text == text@
            &&& next.parents_current(db)
            &&& next.child == state.child
            &&& next.role == state.role
        },
        state.after_child_event(ColViewMes::SearchFieldUpd(text), db) matches Ok(next) ==> {
            &&& next.child.selected == state.child.selected
            &&& next.child.search_text == text@
            &&& next.children_current(db)
            &&& next.parent == state.parent
            &&& next.role == state.role
        },
{
}

/// The role follows from the two selections alone: without a selected
/// parent or child there is none, and the store is not asked. With both,
/// one relationship gives its role, none gives no role, and more than
/// one is an error.
pub proof fn role_follows_from_selections(state: RelationshipModel, db: Option<Store>)
    ensures
        state.parent.selected.0 is None || state.child.selected.0 is None
            ==> state.current_roles(db) == Ok::<Seq<DbColViewEntry<Role>>, Failure>(Seq::empty()),
        state.parent.selected.0 is Some && state.child.selected.0 is Some ==> match relationships_of(
            db,
            whole_match(state.parent.selected),
            whole_match(state.child.selected),
        ) {
            Ok(relationships) => if relationships.len() > 1 {
                state.current_roles(db) == Err::<Seq<DbColViewEntry<Role>>, Failure>(
                    Failure::MultipleResults,
                )
            } else if relationships.len() == 1 {
                state.current_roles(db) == Ok::<Seq<DbColViewEntry<Role>>, Failure>(
                    seq![DbColViewEntry(relationships[0].role)],
                )
            } else {
                state.current_roles(db) == Ok::<Seq<DbColViewEntry<Role>>, Failure>(Seq::empty())
            },
            Err(failure) => state.current_roles(db) == Err::<Seq<DbColViewEntry<Role>>, Failure>(
                failure,
            ),
        },
{
    if state.parent.selected.0 is Some && state.child.selected.0 is Some {
        match relationships_of(
            db,
            whole_match(state.parent.selected),
            whole_match(state.child.selected),
        ) {
            Ok(relationships) => {
                if relationships.len() == 1 {
                    assert(role_entries(relationships) =~= seq![
                        DbColViewEntry(relationships[0].role),
                    ]);
                } else if relationships.len() == 0 {
                    assert(role_entries(relationships) =~= Seq::empty());
                }
            },
            Err(_) => {},
        }
    }
}

/// The search text of a column as a match on a part of a label.
fn part_match_of(column: &DbColViewState<Label>) -> (scope: Option<LabelMatch>)
    ensures
        optional_match(scope) == part_match(column@.search_text),
{
    match column.search_filter() {
        Some(label) => Some(LabelMatch { label, exact: false }),
        None => None,
    }
}

/// The selection of a column as a match on the whole label.
fn whole_match_of(column: &DbColViewState<Label>) -> (scope: Option<LabelMatch>)
    ensures
        optional_match(scope) == whole_match(column@.selected),
{
    match &column.get_selected().0 {
        Some(label) => Some(LabelMatch { label: label.clone(), exact: true }),
        None => None,
    }
}

/// The parents of a list of relationships, each once, as entries.
fn parents_of(relationships: &Vec<EntityRelationship>) -> (entries: Vec<DbColViewEntry<Label>>)
    ensures
        entries@ == parent_entries(relationships@),
{
    let mut labels: Vec<Label> = Vec::new();
    let mut i: usize = 0;
    while i < relationships.len()
        invariant
            i <= relationships.len(),
            labels@.len() == i,
            forall|j: int| 0 <= j < i ==> labels@[j] == relationships@[j].parent,
        decreases relationships.len() - i,
    {
        labels.push(relationships[i].parent.clone());
        i += 1;
    }
    assert(labels@ =~= parents(relationships@));
    entries_from(each_once_of(labels))
}

/// The children of a list of relationships, each once, as entries.
fn children_of(relationships: &Vec<EntityRelationship>) -> (entries: Vec<DbColViewEntry<Label>>)
    ensures
        entries@ == child_entries(relationships@),
{
    let mut labels: Vec<Label> = Vec::new();
    let mut i: usize = 0;
    while i < relationships.len()
        invariant
            i <= relationships.len(),
            labels@.len() == i,
            forall|j: int| 0 <= j < i ==> labels@[j] == relationships@[j].child,
        decreases relationships.len() - i,
    {
        labels.push(relationships[i].child.clone());
        i += 1;
    }
    assert(labels@ =~= children(relationships@));
    entries_from(each_once_of(labels))
}

/// The roles of a list of relationships, as entries.
fn roles_of(relationships: &Vec<EntityRelationship>) -> (entries: Vec<DbColViewEntry<Role>>)
    ensures
        entries@ == role_entries(relationships@),
{
    let mut entries: Vec<DbColViewEntry<Role>> = Vec::new();
    let mut i: usize = 0;
    while i < relationships.len()
        invariant
            i <= relationships.len(),
            entries@.len() == i,
            forall|j: int| 0 <= j < i ==> entries@[j] == DbColViewEntry(relationships@[j].role),
        decreases relationships.len() - i,
    {
        entries.push(DbColViewEntry(clone_optional_text(&relationships[i].role)));
        i += 1;
    }
    assert(entries@ =~= role_entries(relationships@));
    entries
}

impl Clone for RelationshipViewMessage {
    fn clone(&self) -> (copy: Self)
        ensures
            copy == *self,
    {
        match self {
            RelationshipViewMessage::NewRelationship => RelationshipViewMessage::NewRelationship,
            RelationshipViewMessage::ChangeRole(
                relationship,
            ) => RelationshipViewMessage::ChangeRole(relationship.clone()),
            RelationshipViewMessage::ParentViewUpd(event) => RelationshipViewMessage::ParentViewUpd(
                event.clone(),
            ),
            RelationshipViewMessage::ChildViewUpd(event) => RelationshipViewMessage::ChildViewUpd(
                event.clone(),
            ),
            RelationshipViewMessage::RoleViewUpd(event) => RelationshipViewMessage::RoleViewUpd(
                event.clone(),
            ),
        }
    }
}

impl Clone for RelationshipViewState {
    fn clone(&self) -> (copy: Self)
        ensures
            copy@ == self@,
    {
        let copy = RelationshipViewState {
            parent_view_state: self.parent_view_state.clone(),
            child_view_state: self.child_view_state.clone(),
            role_view_state: self.role_view_state.clone(),
        };
        assert(copy.parent_view_state@.entries =~= self.parent_view_state@.entries);
        assert(copy.child_view_state@.entries =~= self.child_view_state@.entries);
        assert(copy.role_view_state@.entries =~= self.role_view_state@.entries);
        copy
    }
}

/// What the buttons of the relationship view send when they are
/// pressed. A button that has nothing to act on sends nothing.
#[derive(Debug, Clone, PartialEq, Eq)]
pub struct RelationshipButtons {
    pub new_relationship: RelationshipViewMessage,
    pub change_role: Option<RelationshipViewMessage>,
}

/// The buttons of the relationship view. A relationship can always be
/// created; the role can be changed of the relationship that the view
/// has resolved.
pub fn relationship_buttons(state: &RelationshipViewState) -> (buttons: RelationshipButtons)
    ensures
        buttons.new_relationship == RelationshipViewMessage::NewRelationship,
        buttons.change_role == (match state@.resolved() {
            Some(relationship) => Some(RelationshipViewMessage::ChangeRole(relationship)),
            None => None,
        }),
{
    let change_role = match state.resolved_relationship() {
        Some(relationship) => Some(RelationshipViewMessage::ChangeRole(relationship)),
        None => None,
    };
    RelationshipButtons { new_relationship: RelationshipViewMessage::NewRelationship, change_role }
}

impl RelationshipViewState {
    /// The view before anything was asked of the store. The parent and
    /// the child column offer the "none" marker, with which a selection
    /// is taken back.
    pub fn new() -> (state: Self)
        ensures
            state@ == RelationshipModel::initial(),
    {
        let state = RelationshipViewState {
            parent_view_state: DbColViewState::new(Vec::new(), true),
            child_view_state: DbColViewState::new(Vec::new(), true),
            role_view_state: DbColViewState::default(),
        };
        assert(state@.parent.search_text =~= Seq::empty());
        assert(state@.child.search_text =~= Seq::empty());
        state
    }

    /// Asks the store for the parents that the parent search text and
    /// the selected child admit.
    pub fn get_current_parents(&self, db: &Option<Store>) -> (result: Result<
        Vec<DbColViewEntry<Label>>,
        LoreGuiError,
    >)
        ensures
            rows(result) == self@.current_parents(*db),
    {
        let relationships = query_relationships(
            db,
            part_match_of(&self.parent_view_state),
            whole_match_of(&self.child_view_state),
        )?;
        Ok(parents_of(&relationships))
    }

    /// Asks the store for the children that the selected parent and the
    /// child search text admit.
    pub fn get_current_children(&self, db: &Option<Store>) -> (result: Result<
        Vec<DbColViewEntry<Label>>,
        LoreGuiError,
    >)
        ensures
            rows(result) == self@.current_children(*db),
    {
        let relationships = query_relationships(
            db,
            whole_match_of(&self.parent_view_state),
            part_match_of(&self.child_view_state),
        )?;
        Ok(children_of(&relationships))
    }

    /// Asks the store for the role of the relationship between the
    /// selected parent and child.
    pub fn get_current_roles(&self, db: &Option<Store>) -> (result: Result<
        Vec<DbColViewEntry<Role>>,
        LoreGuiError,
    >)
        ensures
            rows(result) == self@.current_roles(*db),
    {
        if self.parent_view_state.get_selected().is_none()
            || self.child_view_state.get_selected().is_none() {
            return Ok(Vec::new());
        }
        let relationships = query_relationships(
            db,
            whole_match_of(&self.parent_view_state),
            whole_match_of(&self.child_view_state),
        )?;
        if relationships.len() > 1 {
            return Err(LoreGuiError::MultipleResults);
        }
        Ok(roles_of(&relationships))
    }

    /// The role on display.
    pub fn current_role(&self) -> (role: Option<Role>)
        ensures
            role == self@.current_role(),
    {
        let entries = self.role_view_state.get_entries();
        if entries.len() == 1 {
            clone_optional_text(&entries[0].0)
        } else {
            None
        }
    }

    /// The relationship that the view has resolved, for a change of its role.
    pub fn resolved_relationship(&self) -> (relationship: Option<EntityRelationship>)
        ensures
            relationship == self@.resolved(),
    {
        match (&self.parent_view_state.get_selected().0, &self.child_view_state.get_selected().0) {
            (Some(parent), Some(child)) => {
                let entries = self.role_view_state.get_entries();
                if entries.len() == 1 {
                    Some(
                        EntityRelationship {
                            parent: parent.clone(),
                            child: child.clone(),
                            role: clone_optional_text(&entries[0].0),
                        },
                    )
                } else {
                    None
                }
            },
            _ => None,
        }
    }

    /// Clears every selection and brings every column up to date.
    pub fn reset_selections(&mut self, db: &Option<Store>) -> (result: Result<(), LoreGuiError>)
        ensures
            lands(result, old(self)@, final(self)@, old(self)@.unselected().refreshed(*db)),
    {
        let mut next = self.clone();
        next.parent_view_state.set_selected_none();
        next.child_view_state.set_selected_none();
        next.role_view_state.set_selected_none();
        next.update_parents(db)?;
        next.update_children(db)?;
        next.update_role(db)?;
        *self = next;
        Ok(())
    }

    /// Brings the parents up to date.
    pub fn update_parents(&mut self, db: &Option<Store>) -> (result: Result<(), LoreGuiError>)
        ensures
            lands(result, old(self)@, final(self)@, old(self)@.refreshed_parents(*db)),
    {
        let parents = self.get_current_parents(db)?;
        self.parent_view_state.set_entries(parents);
        Ok(())
    }

    /// Brings the children up to date.
    pub fn update_children(&mut self, db: &Option<Store>) -> (result: Result<(), LoreGuiError>)
        ensures
            lands(result, old(self)@, final(self)@, old(self)@.refreshed_children(*db)),
    {
        let children = self.get_current_children(db)?;
        self.child_view_state.set_entries(children);
        Ok(())
    }

    /// Brings the role up to date.
    pub fn update_role(&mut self, db: &Option<Store>) -> (result: Result<(), LoreGuiError>)
        ensures
            lands(result, old(self)@, final(self)@, old(self)@.refreshed_role(*db)),
    {
        let roles = self.get_current_roles(db)?;
        self.role_view_state.set_entries(roles);
        Ok(())
    }
}

} // verus!
