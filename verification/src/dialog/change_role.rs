//! Changing the role of a relationship.

use vstd::prelude::*;
use vstd::string::StringExecFns;
use crate::errors::{outcome, Failure, LoreGuiError};
use crate::store::{mutate, written, MutationView, Store, StoreMutation};
use crate::types::{clone_optional_text, optional_text, EntityRelationship, Label, Role};

verus! {

/// What the dialog collects: the relationship as the store has it, and
/// the role that it is to get.
#[derive(Debug, PartialEq, Eq)]
pub struct ChangeRoleData {
    pub old_relationship: EntityRelationship,
    pub new_role: Option<Role>,
}

impl Clone for ChangeRoleData {
    fn clone(&self) -> (copy: Self)
        ensures
            copy == *self,
    {
        ChangeRoleData {
            old_relationship: self.old_relationship.clone(),
            new_role: clone_optional_text(&self.new_role),
        }
    }
}

impl ChangeRoleData {
    /// The data for a relationship, before the user has typed anything:
    /// the new role is the one that the relationship has.
    pub fn new(old_relationship: EntityRelationship) -> (data: Self)
        ensures
            data.old_relationship == old_relationship,
            data.new_role == old_relationship.role,
    {
        ChangeRoleData { new_role: clone_optional_text(&old_relationship.role), old_relationship }
    }

    /// The change that the data asks for.
    pub open spec fn mutation(self) -> MutationView {
        MutationView::ChangeRole {
            parent: self.old_relationship.parent@,
            child: self.old_relationship.child@,
            role: optional_text(self.new_role),
        }
    }

    /// How writing the data ends: without a store in `NoDatabase`, and
    /// else as the store says.
    pub open spec fn saved(self, db: Option<Store>) -> Result<(), Failure> {
        written(db, self.mutation())
    }

    /// Asks the store to give the relationship its new role.
    pub fn write_to_database(self, db: &Option<Store>) -> (result: Result<(), LoreGuiError>)
        ensures
            outcome(result) == self.saved(*db),
    {
        mutate(
            db,
            StoreMutation::ChangeRole {
                parent: self.old_relationship.parent,
                child: self.old_relationship.child,
                role: self.new_role,
            },
        )
    }

    /// The parent of the relationship.
    pub fn parent(&self) -> (parent: &Label)
        ensures
            *parent == self.old_relationship.parent,
    {
        &self.old_relationship.parent
    }

    /// The child of the relationship.
    pub fn child(&self) -> (child: &Label)
        ensures
            *child == self.old_relationship.child,
    {
        &self.old_relationship.child
    }

    /// The role that the relationship is to get.
    pub fn new_role(&self) -> (role: &Option<Role>)
        ensures
            *role == self.new_role,
    {
        &self.new_role
    }

    /// Takes the role that the user typed.
    pub fn set_new_role(&mut self, role: Option<Role>)
        ensures
            *final(self) == (ChangeRoleData { new_role: role, ..*old(self) }),
    {
        self.new_role = role;
    }
}

/// The characters of a role, and none for the absent role.
pub open spec fn role_text(role: Option<Role>) -> Seq<char> {
    match role {
        Some(text) => text@,
        None => Seq::empty(),
    }
}

/// The dialog that asks for the new role of a relationship.
#[derive(Debug, Clone, PartialEq, Eq)]
pub struct ChangeRoleDialog {
    pub data: ChangeRoleData,
}

impl ChangeRoleDialog {
    /// The dialog for a relationship.
    pub fn new(data: ChangeRoleData) -> (dialog: Self)
        ensures
            dialog.data == data,
    {
        ChangeRoleDialog { data }
    }

    /// The title of the dialog: it names the role that the relationship
    /// has, and its two ends.
    pub open spec fn header_text(self) -> Seq<char> {
        "Change role "@ + role_text(self.data.old_relationship.role)
            + " for relationship between "@ + self.data.old_relationship.parent@ + " and "@
            + self.data.old_relationship.child@
    }

    /// The title of the dialog.
    pub fn header(&self) -> (header: String)
        ensures
            header@ == self.header_text(),
    {
        let mut header = "Change role ".to_owned();
        match &self.data.old_relationship.role {
            Some(role) => header.append(role.as_str()),
            None => {
                assert(header@ + Seq::<char>::empty() =~= header@);
            },
        }
        header.append(" for relationship between ");
        header.append(self.data.old_relationship.parent.as_str());
        header.append(" and ");
        header.append(self.data.old_relationship.child.as_str());
        header
    }
}

} // verus!
