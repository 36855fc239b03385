//! Users are the people in the system: they can be members of companies,
//! hold accounts, and act according to their roles.

use crate::access::{role_can, Permission, Role};
use crate::error::Error;
use crate::models::lib::basis_model::clone_vec_copy;
pub use crate::models::ids::UserID;
use crate::models::lib::agent::{Agent, AgentID, AgentIDView};
use crate::time::Timestamp;
use vstd::prelude::*;

verus! {

/// A user of the system.
#[derive(Debug, PartialEq)]
pub struct User {
    /// The user's ID
    pub id: UserID,
    /// The user's roles, which determine what the user may do
    pub roles: Vec<Role>,
    /// The user's email
    pub email: String,
    /// The user's full name
    pub name: String,
    /// Whether the model can be used or altered (see `is_active`).
    pub active: bool,
    /// When the model was created.
    pub created: Timestamp,
    /// When the model was last updated.
    pub updated: Timestamp,
    /// When the model was deleted (deletion is permanent).
    pub deleted: Option<Timestamp>,
}

/// What a user holds, with its costs and lists as values.
pub struct UserView {
    pub id: UserID,
    pub roles: Seq<Role>,
    pub email: String,
    pub name: String,
    pub active: bool,
    pub created: Timestamp,
    pub updated: Timestamp,
    pub deleted: Option<Timestamp>,
}

impl View for User {
    type V = UserView;

    open spec fn view(&self) -> UserView {
        UserView {
            id: self.id,
            roles: self.roles@,
            email: self.email,
            name: self.name,
            active: self.active,
            created: self.created,
            updated: self.updated,
            deleted: self.deleted,
        }
    }
}

impl Clone for User {
    fn clone(&self) -> (r: User)
        ensures
            r@ == self@,
    {
        User {
            id: self.id.clone(),
            roles: clone_vec_copy(&self.roles),
            email: self.email.clone(),
            name: self.name.clone(),
            active: self.active,
            created: self.created,
            updated: self.updated,
            deleted: self.deleted,
        }
    }
}

impl User {
    /// Whether the user has been deleted.
    pub open spec fn spec_is_deleted(&self) -> bool {
        self.deleted is Some
    }

    /// Whether the user is active: marked active and not deleted.
    pub open spec fn spec_is_active(&self) -> bool {
        self.active && !self.spec_is_deleted()
    }

    /// Whether the user has been deleted.
    pub fn is_deleted(&self) -> (r: bool)
        ensures
            r == self.spec_is_deleted(),
    {
        self.deleted.is_some()
    }

    /// Whether the user is active: marked active and not deleted.
    pub fn is_active(&self) -> (r: bool)
        ensures
            r == self.spec_is_active(),
    {
        self.active && !self.is_deleted()
    }

    /// Set when the user was deleted.
    pub fn set_deleted(&mut self, deleted: Option<Timestamp>)
        ensures
            *final(self) == (User { deleted, ..*old(self) }),
    {
        self.deleted = deleted;
    }

    /// Set whether the user is active.
    pub fn set_active(&mut self, active: bool)
        ensures
            *final(self) == (User { active, ..*old(self) }),
    {
        self.active = active;
    }

    /// Set when the user was last updated.
    pub fn set_updated(&mut self, updated: Timestamp)
        ensures
            *final(self) == (User { updated, ..*old(self) }),
    {
        self.updated = updated;
    }
}

/// Whether a user may do something: the user is active and one of its roles
/// has the permission.
pub open spec fn user_can(user: User, permission: Permission) -> bool {
    user.spec_is_active() && roles_can(user.roles@, permission)
}

/// Whether one of a list of roles has a permission.
pub open spec fn roles_can(roles: Seq<Role>, permission: Permission) -> bool {
    exists|i: int| 0 <= i < roles.len() && role_can(#[trigger] roles[i], permission)
}

impl User {
    /// Determines if a user can perform an action (based on its roles).
    pub fn can(&self, permission: &Permission) -> (r: bool)
        ensures
            r == user_can(*self, *permission),
    {
        if !self.is_active() {
            return false;
        }
        let mut i: usize = 0;
        while i < self.roles.len()
            invariant
                self.spec_is_active(),
                0 <= i <= self.roles@.len(),
                forall|j: int| 0 <= j < i ==> !role_can(#[trigger] self.roles@[j], *permission),
            decreases self.roles.len() - i,
        {
            if self.roles[i].can(permission) {
                assert(role_can(self.roles@[i as int], *permission));
                return true;
            }
            i = i + 1;
        }
        false
    }

    /// Check if this user can perform an action (`InsufficientPrivileges`
    /// if not).
    pub fn access_check(&self, permission: Permission) -> (r: Result<(), Error>)
        ensures
            r is Ok <==> user_can(*self, permission),
            r is Err ==> r == Err::<(), Error>(Error::InsufficientPrivileges),
    {
        if !self.can(&permission) {
            return Err(Error::InsufficientPrivileges);
        }
        Ok(())
    }
}

impl Agent for User {
    open spec fn agent_view(&self) -> AgentIDView {
        AgentIDView::User(self.id@)
    }

    open spec fn agent_active(&self) -> bool {
        self.spec_is_active()
    }

    fn agent_id(&self) -> (r: AgentID) {
        AgentID::UserID(self.id.clone())
    }

    fn agent_is_active(&self) -> (r: bool) {
        self.is_active()
    }
}

} // verus!
