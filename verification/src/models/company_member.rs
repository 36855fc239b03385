//! A company member links a user to a company, with the occupation the user
//! holds there, the permissions they have, and how they are compensated.

use crate::error::Error;
use crate::models::company::Permission;
use crate::models::ids::{CompanyID, OccupationID, UserID};
pub use crate::models::ids::CompanyMemberID;
use crate::models::lib::agent::{AgentID, AgentIDView};
use crate::models::lib::basis_model::clone_vec_copy;
use crate::models::member::{holds_permission, permits, Compensation};
use crate::models::vf;
use crate::time::Timestamp;
use vstd::prelude::*;

verus! {
/// A member of a company. Links a user to a company, and has other attached
/// information like compensation, permissions, etc.
#[derive(Debug, PartialEq)]
pub struct CompanyMember {
    /// The member's ID
    pub id: CompanyMemberID,
    /// Our inner VF relationship: the user is the `subject`, the company the `object`
    pub inner: vf::AgentRelationship,
    /// The member's occupation at the company
    pub occupation: OccupationID,
    /// The permissions this member has at their company (additive)
    pub permissions: Vec<Permission>,
    /// How the member is compensated for their labor
    pub compensation: Option<Compensation>,
    /// Agreement under which this membership takes place
    pub agreement: Option<String>,
    /// Whether the model can be used or altered (see `is_active`).
    pub active: bool,
    /// When the model was created.
    pub created: Timestamp,
    /// When the model was last updated.
    pub updated: Timestamp,
    /// When the model was deleted (deletion is permanent).
    pub deleted: Option<Timestamp>,
}

/// What a member holds, with its costs and lists as values.
pub struct CompanyMemberView {
    pub id: CompanyMemberID,
    pub inner: vf::AgentRelationship,
    pub occupation: OccupationID,
    pub permissions: Seq<Permission>,
    pub compensation: Option<Compensation>,
    pub agreement: Option<String>,
    pub active: bool,
    pub created: Timestamp,
    pub updated: Timestamp,
    pub deleted: Option<Timestamp>,
}

impl View for CompanyMember {
    type V = CompanyMemberView;

    open spec fn view(&self) -> CompanyMemberView {
        CompanyMemberView {
            id: self.id,
            inner: self.inner,
            occupation: self.occupation,
            permissions: self.permissions@,
            compensation: self.compensation,
            agreement: self.agreement,
            active: self.active,
            created: self.created,
            updated: self.updated,
            deleted: self.deleted,
        }
    }
}

impl Clone for CompanyMember {
    fn clone(&self) -> (r: CompanyMember)
        ensures
            r@ == self@,
    {
        CompanyMember {
            id: self.id.clone(),
            inner: self.inner.clone(),
            occupation: self.occupation.clone(),
            permissions: clone_vec_copy(&self.permissions),
            compensation: match &self.compensation {
                Some(x) => Some(x.clone()),
                None => None,
            },
            agreement: match &self.agreement {
                Some(x) => Some(x.clone()),
                None => None,
            },
            active: self.active,
            created: self.created,
            updated: self.updated,
            deleted: self.deleted,
        }
    }
}

impl CompanyMember {
    /// Whether the member has been deleted.
    pub open spec fn spec_is_deleted(&self) -> bool {
        self.deleted is Some
    }

    /// Whether the member is active: marked active and not deleted.
    pub open spec fn spec_is_active(&self) -> bool {
        self.active && !self.spec_is_deleted()
    }

    /// Whether the member has been deleted.
    pub fn is_deleted(&self) -> (r: bool)
        ensures
            r == self.spec_is_deleted(),
    {
        self.deleted.is_some()
    }

    /// Whether the member is active: marked active and not deleted.
    pub fn is_active(&self) -> (r: bool)
        ensures
            r == self.spec_is_active(),
    {
        self.active && !self.is_deleted()
    }

    /// Set when the member was deleted.
    pub fn set_deleted(&mut self, deleted: Option<Timestamp>)
        ensures
            *final(self) == (CompanyMember { deleted, ..*old(self) }),
    {
        self.deleted = deleted;
    }

    /// Set whether the member is active.
    pub fn set_active(&mut self, active: bool)
        ensures
            *final(self) == (CompanyMember { active, ..*old(self) }),
    {
        self.active = active;
    }

    /// Set when the member was last updated.
    pub fn set_updated(&mut self, updated: Timestamp)
        ensures
            *final(self) == (CompanyMember { updated, ..*old(self) }),
    {
        self.updated = updated;
    }
}

impl CompanyMember {
    /// Determines if a member can perform an action (based on their
    /// permissions list): the member is active and holds the permission or
    /// `All`.
    pub fn can(&self, permission: &Permission) -> (r: bool)
        ensures
            r == (self.spec_is_active() && permits(self.permissions@, *permission)),
    {
        if !self.is_active() {
            return false;
        }
        holds_permission(&self.permissions, Permission::All) || holds_permission(
            &self.permissions,
            *permission,
        )
    }

    /// Check if this member can perform an action on a company: the member
    /// links the given user and company, and can do the action
    /// (`InsufficientPrivileges` if not).
    pub fn access_check(&self, user_id: &UserID, company_id: &CompanyID, permission: Permission) -> (r:
        Result<(), Error>)
        ensures
            r is Ok <==> (self.inner.subject@ == AgentIDView::User(user_id@)
                && self.inner.object@ == AgentIDView::Company(company_id@) && self.spec_is_active()
                && permits(self.permissions@, permission)),
            r is Err ==> r == Err::<(), Error>(Error::InsufficientPrivileges),
    {
        let uid = AgentID::UserID(user_id.clone());
        let cid = AgentID::CompanyID(company_id.clone());
        if self.inner.subject != uid || self.inner.object != cid || !self.can(&permission) {
            return Err(Error::InsufficientPrivileges);
        }
        Ok(())
    }
}

impl CompanyMember {
    /// This member's user id (`WrongAgentIDType` if the subject is not a
    /// user).
    pub fn user_id(&self) -> (r: Result<UserID, Error>)
        ensures
            match self.inner.subject {
                AgentID::UserID(id) => r == Ok::<UserID, Error>(id),
                _ => r == Err::<UserID, Error>(Error::WrongAgentIDType),
            },
    {
        self.inner.subject.clone().into_user_id()
    }

    /// This member's company id (`WrongAgentIDType` if the object is not a
    /// company).
    pub fn company_id(&self) -> (r: Result<CompanyID, Error>)
        ensures
            match self.inner.object {
                AgentID::CompanyID(id) => r == Ok::<CompanyID, Error>(id),
                _ => r == Err::<CompanyID, Error>(Error::WrongAgentIDType),
            },
    {
        self.inner.object.clone().into_company_id()
    }
}

} // verus!
