//! Process specifications group `Process` models: the process spec might be
//! "Make coat" and the process an *instance* of making a coat.

pub use crate::models::ids::ProcessSpecID;
use crate::models::ids::CompanyID;
use crate::models::vf;
use crate::time::Timestamp;
use vstd::prelude::*;

verus! {
/// The process specification model.
#[derive(Debug, PartialEq)]
pub struct ProcessSpec {
    /// The process specification's ID
    pub id: ProcessSpecID,
    /// Our VF process specification object
    pub inner: vf::ProcessSpecification,
    /// The company the specification belongs to
    pub company_id: CompanyID,
    /// Whether the model can be used or altered (see `is_active`).
    pub active: bool,
    /// When the model was created.
    pub created: Timestamp,
    /// When the model was last updated.
    pub updated: Timestamp,
    /// When the model was deleted (deletion is permanent).
    pub deleted: Option<Timestamp>,
}

/// What a process specification holds, with its costs and lists as values.
pub struct ProcessSpecView {
    pub id: ProcessSpecID,
    pub inner: vf::ProcessSpecification,
    pub company_id: CompanyID,
    pub active: bool,
    pub created: Timestamp,
    pub updated: Timestamp,
    pub deleted: Option<Timestamp>,
}

impl View for ProcessSpec {
    type V = ProcessSpecView;

    open spec fn view(&self) -> ProcessSpecView {
        ProcessSpecView {
            id: self.id,
            inner: self.inner,
            company_id: self.company_id,
            active: self.active,
            created: self.created,
            updated: self.updated,
            deleted: self.deleted,
        }
    }
}

impl Clone for ProcessSpec {
    fn clone(&self) -> (r: ProcessSpec)
        ensures
            r@ == self@,
    {
        ProcessSpec {
            id: self.id.clone(),
            inner: self.inner.clone(),
            company_id: self.company_id.clone(),
            active: self.active,
            created: self.created,
            updated: self.updated,
            deleted: self.deleted,
        }
    }
}

impl ProcessSpec {
    /// Whether the process specification has been deleted.
    pub open spec fn spec_is_deleted(&self) -> bool {
        self.deleted is Some
    }

    /// Whether the process specification is active: marked active and not deleted.
    pub open spec fn spec_is_active(&self) -> bool {
        self.active && !self.spec_is_deleted()
    }

    /// Whether the process specification has been deleted.
    pub fn is_deleted(&self) -> (r: bool)
        ensures
            r == self.spec_is_deleted(),
    {
        self.deleted.is_some()
    }

    /// Whether the process specification is active: marked active and not deleted.
    pub fn is_active(&self) -> (r: bool)
        ensures
            r == self.spec_is_active(),
    {
        self.active && !self.is_deleted()
    }

    /// Set when the process specification was deleted.
    pub fn set_deleted(&mut self, deleted: Option<Timestamp>)
        ensures
            *final(self) == (ProcessSpec { deleted, ..*old(self) }),
    {
        self.deleted = deleted;
    }

    /// Set whether the process specification is active.
    pub fn set_active(&mut self, active: bool)
        ensures
            *final(self) == (ProcessSpec { active, ..*old(self) }),
    {
        self.active = active;
    }

    /// Set when the process specification was last updated.
    pub fn set_updated(&mut self, updated: Timestamp)
        ensures
            *final(self) == (ProcessSpec { updated, ..*old(self) }),
    {
        self.updated = updated;
    }
}

} // verus!
