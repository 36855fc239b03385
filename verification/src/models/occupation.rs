//! An occupation represents a type of job that we desire to track. Occupations
//! are tracked by id in the cost tracking system, allowing only a set amount of
//! job types to be accounted for (as opposed to using freeform entry).

pub use crate::models::ids::OccupationID;
use crate::models::vf;
use crate::time::Timestamp;
use vstd::prelude::*;

verus! {
/// The occupation model assigns an `OccupationID` to a job title.
#[derive(Debug, PartialEq)]
pub struct Occupation {
    /// The occupation's ID
    pub id: OccupationID,
    /// The inner VF type, whose `role_label` holds the occupation name
    pub inner: vf::AgentRelationshipRole,
    /// Whether the model can be used or altered (see `is_active`).
    pub active: bool,
    /// When the model was created.
    pub created: Timestamp,
    /// When the model was last updated.
    pub updated: Timestamp,
    /// When the model was deleted (deletion is permanent).
    pub deleted: Option<Timestamp>,
}

/// What a occupation holds, with its costs and lists as values.
pub struct OccupationView {
    pub id: OccupationID,
    pub inner: vf::AgentRelationshipRole,
    pub active: bool,
    pub created: Timestamp,
    pub updated: Timestamp,
    pub deleted: Option<Timestamp>,
}

impl View for Occupation {
    type V = OccupationView;

    open spec fn view(&self) -> OccupationView {
        OccupationView {
            id: self.id,
            inner: self.inner,
            active: self.active,
            created: self.created,
            updated: self.updated,
            deleted: self.deleted,
        }
    }
}

impl Clone for Occupation {
    fn clone(&self) -> (r: Occupation)
        ensures
            r@ == self@,
    {
        Occupation {
            id: self.id.clone(),
            inner: self.inner.clone(),
            active: self.active,
            created: self.created,
            updated: self.updated,
            deleted: self.deleted,
        }
    }
}

impl Occupation {
    /// Whether the occupation has been deleted.
    pub open spec fn spec_is_deleted(&self) -> bool {
        self.deleted is Some
    }

    /// Whether the occupation is active: marked active and not deleted.
    pub open spec fn spec_is_active(&self) -> bool {
        self.active && !self.spec_is_deleted()
    }

    /// Whether the occupation has been deleted.
    pub fn is_deleted(&self) -> (r: bool)
        ensures
            r == self.spec_is_deleted(),
    {
        self.deleted.is_some()
    }

    /// Whether the occupation is active: marked active and not deleted.
    pub fn is_active(&self) -> (r: bool)
        ensures
            r == self.spec_is_active(),
    {
        self.active && !self.is_deleted()
    }

    /// Set when the occupation was deleted.
    pub fn set_deleted(&mut self, deleted: Option<Timestamp>)
        ensures
            *final(self) == (Occupation { deleted, ..*old(self) }),
    {
        self.deleted = deleted;
    }

    /// Set whether the occupation is active.
    pub fn set_active(&mut self, active: bool)
        ensures
            *final(self) == (Occupation { active, ..*old(self) }),
    {
        self.active = active;
    }

    /// Set when the occupation was last updated.
    pub fn set_updated(&mut self, updated: Timestamp)
        ensures
            *final(self) == (Occupation { updated, ..*old(self) }),
    {
        self.updated = updated;
    }
}

} // verus!
