//! A region is a geographical container of shared assets.

pub use crate::models::ids::RegionID;
use crate::time::Timestamp;
use vstd::prelude::*;

verus! {
/// The region model.
#[derive(Debug, PartialEq)]
pub struct Region {
    /// The region's ID
    pub id: RegionID,
    /// This region's name
    pub name: String,
    /// Whether the model can be used or altered (see `is_active`).
    pub active: bool,
    /// When the model was created.
    pub created: Timestamp,
    /// When the model was last updated.
    pub updated: Timestamp,
    /// When the model was deleted (deletion is permanent).
    pub deleted: Option<Timestamp>,
}

/// What a region holds, with its costs and lists as values.
pub struct RegionView {
    pub id: RegionID,
    pub name: String,
    pub active: bool,
    pub created: Timestamp,
    pub updated: Timestamp,
    pub deleted: Option<Timestamp>,
}

impl View for Region {
    type V = RegionView;

    open spec fn view(&self) -> RegionView {
        RegionView {
            id: self.id,
            name: self.name,
            active: self.active,
            created: self.created,
            updated: self.updated,
            deleted: self.deleted,
        }
    }
}

impl Clone for Region {
    fn clone(&self) -> (r: Region)
        ensures
            r@ == self@,
    {
        Region {
            id: self.id.clone(),
            name: self.name.clone(),
            active: self.active,
            created: self.created,
            updated: self.updated,
            deleted: self.deleted,
        }
    }
}

impl Region {
    /// Whether the region has been deleted.
    pub open spec fn spec_is_deleted(&self) -> bool {
        self.deleted is Some
    }

    /// Whether the region is active: marked active and not deleted.
    pub open spec fn spec_is_active(&self) -> bool {
        self.active && !self.spec_is_deleted()
    }

    /// Whether the region has been deleted.
    pub fn is_deleted(&self) -> (r: bool)
        ensures
            r == self.spec_is_deleted(),
    {
        self.deleted.is_some()
    }

    /// Whether the region is active: marked active and not deleted.
    pub fn is_active(&self) -> (r: bool)
        ensures
            r == self.spec_is_active(),
    {
        self.active && !self.is_deleted()
    }

    /// Set when the region was deleted.
    pub fn set_deleted(&mut self, deleted: Option<Timestamp>)
        ensures
            *final(self) == (Region { deleted, ..*old(self) }),
    {
        self.deleted = deleted;
    }

    /// Set whether the region is active.
    pub fn set_active(&mut self, active: bool)
        ensures
            *final(self) == (Region { active, ..*old(self) }),
    {
        self.active = active;
    }

    /// Set when the region was last updated.
    pub fn set_updated(&mut self, updated: Timestamp)
        ensures
            *final(self) == (Region { updated, ..*old(self) }),
    {
        self.updated = updated;
    }
}

} // verus!
