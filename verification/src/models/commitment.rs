//! A commitment represents one economic entity's *commitment* to perform some
//! future action (an `Event`).
//!
//! - An `Intent` represents "we want something to happen"
//! - A `Commitment` represents "we agree that something will happen"
//! - An `Event` represents "something did happen"

use crate::costs::{Costs, CostsView};
pub use crate::models::ids::CommitmentID;
use crate::models::vf;
use crate::time::Timestamp;
use vstd::prelude::*;

verus! {
/// The commitment model: what an event looks like *before it happens*.
#[derive(Debug, PartialEq)]
pub struct Commitment {
    /// The commitment's ID
    pub id: CommitmentID,
    /// The commitment's core VF type
    pub inner: vf::Commitment,
    /// The costs committed to be moved (somewhat like a negotiated price)
    pub move_costs: Costs,
    /// Whether the model can be used or altered (see `is_active`).
    pub active: bool,
    /// When the model was created.
    pub created: Timestamp,
    /// When the model was last updated.
    pub updated: Timestamp,
    /// When the model was deleted (deletion is permanent).
    pub deleted: Option<Timestamp>,
}

/// What a commitment holds, with its costs and lists as values.
pub struct CommitmentView {
    pub id: CommitmentID,
    pub inner: vf::Commitment,
    pub move_costs: CostsView,
    pub active: bool,
    pub created: Timestamp,
    pub updated: Timestamp,
    pub deleted: Option<Timestamp>,
}

impl View for Commitment {
    type V = CommitmentView;

    open spec fn view(&self) -> CommitmentView {
        CommitmentView {
            id: self.id,
            inner: self.inner,
            move_costs: self.move_costs@,
            active: self.active,
            created: self.created,
            updated: self.updated,
            deleted: self.deleted,
        }
    }
}

impl Clone for Commitment {
    fn clone(&self) -> (r: Commitment)
        ensures
            r@ == self@,
    {
        Commitment {
            id: self.id.clone(),
            inner: self.inner.clone(),
            move_costs: self.move_costs.clone(),
            active: self.active,
            created: self.created,
            updated: self.updated,
            deleted: self.deleted,
        }
    }
}

impl Commitment {
    /// Whether the commitment has been deleted.
    pub open spec fn spec_is_deleted(&self) -> bool {
        self.deleted is Some
    }

    /// Whether the commitment is active: marked active and not deleted.
    pub open spec fn spec_is_active(&self) -> bool {
        self.active && !self.spec_is_deleted()
    }

    /// Whether the commitment has been deleted.
    pub fn is_deleted(&self) -> (r: bool)
        ensures
            r == self.spec_is_deleted(),
    {
        self.deleted.is_some()
    }

    /// Whether the commitment is active: marked active and not deleted.
    pub fn is_active(&self) -> (r: bool)
        ensures
            r == self.spec_is_active(),
    {
        self.active && !self.is_deleted()
    }

    /// Set when the commitment was deleted.
    pub fn set_deleted(&mut self, deleted: Option<Timestamp>)
        ensures
            *final(self) == (Commitment { deleted, ..*old(self) }),
    {
        self.deleted = deleted;
    }

    /// Set whether the commitment is active.
    pub fn set_active(&mut self, active: bool)
        ensures
            *final(self) == (Commitment { active, ..*old(self) }),
    {
        self.active = active;
    }

    /// Set when the commitment was last updated.
    pub fn set_updated(&mut self, updated: Timestamp)
        ensures
            *final(self) == (Commitment { updated, ..*old(self) }),
    {
        self.updated = updated;
    }
}

} // verus!
