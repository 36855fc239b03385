//! An intent represents one economic entity's *desire* for some future event
//! to happen (an `Event`).

use crate::costs::{clone_opt_costs, opt_costs_view, Costs, CostsView};
pub use crate::models::ids::IntentID;
use crate::models::vf;
use crate::time::Timestamp;
use vstd::prelude::*;

verus! {
/// The intent model: what an event looks like *before it has been committed
/// to*.
#[derive(Debug, PartialEq)]
pub struct Intent {
    /// The intent's ID
    pub id: IntentID,
    /// Our inner VF intent type
    pub inner: vf::Intent,
    /// The costs to move, if the intent moves any
    pub move_costs: Option<Costs>,
    /// Whether the model can be used or altered (see `is_active`).
    pub active: bool,
    /// When the model was created.
    pub created: Timestamp,
    /// When the model was last updated.
    pub updated: Timestamp,
    /// When the model was deleted (deletion is permanent).
    pub deleted: Option<Timestamp>,
}

/// What a intent holds, with its costs and lists as values.
pub struct IntentView {
    pub id: IntentID,
    pub inner: vf::IntentView,
    pub move_costs: Option<CostsView>,
    pub active: bool,
    pub created: Timestamp,
    pub updated: Timestamp,
    pub deleted: Option<Timestamp>,
}

impl View for Intent {
    type V = IntentView;

    open spec fn view(&self) -> IntentView {
        IntentView {
            id: self.id,
            inner: self.inner@,
            move_costs: opt_costs_view(self.move_costs),
            active: self.active,
            created: self.created,
            updated: self.updated,
            deleted: self.deleted,
        }
    }
}

impl Clone for Intent {
    fn clone(&self) -> (r: Intent)
        ensures
            r@ == self@,
    {
        Intent {
            id: self.id.clone(),
            inner: self.inner.clone(),
            move_costs: clone_opt_costs(&self.move_costs),
            active: self.active,
            created: self.created,
            updated: self.updated,
            deleted: self.deleted,
        }
    }
}

impl Intent {
    /// Whether the intent has been deleted.
    pub open spec fn spec_is_deleted(&self) -> bool {
        self.deleted is Some
    }

    /// Whether the intent is active: marked active and not deleted.
    pub open spec fn spec_is_active(&self) -> bool {
        self.active && !self.spec_is_deleted()
    }

    /// Whether the intent has been deleted.
    pub fn is_deleted(&self) -> (r: bool)
        ensures
            r == self.spec_is_deleted(),
    {
        self.deleted.is_some()
    }

    /// Whether the intent is active: marked active and not deleted.
    pub fn is_active(&self) -> (r: bool)
        ensures
            r == self.spec_is_active(),
    {
        self.active && !self.is_deleted()
    }

    /// Set when the intent was deleted.
    pub fn set_deleted(&mut self, deleted: Option<Timestamp>)
        ensures
            *final(self) == (Intent { deleted, ..*old(self) }),
    {
        self.deleted = deleted;
    }

    /// Set whether the intent is active.
    pub fn set_active(&mut self, active: bool)
        ensures
            *final(self) == (Intent { active, ..*old(self) }),
    {
        self.active = active;
    }

    /// Set when the intent was last updated.
    pub fn set_updated(&mut self, updated: Timestamp)
        ensures
            *final(self) == (Intent { updated, ..*old(self) }),
    {
        self.updated = updated;
    }
}

} // verus!
