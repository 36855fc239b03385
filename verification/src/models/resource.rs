//! A resource is a tangible asset. This can be anything, like a chair, a car,
//! a coat, or a carrot. A resource is an instance of a *resource
//! specification*: the specification describes the chair, the resource is the
//! chair that shows up at your door.

use crate::costs::{Costs, CostsView};
use crate::measure::{set_zero, spec_zeroed, Measure, Unit};
pub use crate::models::ids::ResourceID;
use crate::models::lib::agent::AgentID;
use crate::models::lib::basis_model::clone_string_vec;
use crate::models::vf;
use crate::time::Timestamp;
use vstd::prelude::*;

verus! {
/// The resource model. Wraps the VF economic resource and also tracks custody
/// information as well as costs.
#[derive(Debug, PartialEq)]
pub struct Resource {
    /// The resource's ID
    pub id: ResourceID,
    /// The VF object for this product instance
    pub inner: vf::EconomicResource,
    /// The classifications of the resource (as URLs)
    pub classified_as: Vec<String>,
    /// The agent that has custody of the resource
    pub in_custody_of: AgentID,
    /// The costs imbued in this resource: the *total* costs for the total
    /// measured resource
    pub costs: Costs,
    /// Whether the model can be used or altered (see `is_active`).
    pub active: bool,
    /// When the model was created.
    pub created: Timestamp,
    /// When the model was last updated.
    pub updated: Timestamp,
    /// When the model was deleted (deletion is permanent).
    pub deleted: Option<Timestamp>,
}

/// What a resource holds, with its costs and lists as values.
pub struct ResourceView {
    pub id: ResourceID,
    pub inner: vf::EconomicResource,
    pub classified_as: Seq<String>,
    pub in_custody_of: AgentID,
    pub costs: CostsView,
    pub active: bool,
    pub created: Timestamp,
    pub updated: Timestamp,
    pub deleted: Option<Timestamp>,
}

impl View for Resource {
    type V = ResourceView;

    open spec fn view(&self) -> ResourceView {
        ResourceView {
            id: self.id,
            inner: self.inner,
            classified_as: self.classified_as@,
            in_custody_of: self.in_custody_of,
            costs: self.costs@,
            active: self.active,
            created: self.created,
            updated: self.updated,
            deleted: self.deleted,
        }
    }
}

impl Clone for Resource {
    fn clone(&self) -> (r: Resource)
        ensures
            r@ == self@,
    {
        Resource {
            id: self.id.clone(),
            inner: self.inner.clone(),
            classified_as: clone_string_vec(&self.classified_as),
            in_custody_of: self.in_custody_of.clone(),
            costs: self.costs.clone(),
            active: self.active,
            created: self.created,
            updated: self.updated,
            deleted: self.deleted,
        }
    }
}

impl Resource {
    /// Whether the resource has been deleted.
    pub open spec fn spec_is_deleted(&self) -> bool {
        self.deleted is Some
    }

    /// Whether the resource is active: marked active and not deleted.
    pub open spec fn spec_is_active(&self) -> bool {
        self.active && !self.spec_is_deleted()
    }

    /// Whether the resource has been deleted.
    pub fn is_deleted(&self) -> (r: bool)
        ensures
            r == self.spec_is_deleted(),
    {
        self.deleted.is_some()
    }

    /// Whether the resource is active: marked active and not deleted.
    pub fn is_active(&self) -> (r: bool)
        ensures
            r == self.spec_is_active(),
    {
        self.active && !self.is_deleted()
    }

    /// Set when the resource was deleted.
    pub fn set_deleted(&mut self, deleted: Option<Timestamp>)
        ensures
            *final(self) == (Resource { deleted, ..*old(self) }),
    {
        self.deleted = deleted;
    }

    /// Set whether the resource is active.
    pub fn set_active(&mut self, active: bool)
        ensures
            *final(self) == (Resource { active, ..*old(self) }),
    {
        self.active = active;
    }

    /// Set when the resource was last updated.
    pub fn set_updated(&mut self, updated: Timestamp)
        ensures
            *final(self) == (Resource { updated, ..*old(self) }),
    {
        self.updated = updated;
    }
}

/// The unit of a resource's quantities: that of its accounting quantity,
/// else that of its onhand quantity.
pub open spec fn resource_unit(inner: vf::EconomicResource) -> Option<Unit> {
    match inner.accounting_quantity {
        Some(m) => Some(m.has_unit),
        None => match inner.onhand_quantity {
            Some(m) => Some(m.has_unit),
            None => None,
        },
    }
}

/// An optional measure with its value set to zero.
pub open spec fn opt_zeroed(m: Option<Measure>) -> Option<Measure> {
    match m {
        Some(x) => Some(spec_zeroed(x)),
        None => None,
    }
}

/// The resource with its quantities zeroed (their units stay).
pub open spec fn spec_zero_measures(r: Resource) -> Resource {
    Resource {
        inner: vf::EconomicResource {
            accounting_quantity: opt_zeroed(r.inner.accounting_quantity),
            onhand_quantity: opt_zeroed(r.inner.onhand_quantity),
            ..r.inner
        },
        ..r
    }
}

impl Resource {
    /// Get this resource's unit (if it has one).
    pub fn get_unit(&self) -> (r: Option<Unit>)
        ensures
            r == resource_unit(self.inner),
    {
        match &self.inner.accounting_quantity {
            Some(m) => Some(m.has_unit.clone()),
            None => match &self.inner.onhand_quantity {
                Some(m) => Some(m.has_unit.clone()),
                None => None,
            },
        }
    }

    /// Zero out the accounting/onhand quantity measurements for this resource
    /// (those it has; their units stay).
    pub fn zero_measures(&mut self)
        ensures
            *final(self) == spec_zero_measures(*old(self)),
    {
        match &mut self.inner.accounting_quantity {
            Some(m) => set_zero(m),
            None => {},
        }
        match &mut self.inner.onhand_quantity {
            Some(m) => set_zero(m),
            None => {},
        }
    }
}

} // verus!
