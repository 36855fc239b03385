//! Resource specifications are meta descriptions of `Resource` objects: the
//! product description page, where the resource is the product that arrives.

pub use crate::models::ids::ResourceSpecID;
use crate::models::ids::CompanyID;
use crate::models::lib::basis_model::clone_string_vec;
use crate::models::vf;
use crate::time::Timestamp;
use vstd::prelude::*;

verus! {
/// The resource specification model, namespaced per company.
#[derive(Debug, PartialEq)]
pub struct ResourceSpec {
    /// The resource specification's ID
    pub id: ResourceSpecID,
    /// Our VF resource specification object
    pub inner: vf::ResourceSpecification,
    /// The company the specification belongs to
    /// The classifications of resources of this kind (as URLs)
    pub resource_classified_as: Vec<String>,
    pub company_id: CompanyID,
    /// Whether the model can be used or altered (see `is_active`).
    pub active: bool,
    /// When the model was created.
    pub created: Timestamp,
    /// When the model was last updated.
    pub updated: Timestamp,
    /// When the model was deleted (deletion is permanent).
    pub deleted: Option<Timestamp>,
}

/// What a resource specification holds, with its costs and lists as values.
pub struct ResourceSpecView {
    pub id: ResourceSpecID,
    pub inner: vf::ResourceSpecification,
    pub resource_classified_as: Seq<String>,
    pub company_id: CompanyID,
    pub active: bool,
    pub created: Timestamp,
    pub updated: Timestamp,
    pub deleted: Option<Timestamp>,
}

impl View for ResourceSpec {
    type V = ResourceSpecView;

    open spec fn view(&self) -> ResourceSpecView {
        ResourceSpecView {
            id: self.id,
            inner: self.inner,
            resource_classified_as: self.resource_classified_as@,
            company_id: self.company_id,
            active: self.active,
            created: self.created,
            updated: self.updated,
            deleted: self.deleted,
        }
    }
}

impl Clone for ResourceSpec {
    fn clone(&self) -> (r: ResourceSpec)
        ensures
            r@ == self@,
    {
        ResourceSpec {
            id: self.id.clone(),
            inner: self.inner.clone(),
            resource_classified_as: clone_string_vec(&self.resource_classified_as),
            company_id: self.company_id.clone(),
            active: self.active,
            created: self.created,
            updated: self.updated,
            deleted: self.deleted,
        }
    }
}

impl ResourceSpec {
    /// Whether the resource specification has been deleted.
    pub open spec fn spec_is_deleted(&self) -> bool {
        self.deleted is Some
    }

    /// Whether the resource specification is active: marked active and not deleted.
    pub open spec fn spec_is_active(&self) -> bool {
        self.active && !self.spec_is_deleted()
    }

    /// Whether the resource specification has been deleted.
    pub fn is_deleted(&self) -> (r: bool)
        ensures
            r == self.spec_is_deleted(),
    {
        self.deleted.is_some()
    }

    /// Whether the resource specification is active: marked active and not deleted.
    pub fn is_active(&self) -> (r: bool)
        ensures
            r == self.spec_is_active(),
    {
        self.active && !self.is_deleted()
    }

    /// Set when the resource specification was deleted.
    pub fn set_deleted(&mut self, deleted: Option<Timestamp>)
        ensures
            *final(self) == (ResourceSpec { deleted, ..*old(self) }),
    {
        self.deleted = deleted;
    }

    /// Set whether the resource specification is active.
    pub fn set_active(&mut self, active: bool)
        ensures
            *final(self) == (ResourceSpec { active, ..*old(self) }),
    {
        self.active = active;
    }

    /// Set when the resource specification was last updated.
    pub fn set_updated(&mut self, updated: Timestamp)
        ensures
            *final(self) == (ResourceSpec { updated, ..*old(self) }),
    {
        self.updated = updated;
    }
}

} // verus!
