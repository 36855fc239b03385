//! Processes are aggregators of costs via their inputs, labor and resources,
//! and dividers/subtractors of costs via their outputs, resources and services.

use crate::costs::{Costs, CostsView};
pub use crate::models::ids::ProcessID;
use crate::models::ids::CompanyID;
use crate::models::vf;
use crate::time::Timestamp;
use vstd::prelude::*;

verus! {
/// The `Process` model wraps the VF process object and adds cost tracking.
/// Processes are the places where inputs are transformed into outputs.
#[derive(Debug, PartialEq)]
pub struct Process {
    /// The process's ID
    pub id: ProcessID,
    /// The inner VF process
    pub inner: vf::Process,
    /// The company this process belongs to
    pub company_id: CompanyID,
    /// Our costs tally for this process
    pub costs: Costs,
    /// Whether the model can be used or altered (see `is_active`).
    pub active: bool,
    /// When the model was created.
    pub created: Timestamp,
    /// When the model was last updated.
    pub updated: Timestamp,
    /// When the model was deleted (deletion is permanent).
    pub deleted: Option<Timestamp>,
}

/// What a process holds, with its costs and lists as values.
pub struct ProcessView {
    pub id: ProcessID,
    pub inner: vf::Process,
    pub company_id: CompanyID,
    pub costs: CostsView,
    pub active: bool,
    pub created: Timestamp,
    pub updated: Timestamp,
    pub deleted: Option<Timestamp>,
}

impl View for Process {
    type V = ProcessView;

    open spec fn view(&self) -> ProcessView {
        ProcessView {
            id: self.id,
            inner: self.inner,
            company_id: self.company_id,
            costs: self.costs@,
            active: self.active,
            created: self.created,
            updated: self.updated,
            deleted: self.deleted,
        }
    }
}

impl Clone for Process {
    fn clone(&self) -> (r: Process)
        ensures
            r@ == self@,
    {
        Process {
            id: self.id.clone(),
            inner: self.inner.clone(),
            company_id: self.company_id.clone(),
            costs: self.costs.clone(),
            active: self.active,
            created: self.created,
            updated: self.updated,
            deleted: self.deleted,
        }
    }
}

impl Process {
    /// Whether the process has been deleted.
    pub open spec fn spec_is_deleted(&self) -> bool {
        self.deleted is Some
    }

    /// Whether the process is active: marked active and not deleted.
    pub open spec fn spec_is_active(&self) -> bool {
        self.active && !self.spec_is_deleted()
    }

    /// Whether the process has been deleted.
    pub fn is_deleted(&self) -> (r: bool)
        ensures
            r == self.spec_is_deleted(),
    {
        self.deleted.is_some()
    }

    /// Whether the process is active: marked active and not deleted.
    pub fn is_active(&self) -> (r: bool)
        ensures
            r == self.spec_is_active(),
    {
        self.active && !self.is_deleted()
    }

    /// Set when the process was deleted.
    pub fn set_deleted(&mut self, deleted: Option<Timestamp>)
        ensures
            *final(self) == (Process { deleted, ..*old(self) }),
    {
        self.deleted = deleted;
    }

    /// Set whether the process is active.
    pub fn set_active(&mut self, active: bool)
        ensures
            *final(self) == (Process { active, ..*old(self) }),
    {
        self.active = active;
    }

    /// Set when the process was last updated.
    pub fn set_updated(&mut self, updated: Timestamp)
        ensures
            *final(self) == (Process { updated, ..*old(self) }),
    {
        self.updated = updated;
    }
}

} // verus!
