//! Agreements respresent a larger transaction between two agents. Think of an
//! agreement like an order, and that order can be made up of multiple
//! deliverables, modeled as `Commitment`s and `Event`s.

pub use crate::models::ids::AgreementID;
use crate::models::lib::agent::AgentID;
use crate::models::lib::basis_model::clone_agent_vec;
use crate::models::vf;
use crate::time::Timestamp;
use vstd::prelude::*;

verus! {
/// An agreement between two or more parties: a simple pointer to *some
/// agreement somewhere* that the affected parties have shared access to.
#[derive(Debug, PartialEq)]
pub struct Agreement {
    /// The agreement's ID
    pub id: AgreementID,
    /// The inner VF agreement
    pub inner: vf::Agreement,
    /// The participants in the agreement (allows quickly checking whether an
    /// event or commitment is part of the agreement)
    pub participants: Vec<AgentID>,
    /// Whether the model can be used or altered (see `is_active`).
    pub active: bool,
    /// When the model was created.
    pub created: Timestamp,
    /// When the model was last updated.
    pub updated: Timestamp,
    /// When the model was deleted (deletion is permanent).
    pub deleted: Option<Timestamp>,
}

/// What a agreement holds, with its costs and lists as values.
pub struct AgreementView {
    pub id: AgreementID,
    pub inner: vf::Agreement,
    pub participants: Seq<AgentID>,
    pub active: bool,
    pub created: Timestamp,
    pub updated: Timestamp,
    pub deleted: Option<Timestamp>,
}

impl View for Agreement {
    type V = AgreementView;

    open spec fn view(&self) -> AgreementView {
        AgreementView {
            id: self.id,
            inner: self.inner,
            participants: self.participants@,
            active: self.active,
            created: self.created,
            updated: self.updated,
            deleted: self.deleted,
        }
    }
}

impl Clone for Agreement {
    fn clone(&self) -> (r: Agreement)
        ensures
            r@ == self@,
    {
        Agreement {
            id: self.id.clone(),
            inner: self.inner.clone(),
            participants: clone_agent_vec(&self.participants),
            active: self.active,
            created: self.created,
            updated: self.updated,
            deleted: self.deleted,
        }
    }
}

impl Agreement {
    /// Whether the agreement has been deleted.
    pub open spec fn spec_is_deleted(&self) -> bool {
        self.deleted is Some
    }

    /// Whether the agreement is active: marked active and not deleted.
    pub open spec fn spec_is_active(&self) -> bool {
        self.active && !self.spec_is_deleted()
    }

    /// Whether the agreement has been deleted.
    pub fn is_deleted(&self) -> (r: bool)
        ensures
            r == self.spec_is_deleted(),
    {
        self.deleted.is_some()
    }

    /// Whether the agreement is active: marked active and not deleted.
    pub fn is_active(&self) -> (r: bool)
        ensures
            r == self.spec_is_active(),
    {
        self.active && !self.is_deleted()
    }

    /// Set when the agreement was deleted.
    pub fn set_deleted(&mut self, deleted: Option<Timestamp>)
        ensures
            *final(self) == (Agreement { deleted, ..*old(self) }),
    {
        self.deleted = deleted;
    }

    /// Set whether the agreement is active.
    pub fn set_active(&mut self, active: bool)
        ensures
            *final(self) == (Agreement { active, ..*old(self) }),
    {
        self.active = active;
    }

    /// Set when the agreement was last updated.
    pub fn set_updated(&mut self, updated: Timestamp)
        ensures
            *final(self) == (Agreement { updated, ..*old(self) }),
    {
        self.updated = updated;
    }
}

/// Whether `agent_id` is among `participants`.
pub open spec fn is_participant(participants: Seq<AgentID>, agent_id: AgentID) -> bool {
    exists|i: int| 0 <= i < participants.len() && #[trigger] participants[i]@ == agent_id@
}

impl Agreement {
    /// Determines if the given agent is a participant in this agreement.
    pub fn has_participant(&self, agent_id: &AgentID) -> (r: bool)
        ensures
            r == is_participant(self.participants@, *agent_id),
    {
        let mut i: usize = 0;
        while i < self.participants.len()
            invariant
                i <= self.participants@.len(),
                forall|j: int| 0 <= j < i ==> #[trigger] self.participants@[j]@ != agent_id@,
            decreases self.participants.len() - i,
        {
            if self.participants[i] == *agent_id {
                return true;
            }
            i = i + 1;
        }
        false
    }
}

} // verus!
