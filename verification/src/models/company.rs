//! A company is a generic container that groups people, other companies, and
//! resources together. Companies are often places where economic activity
//! (such as production) takes place.

use crate::costs::{spec_is_sub_lt_0, Costs, CostsView};
use crate::error::Error;
pub use crate::models::ids::CompanyID;
use crate::models::lib::agent::{Agent, AgentID, AgentIDView};
use crate::models::vf;
use crate::num::Num;
use crate::time::Timestamp;
use vstd::prelude::*;

verus! {

/// The permissions a member can hold within a company.
#[derive(Clone, Copy, Debug, PartialEq, Eq, Structural)]
pub enum Permission {
    All,
    Accept,
    AgreementCreate,
    AgreementFinalize,
    AgreementUpdate,
    Cite,
    CommitmentCreate,
    CommitmentDelete,
    CommitmentUpdate,
    CompanyDelete,
    CompanyUpdate,
    Consume,
    DeliverService,
    Dropoff,
    IntentCreate,
    IntentDelete,
    IntentUpdate,
    Lower,
    MemberCreate,
    MemberDelete,
    MemberSetPermissions,
    MemberSetCompensation,
    MemberUpdate,
    Modify,
    MoveCosts,
    MoveResource,
    Payroll,
    Pickup,
    ProcessCreate,
    ProcessDelete,
    ProcessUpdate,
    ProcessSpecCreate,
    ProcessSpecDelete,
    ProcessSpecUpdate,
    Produce,
    Raise,
    ResourceCreate,
    ResourceDelete,
    ResourceUpdate,
    ResourceSpecCreate,
    ResourceSpecDelete,
    ResourceSpecUpdate,
    Transfer,
    TransferAllRights,
    TransferCustody,
    Use,
    Work,
    WorkAdmin,
}

/// A company: a group of one or more people working towards a common economic
/// goal. Companies are where costs are accumulated and dispersed into outgoing
/// products and services.
#[derive(Debug, PartialEq)]
pub struct Company {
    /// The company's ID
    pub id: CompanyID,
    /// The company's core VF record
    pub inner: vf::Agent,
    /// The company's email
    pub email: String,
    /// The maximum credit value the company's costs can hold
    pub max_costs: Num,
    /// The costs the company has accumulated
    pub total_costs: Costs,
    /// Whether the model can be used or altered (see `is_active`).
    pub active: bool,
    /// When the model was created.
    pub created: Timestamp,
    /// When the model was last updated.
    pub updated: Timestamp,
    /// When the model was deleted (deletion is permanent).
    pub deleted: Option<Timestamp>,
}

/// What a company holds, with its costs and lists as values.
pub struct CompanyView {
    pub id: CompanyID,
    pub inner: vf::Agent,
    pub email: String,
    pub max_costs: Num,
    pub total_costs: CostsView,
    pub active: bool,
    pub created: Timestamp,
    pub updated: Timestamp,
    pub deleted: Option<Timestamp>,
}

impl View for Company {
    type V = CompanyView;

    open spec fn view(&self) -> CompanyView {
        CompanyView {
            id: self.id,
            inner: self.inner,
            email: self.email,
            max_costs: self.max_costs,
            total_costs: self.total_costs@,
            active: self.active,
            created: self.created,
            updated: self.updated,
            deleted: self.deleted,
        }
    }
}

impl Clone for Company {
    fn clone(&self) -> (r: Company)
        ensures
            r@ == self@,
    {
        Company {
            id: self.id.clone(),
            inner: self.inner.clone(),
            email: self.email.clone(),
            max_costs: self.max_costs,
            total_costs: self.total_costs.clone(),
            active: self.active,
            created: self.created,
            updated: self.updated,
            deleted: self.deleted,
        }
    }
}

impl Company {
    /// Whether the company has been deleted.
    pub open spec fn spec_is_deleted(&self) -> bool {
        self.deleted is Some
    }

    /// Whether the company is active: marked active and not deleted.
    pub open spec fn spec_is_active(&self) -> bool {
        self.active && !self.spec_is_deleted()
    }

    /// Whether the company has been deleted.
    pub fn is_deleted(&self) -> (r: bool)
        ensures
            r == self.spec_is_deleted(),
    {
        self.deleted.is_some()
    }

    /// Whether the company is active: marked active and not deleted.
    pub fn is_active(&self) -> (r: bool)
        ensures
            r == self.spec_is_active(),
    {
        self.active && !self.is_deleted()
    }

    /// Set when the company was deleted.
    pub fn set_deleted(&mut self, deleted: Option<Timestamp>)
        ensures
            *final(self) == (Company { deleted, ..*old(self) }),
    {
        self.deleted = deleted;
    }

    /// Set whether the company is active.
    pub fn set_active(&mut self, active: bool)
        ensures
            *final(self) == (Company { active, ..*old(self) }),
    {
        self.active = active;
    }

    /// Set when the company was last updated.
    pub fn set_updated(&mut self, updated: Timestamp)
        ensures
            *final(self) == (Company { updated, ..*old(self) }),
    {
        self.updated = updated;
    }
}

/// What adding `costs` to a company's total gives: the new total, or the
/// error.
pub open spec fn spec_increase_costs(total: CostsView, max_costs: Num, costs: CostsView) -> Result<
    CostsView,
    Error,
> {
    if costs.is_lt_0() {
        Err(Error::NegativeCosts)
    } else {
        match total.plus(costs) {
            None => Err(Error::NumericOverflow),
            Some(t) => if t.credits.value() > max_costs.value() {
                Err(Error::MaxCostsReached)
            } else {
                Ok(t)
            },
        }
    }
}

/// What taking `costs` from a company's total gives: the new total, or the
/// error.
pub open spec fn spec_decrease_costs(total: CostsView, costs: CostsView) -> Result<
    CostsView,
    Error,
> {
    if costs.is_lt_0() {
        Err(Error::NegativeCosts)
    } else {
        match spec_is_sub_lt_0(total, costs) {
            None => Err(Error::NumericOverflow),
            Some(true) => Err(Error::NegativeCosts),
            Some(false) => Ok(total.minus(costs).unwrap()),
        }
    }
}

impl Company {
    /// Add costs to the company's total: they cannot be negative, and the
    /// total's credit value cannot go over `max_costs`. Returns the new total.
    pub fn increase_costs(&mut self, costs: Costs) -> (r: Result<Costs, Error>)
        ensures
            r is Ok <==> spec_increase_costs(
                old(self).total_costs@,
                old(self).max_costs,
                costs@,
            ) is Ok,
            r matches Ok(t) ==> t@ == spec_increase_costs(
                old(self).total_costs@,
                old(self).max_costs,
                costs@,
            )->Ok_0 && final(self).total_costs@ == t@,
            r is Ok ==> final(self).total_costs@.credits.value() <= final(self).max_costs.value(),
            r matches Err(e) ==> e == spec_increase_costs(
                old(self).total_costs@,
                old(self).max_costs,
                costs@,
            )->Err_0 && final(self).total_costs@ == old(self).total_costs@,
            final(self).id == old(self).id,
            final(self).inner == old(self).inner,
            final(self).email == old(self).email,
            final(self).max_costs == old(self).max_costs,
            final(self).active == old(self).active,
            final(self).created == old(self).created,
            final(self).deleted == old(self).deleted,
            final(self).updated == old(self).updated,
    {
        if costs.is_lt_0() {
            return Err(Error::NegativeCosts);
        }
        let new_costs = match self.total_costs.clone().add(costs) {
            Some(c) => c,
            None => {
                return Err(Error::NumericOverflow);
            },
        };
        if new_costs.credits().gt(&self.max_costs) {
            return Err(Error::MaxCostsReached);
        }
        self.total_costs = new_costs;
        Ok(self.total_costs.clone())
    }

    /// Take costs from the company's total: they cannot be negative nor more
    /// than the total holds. Returns the new total.
    pub fn decrease_costs(&mut self, costs: Costs) -> (r: Result<Costs, Error>)
        ensures
            r is Ok <==> spec_decrease_costs(old(self).total_costs@, costs@) is Ok,
            r matches Ok(t) ==> t@ == spec_decrease_costs(old(self).total_costs@, costs@)->Ok_0
                && final(self).total_costs@ == t@,
            r matches Err(e) ==> e == spec_decrease_costs(old(self).total_costs@, costs@)->Err_0
                && final(self).total_costs@ == old(self).total_costs@,
            final(self).id == old(self).id,
            final(self).inner == old(self).inner,
            final(self).email == old(self).email,
            final(self).max_costs == old(self).max_costs,
            final(self).active == old(self).active,
            final(self).created == old(self).created,
            final(self).deleted == old(self).deleted,
            final(self).updated == old(self).updated,
    {
        if costs.is_lt_0() {
            return Err(Error::NegativeCosts);
        }
        match Costs::is_sub_lt_0(&self.total_costs, &costs) {
            None => Err(Error::NumericOverflow),
            Some(true) => Err(Error::NegativeCosts),
            Some(false) => match self.total_costs.clone().sub(costs) {
                Some(c) => {
                    self.total_costs = c;
                    Ok(self.total_costs.clone())
                },
                None => Err(Error::NumericOverflow),
            },
        }
    }

    /// Move costs from this company's total to another's. Returns this
    /// company's new total. The costs are taken from this company first:
    /// where the receiving company then refuses them, this company's total
    /// stays reduced.
    pub fn transfer_costs_to(&mut self, company_to: &mut Company, costs: Costs) -> (r: Result<
        Costs,
        Error,
    >)
        ensures
            spec_decrease_costs(old(self).total_costs@, costs@) matches Err(e) ==> r == Err::<
                Costs,
                Error,
            >(e) && final(self).total_costs@ == old(self).total_costs@ && final(company_to).total_costs@ == old(company_to).total_costs@,
            spec_decrease_costs(old(self).total_costs@, costs@) matches Ok(t) ==> match spec_increase_costs(
                old(company_to).total_costs@,
                old(company_to).max_costs,
                costs@,
            ) {
                Ok(t2) => r is Ok && r->Ok_0@ == t && final(self).total_costs@ == t
                    && final(company_to).total_costs@ == t2,
                Err(e) => r == Err::<Costs, Error>(e) && final(self).total_costs@ == t
                    && final(company_to).total_costs@ == old(company_to).total_costs@,
            },
    {
        self.decrease_costs(costs.clone())?;
        company_to.increase_costs(costs)?;
        Ok(self.total_costs.clone())
    }
}

impl Agent for Company {
    open spec fn agent_view(&self) -> AgentIDView {
        AgentIDView::Company(self.id@)
    }

    open spec fn agent_active(&self) -> bool {
        self.spec_is_active()
    }

    fn agent_id(&self) -> (r: AgentID) {
        AgentID::CompanyID(self.id.clone())
    }

    fn agent_is_active(&self) -> (r: bool) {
        self.is_active()
    }
}

} // verus!
