//! A member represents a link between an agent (a user or a company) and a
//! company, and carries other information with it such as occupation,
//! access permissions, and compensation.
//!
//! Members can perform labor into a `Process` within the company, which earns
//! them credits and adds costs to the company which must be assigned to
//! outgoing products and services.

use crate::error::Error;
use crate::measure::{Measure, MeasureView, Unit};
use crate::models::company::Permission;
use crate::models::ids::{AccountID, CompanyID, OccupationID, UserID};
pub use crate::models::ids::MemberID;
use crate::models::lib::agent::{AgentID, AgentIDView};
use crate::models::lib::basis_model::clone_vec_copy;
use crate::models::vf;
use crate::num::Num;
use crate::time::Timestamp;
use vstd::prelude::*;

verus! {

/// How often we pay workers.
#[derive(Clone, Copy, Debug, PartialEq, Eq, Structural)]
pub enum PayrollSchedule {
    /// Once every two weeks
    BiWeekly,
    /// Twice a month (on the 15th and the last of the month)
    SemiMonthly,
}

/// Defines compensation for a member: wage, payment schedule, and account
/// information. Can account for hourly wages or salary.
#[derive(Debug, PartialEq)]
pub struct Compensation {
    /// A measure of value per time (ie, credits per hour, or credits per year)
    pub wage: Measure,
    /// Pay into this account
    pub pay_into: AccountID,
    /// Our payroll schedule (biweekly, semimonthly, etc)
    pub schedule: PayrollSchedule,
    /// If the wage is not hourly, an estimate of the hours worked per week
    pub est_hours_per_week: Option<Num>,
}

impl Clone for Compensation {
    fn clone(&self) -> (r: Compensation)
        ensures
            r == *self,
    {
        Compensation {
            wage: self.wage.clone(),
            pay_into: self.pay_into.clone(),
            schedule: self.schedule,
            est_hours_per_week: self.est_hours_per_week,
        }
    }
}

impl Compensation {
    /// Create a standard hourly wage, paid biweekly.
    pub fn new_hourly(wage: Num, pay_into: AccountID) -> (r: Compensation)
        ensures
            r.wage@ == (MeasureView { value: wage, unit: "hour"@ }),
            r.pay_into == pay_into,
            r.schedule == PayrollSchedule::BiWeekly,
            r.est_hours_per_week is None,
    {
        Compensation::new_hourly_with_schedule(wage, pay_into, PayrollSchedule::BiWeekly)
    }

    /// Create an hourly wage.
    pub fn new_hourly_with_schedule(wage: Num, pay_into: AccountID, schedule: PayrollSchedule) -> (r:
        Compensation)
        ensures
            r.wage@ == (MeasureView { value: wage, unit: "hour"@ }),
            r.pay_into == pay_into,
            r.schedule == schedule,
            r.est_hours_per_week is None,
    {
        Compensation {
            wage: Measure::new(wage, Unit::new("hour")),
            pay_into,
            schedule,
            est_hours_per_week: None,
        }
    }

    /// Create a standard yearly salary, paid semimonthly.
    pub fn new_salary(wage: Num, pay_into: AccountID, est_hours_per_week: Num) -> (r: Compensation)
        ensures
            r.wage@ == (MeasureView { value: wage, unit: "year"@ }),
            r.pay_into == pay_into,
            r.schedule == PayrollSchedule::SemiMonthly,
            r.est_hours_per_week == Some(est_hours_per_week),
    {
        Compensation::new_salary_with_schedule(
            wage,
            pay_into,
            PayrollSchedule::SemiMonthly,
            est_hours_per_week,
        )
    }

    /// Create a salary.
    pub fn new_salary_with_schedule(
        wage: Num,
        pay_into: AccountID,
        schedule: PayrollSchedule,
        est_hours_per_week: Num,
    ) -> (r: Compensation)
        ensures
            r.wage@ == (MeasureView { value: wage, unit: "year"@ }),
            r.pay_into == pay_into,
            r.schedule == schedule,
            r.est_hours_per_week == Some(est_hours_per_week),
    {
        Compensation {
            wage: Measure::new(wage, Unit::new("year")),
            pay_into,
            schedule,
            est_hours_per_week: Some(est_hours_per_week),
        }
    }
}

/// Describes a company that is a member of a company.
#[derive(Clone, Copy, Debug, PartialEq, Eq, Structural)]
pub struct MemberCompany {}

impl MemberCompany {
    /// Create a new company member.
    pub fn new() -> (r: MemberCompany) {
        MemberCompany {  }
    }
}

/// Describes an individual user who is a member of a company.
#[derive(Clone, Copy, Debug, PartialEq, Eq, Structural)]
pub struct MemberUser {}

impl MemberUser {
    /// Create a new user member.
    pub fn new() -> (r: MemberUser) {
        MemberUser {  }
    }
}

/// Describes a worker who is a member of a company.
#[derive(Debug, PartialEq)]
pub struct MemberWorker {
    /// The id of this worker's occupation at this company
    pub occupation: OccupationID,
    /// How the member is compensated for their labor. Must be defined for the
    /// member to be paid.
    pub compensation: Option<Compensation>,
}

impl Clone for MemberWorker {
    fn clone(&self) -> (r: MemberWorker)
        ensures
            r == *self,
    {
        MemberWorker {
            occupation: self.occupation.clone(),
            compensation: match &self.compensation {
                Some(c) => Some(c.clone()),
                None => None,
            },
        }
    }
}

impl MemberWorker {
    /// Create a new worker member.
    pub fn new(occupation_id: OccupationID, compensation: Option<Compensation>) -> (r: MemberWorker)
        ensures
            r.occupation == occupation_id,
            r.compensation == compensation,
    {
        MemberWorker { occupation: occupation_id, compensation }
    }
}

/// Describes the type of membership for a particular member record.
#[derive(Debug, PartialEq)]
pub enum MemberClass {
    /// This member is another company.
    Company(MemberCompany),
    /// This member is a user (a non-productive member that generally has use
    /// of the assets of the greater company).
    User(MemberUser),
    /// This member is a worker (a productive member, with an occupation).
    Worker(MemberWorker),
}

impl Clone for MemberClass {
    fn clone(&self) -> (r: MemberClass)
        ensures
            r == *self,
    {
        match self {
            MemberClass::Company(c) => MemberClass::Company(*c),
            MemberClass::User(u) => MemberClass::User(*u),
            MemberClass::Worker(w) => MemberClass::Worker(w.clone()),
        }
    }
}
/// A member of a company. Links an agent to a company, and has other attached
/// information like compensation, permissions, etc.
#[derive(Debug, PartialEq)]
pub struct Member {
    /// The member's ID
    pub id: MemberID,
    /// Our inner VF relationship: the member is the `subject`, the company the `object`
    pub inner: vf::AgentRelationship,
    /// Membership class (company, user or worker)
    pub class: MemberClass,
    /// The permissions this member has at this company (additive)
    pub permissions: Vec<Permission>,
    /// Agreement under which this membership takes place
    pub agreement: Option<String>,
    /// Whether the model can be used or altered (see `is_active`).
    pub active: bool,
    /// When the model was created.
    pub created: Timestamp,
    /// When the model was last updated.
    pub updated: Timestamp,
    /// When the model was deleted (deletion is permanent).
    pub deleted: Option<Timestamp>,
}

/// What a member holds, with its costs and lists as values.
pub struct MemberView {
    pub id: MemberID,
    pub inner: vf::AgentRelationship,
    pub class: MemberClass,
    pub permissions: Seq<Permission>,
    pub agreement: Option<String>,
    pub active: bool,
    pub created: Timestamp,
    pub updated: Timestamp,
    pub deleted: Option<Timestamp>,
}

impl View for Member {
    type V = MemberView;

    open spec fn view(&self) -> MemberView {
        MemberView {
            id: self.id,
            inner: self.inner,
            class: self.class,
            permissions: self.permissions@,
            agreement: self.agreement,
            active: self.active,
            created: self.created,
            updated: self.updated,
            deleted: self.deleted,
        }
    }
}

impl Clone for Member {
    fn clone(&self) -> (r: Member)
        ensures
            r@ == self@,
    {
        Member {
            id: self.id.clone(),
            inner: self.inner.clone(),
            class: self.class.clone(),
            permissions: clone_vec_copy(&self.permissions),
            agreement: match &self.agreement {
                Some(x) => Some(x.clone()),
                None => None,
            },
            active: self.active,
            created: self.created,
            updated: self.updated,
            deleted: self.deleted,
        }
    }
}

impl Member {
    /// Whether the member has been deleted.
    pub open spec fn spec_is_deleted(&self) -> bool {
        self.deleted is Some
    }

    /// Whether the member is active: marked active and not deleted.
    pub open spec fn spec_is_active(&self) -> bool {
        self.active && !self.spec_is_deleted()
    }

    /// Whether the member has been deleted.
    pub fn is_deleted(&self) -> (r: bool)
        ensures
            r == self.spec_is_deleted(),
    {
        self.deleted.is_some()
    }

    /// Whether the member is active: marked active and not deleted.
    pub fn is_active(&self) -> (r: bool)
        ensures
            r == self.spec_is_active(),
    {
        self.active && !self.is_deleted()
    }

    /// Set when the member was deleted.
    pub fn set_deleted(&mut self, deleted: Option<Timestamp>)
        ensures
            *final(self) == (Member { deleted, ..*old(self) }),
    {
        self.deleted = deleted;
    }

    /// Set whether the member is active.
    pub fn set_active(&mut self, active: bool)
        ensures
            *final(self) == (Member { active, ..*old(self) }),
    {
        self.active = active;
    }

    /// Set when the member was last updated.
    pub fn set_updated(&mut self, updated: Timestamp)
        ensures
            *final(self) == (Member { updated, ..*old(self) }),
    {
        self.updated = updated;
    }
}

impl crate::models::lib::agent::Agent for Member {
    open spec fn agent_view(&self) -> AgentIDView {
        AgentIDView::Member(self.id@)
    }

    open spec fn agent_active(&self) -> bool {
        self.spec_is_active()
    }

    fn agent_id(&self) -> (r: AgentID) {
        AgentID::MemberID(self.id.clone())
    }

    fn agent_is_active(&self) -> (r: bool) {
        self.is_active()
    }
}

/// Whether a member record lets the user do something at the company: it
/// links the user to the company, is active, and holds the permission.
pub open spec fn member_allows(m: Member, user_id: UserID, company_id: CompanyID, permission: Permission) -> bool {
    &&& m.inner.subject@ == AgentIDView::User(user_id@)
    &&& m.inner.object@ == AgentIDView::Company(company_id@)
    &&& m.spec_is_active()
    &&& permits(m.permissions@, permission)
}

/// Whether `permission` is in `permissions`, or `All` is.
pub open spec fn permits(permissions: Seq<Permission>, permission: Permission) -> bool {
    permissions.contains(Permission::All) || permissions.contains(permission)
}

/// Whether `permissions` holds `p`.
pub fn holds_permission(permissions: &Vec<Permission>, p: Permission) -> (r: bool)
    ensures
        r == permissions@.contains(p),
{
    let mut i: usize = 0;
    while i < permissions.len()
        invariant
            i <= permissions@.len(),
            forall|j: int| 0 <= j < i ==> permissions@[j] != p,
        decreases permissions.len() - i,
    {
        if permissions[i] == p {
            assert(permissions@[i as int] == p);
            return true;
        }
        i = i + 1;
    }
    false
}

impl Member {
    /// Determines if a member can perform an action (based on their
    /// permissions list): the member is active and holds the permission or
    /// `All`.
    pub fn can(&self, permission: &Permission) -> (r: bool)
        ensures
            r == (self.spec_is_active() && permits(self.permissions@, *permission)),
    {
        if !self.is_active() {
            return false;
        }
        holds_permission(&self.permissions, Permission::All) || holds_permission(
            &self.permissions,
            *permission,
        )
    }

    /// Check if this member can perform an action on a company: the member
    /// links the given user and company, and can do the action
    /// (`InsufficientPrivileges` if not).
    pub fn access_check(&self, user_id: &UserID, company_id: &CompanyID, permission: Permission) -> (r:
        Result<(), Error>)
        ensures
            r is Ok <==> (self.inner.subject@ == AgentIDView::User(user_id@)
                && self.inner.object@ == AgentIDView::Company(company_id@) && self.spec_is_active()
                && permits(self.permissions@, permission)),
            r is Err ==> r == Err::<(), Error>(Error::InsufficientPrivileges),
    {
        let uid = AgentID::UserID(user_id.clone());
        let cid = AgentID::CompanyID(company_id.clone());
        if self.inner.subject != uid || self.inner.object != cid || !self.can(&permission) {
            return Err(Error::InsufficientPrivileges);
        }
        Ok(())
    }
}

impl Member {
    /// The member's agent id (the `subject` of the relationship).
    pub fn member_id(&self) -> (r: &AgentID)
        ensures
            *r == self.inner.subject,
    {
        &self.inner.subject
    }

    /// The group's agent id (the `object` of the relationship).
    pub fn group_id(&self) -> (r: &AgentID)
        ensures
            *r == self.inner.object,
    {
        &self.inner.object
    }

    /// The company this member belongs to, where the group is a company
    /// (`WrongAgentIDType` if not).
    pub fn company_id(&self) -> (r: Result<CompanyID, Error>)
        ensures
            match self.inner.object {
                AgentID::CompanyID(id) => r == Ok::<CompanyID, Error>(id),
                _ => r == Err::<CompanyID, Error>(Error::WrongAgentIDType),
            },
    {
        self.inner.object.clone().into_company_id()
    }

    /// This member's occupation id, if the member is a worker.
    pub fn occupation_id(&self) -> (r: Option<&OccupationID>)
        ensures
            match self.class {
                MemberClass::Worker(w) => r == Some(&w.occupation),
                _ => r is None,
            },
    {
        match &self.class {
            MemberClass::Worker(worker) => Some(&worker.occupation),
            _ => None,
        }
    }

    /// This member's compensation, if the member is a worker that has one.
    pub fn compensation(&self) -> (r: Option<&Compensation>)
        ensures
            match self.class {
                MemberClass::Worker(w) => match w.compensation {
                    Some(c) => r == Some(&c),
                    None => r is None,
                },
                _ => r is None,
            },
    {
        match &self.class {
            MemberClass::Worker(worker) => match &worker.compensation {
                Some(c) => Some(c),
                None => None,
            },
            _ => None,
        }
    }
}

} // verus!
