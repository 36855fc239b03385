//! Company members: creating them, updating them, setting their permissions
//! and compensation, and deleting them.

use crate::access::Permission;
use crate::error::Error;
use crate::models::company::{Company, Permission as CompanyPermission};
use crate::models::ids::OccupationID;
use crate::models::lib::agent::{Agent, AgentID};
use crate::models::member::{member_allows, Compensation, Member, MemberClass, MemberID, MemberView, MemberWorker};
use crate::models::user::{user_can, User};
use crate::models::vf;
use crate::models::{Model, ModelView, Modifications, Op};
use crate::time::Timestamp;
use crate::transactions::{deleted, inactive, is_deleted_err, is_inactive_err, pick, single};
use vstd::prelude::*;

verus! {

/// Whether the caller may manage the company's members (`cp`).
pub open spec fn may_manage(caller: User, member: Member, company: Company, cp: CompanyPermission) -> bool {
    user_can(caller, Permission::CompanyUpdateMembers) && member_allows(member, caller.id, company.id, cp)
}

/// Whether the subject is a member of the company.
pub open spec fn belongs(subject: Member, company: Company) -> bool {
    subject.inner.object matches AgentID::CompanyID(c) && c@ == company.id@
}

/// A member transaction's errors: the caller may not manage members
/// (`InsufficientPrivileges`), the subject's group is not a company
/// (`WrongAgentIDType`) or not this one (`InsufficientPrivileges`), or the
/// company is inactive.
pub open spec fn member_rejects(
    r: Result<Modifications, Error>,
    caller: User,
    member: Member,
    company: Company,
    subject: Member,
    cp: CompanyPermission,
) -> bool {
    &&& !may_manage(caller, member, company, cp) ==> r == Err::<Modifications, Error>(
        Error::InsufficientPrivileges,
    )
    &&& (may_manage(caller, member, company, cp) && !(subject.inner.object is CompanyID)) ==> r
        == Err::<Modifications, Error>(Error::WrongAgentIDType)
    &&& (may_manage(caller, member, company, cp) && subject.inner.object is CompanyID && !belongs(
        subject,
        company,
    )) ==> r == Err::<Modifications, Error>(Error::InsufficientPrivileges)
    &&& (may_manage(caller, member, company, cp) && belongs(subject, company)
        && !company.spec_is_active()) ==> (r matches Err(e) && is_inactive_err(e, "company"@))
}

/// Whether a member transaction's checks pass.
pub open spec fn member_ok(caller: User, member: Member, company: Company, subject: Member, cp: CompanyPermission) -> bool {
    may_manage(caller, member, company, cp) && belongs(subject, company) && company.spec_is_active()
}

fn check_subject(caller: &User, member: &Member, company: &Company, subject: &Member, cp: CompanyPermission) -> (r:
    Result<(), Error>)
    ensures
        r is Ok <==> member_ok(*caller, *member, *company, *subject, cp),
        !may_manage(*caller, *member, *company, cp) ==> r == Err::<(), Error>(
            Error::InsufficientPrivileges,
        ),
        (may_manage(*caller, *member, *company, cp) && !(subject.inner.object is CompanyID)) ==> r
            == Err::<(), Error>(Error::WrongAgentIDType),
        (may_manage(*caller, *member, *company, cp) && subject.inner.object is CompanyID && !belongs(
            *subject,
            *company,
        )) ==> r == Err::<(), Error>(Error::InsufficientPrivileges),
        (may_manage(*caller, *member, *company, cp) && belongs(*subject, *company)
            && !company.spec_is_active()) ==> (r matches Err(e) && is_inactive_err(e, "company"@)),
{
    match caller.access_check(Permission::CompanyUpdateMembers) {
        Ok(()) => {},
        Err(e) => {
            return Err(e);
        },
    }
    match member.access_check(&caller.id, &company.id, cp) {
        Ok(()) => {},
        Err(e) => {
            return Err(e);
        },
    }
    let cid = match subject.company_id() {
        Ok(c) => c,
        Err(e) => {
            return Err(e);
        },
    };
    if company.id != cid {
        return Err(Error::InsufficientPrivileges);
    }
    if !company.is_active() {
        return Err(inactive("company"));
    }
    Ok(())
}

/// The member a create makes.
pub open spec fn created_member(
    id: MemberID,
    subject: AgentID,
    agent_to: Company,
    class: MemberClass,
    permissions: Seq<CompanyPermission>,
    agreement: Option<String>,
    active: bool,
    now: Timestamp,
) -> MemberView {
    MemberView {
        id,
        inner: vf::AgentRelationship { subject, object: AgentID::CompanyID(agent_to.id), note: None },
        class,
        permissions,
        agreement,
        active,
        created: now,
        updated: now,
        deleted: None,
    }
}

/// Create a member: links an agent (a user or a company) to a company. Both
/// must be active.
pub fn create<T: Agent>(
    caller: &User,
    member: &Member,
    id: MemberID,
    agent_from: T,
    agent_to: Company,
    class: MemberClass,
    permissions: Vec<CompanyPermission>,
    agreement: Option<String>,
    active: bool,
    now: &Timestamp,
) -> (r: Result<Modifications, Error>)
    ensures
        !may_manage(*caller, *member, agent_to, CompanyPermission::MemberCreate) ==> r == Err::<
            Modifications,
            Error,
        >(Error::InsufficientPrivileges),
        may_manage(*caller, *member, agent_to, CompanyPermission::MemberCreate)
            && !agent_from.agent_active() ==> (r matches Err(e) && is_inactive_err(e, "agent"@)),
        may_manage(*caller, *member, agent_to, CompanyPermission::MemberCreate)
            && agent_from.agent_active() && !agent_to.spec_is_active() ==> (r matches Err(e)
            && is_inactive_err(e, "company"@)),
        r is Ok <==> may_manage(*caller, *member, agent_to, CompanyPermission::MemberCreate)
            && agent_from.agent_active() && agent_to.spec_is_active(),
        r matches Ok(m) ==> exists|subject: AgentID|
            subject@ == agent_from.agent_view() && m@ == single(
                Op::Create,
                ModelView::Member(
                    #[trigger] created_member(
                        id,
                        subject,
                        agent_to,
                        class,
                        permissions@,
                        agreement,
                        active,
                        *now,
                    ),
                ),
            ),
{
    match caller.access_check(Permission::CompanyUpdateMembers) {
        Ok(()) => {},
        Err(e) => {
            return Err(e);
        },
    }
    match member.access_check(&caller.id, &agent_to.id, CompanyPermission::MemberCreate) {
        Ok(()) => {},
        Err(e) => {
            return Err(e);
        },
    }
    if !agent_from.agent_is_active() {
        return Err(inactive("agent"));
    }
    if !agent_to.is_active() {
        return Err(inactive("company"));
    }
    let subject = agent_from.agent_id();
    let ghost expected = created_member(
        id,
        subject,
        agent_to,
        class,
        permissions@,
        agreement,
        active,
        *now,
    );
    let model = Member {
        id,
        inner: vf::AgentRelationship {
            subject,
            object: AgentID::CompanyID(agent_to.id.clone()),
            note: None,
        },
        class,
        permissions,
        agreement,
        active,
        created: *now,
        updated: *now,
        deleted: None,
    };
    assert(model@ == expected);
    Ok(Modifications::new_single(Op::Create, Model::Member(model)))
}

/// The member class with the occupation changed, where it is a worker's.
pub open spec fn with_occupation(class: MemberClass, occupation_id: Option<OccupationID>) -> Option<
    MemberClass,
> {
    match occupation_id {
        None => Some(class),
        Some(o) => match class {
            MemberClass::Worker(w) => Some(MemberClass::Worker(MemberWorker { occupation: o, ..w })),
            _ => None,
        },
    }
}

/// Update a member's occupation (only a worker has one), agreement or active
/// flag (those given).
pub fn update(
    caller: &User,
    member: &Member,
    company: &Company,
    subject: Member,
    occupation_id: Option<OccupationID>,
    agreement: Option<String>,
    active: Option<bool>,
    now: &Timestamp,
) -> (r: Result<Modifications, Error>)
    ensures
        member_rejects(r, *caller, *member, *company, subject, CompanyPermission::MemberUpdate),
        member_ok(*caller, *member, *company, subject, CompanyPermission::MemberUpdate) ==> match with_occupation(
            subject.class,
            occupation_id,
        ) {
            None => r == Err::<Modifications, Error>(Error::MemberMustBeWorker),
            Some(c) => r matches Ok(m) && m@ == single(
                Op::Update,
                ModelView::Member(
                    MemberView {
                        class: c,
                        agreement: if agreement is Some {
                            agreement
                        } else {
                            subject.agreement
                        },
                        active: pick(active, subject.active),
                        updated: *now,
                        ..subject@
                    },
                ),
            ),
        },
{
    match check_subject(caller, member, company, &subject, CompanyPermission::MemberUpdate) {
        Ok(()) => {},
        Err(e) => {
            return Err(e);
        },
    }
    let mut subject = subject;
    if let Some(occupation_id) = occupation_id {
        match &mut subject.class {
            MemberClass::Worker(worker) => {
                worker.occupation = occupation_id;
            },
            _ => {
                return Err(Error::MemberMustBeWorker);
            },
        }
    }
    if agreement.is_some() {
        subject.agreement = agreement;
    }
    if let Some(active) = active {
        subject.active = active;
    }
    subject.updated = *now;
    Ok(Modifications::new_single(Op::Update, Model::Member(subject)))
}

/// Set a member's permissions.
pub fn set_permissions(
    caller: &User,
    member: &Member,
    company: &Company,
    subject: Member,
    permissions: Vec<CompanyPermission>,
    now: &Timestamp,
) -> (r: Result<Modifications, Error>)
    ensures
        member_rejects(r, *caller, *member, *company, subject, CompanyPermission::MemberSetPermissions),
        r is Ok <==> member_ok(
            *caller,
            *member,
            *company,
            subject,
            CompanyPermission::MemberSetPermissions,
        ),
        r matches Ok(m) ==> m@ == single(
            Op::Update,
            ModelView::Member(MemberView { permissions: permissions@, updated: *now, ..subject@ }),
        ),
{
    match check_subject(caller, member, company, &subject, CompanyPermission::MemberSetPermissions) {
        Ok(()) => {},
        Err(e) => {
            return Err(e);
        },
    }
    let mut subject = subject;
    subject.permissions = permissions;
    subject.updated = *now;
    Ok(Modifications::new_single(Op::Update, Model::Member(subject)))
}

/// Set a worker member's compensation.
pub fn set_compensation(
    caller: &User,
    member: &Member,
    company: &Company,
    subject: Member,
    compensation: Compensation,
    now: &Timestamp,
) -> (r: Result<Modifications, Error>)
    ensures
        member_rejects(r, *caller, *member, *company, subject, CompanyPermission::MemberSetCompensation),
        member_ok(*caller, *member, *company, subject, CompanyPermission::MemberSetCompensation)
            ==> match subject.class {
            MemberClass::Worker(w) => r matches Ok(m) && m@ == single(
                Op::Update,
                ModelView::Member(
                    MemberView {
                        class: MemberClass::Worker(
                            MemberWorker { compensation: Some(compensation), ..w },
                        ),
                        updated: *now,
                        ..subject@
                    },
                ),
            ),
            _ => r == Err::<Modifications, Error>(Error::MemberMustBeWorker),
        },
{
    match check_subject(caller, member, company, &subject, CompanyPermission::MemberSetCompensation) {
        Ok(()) => {},
        Err(e) => {
            return Err(e);
        },
    }
    let mut subject = subject;
    match &mut subject.class {
        MemberClass::Worker(worker) => {
            worker.compensation = Some(compensation);
        },
        _ => {
            return Err(Error::MemberMustBeWorker);
        },
    }
    subject.updated = *now;
    Ok(Modifications::new_single(Op::Update, Model::Member(subject)))
}

/// Delete a member (one not deleted already).
pub fn delete(caller: &User, member: &Member, company: &Company, subject: Member, now: &Timestamp) -> (r:
    Result<Modifications, Error>)
    ensures
        member_rejects(r, *caller, *member, *company, subject, CompanyPermission::MemberDelete),
        member_ok(*caller, *member, *company, subject, CompanyPermission::MemberDelete)
            && subject.spec_is_deleted() ==> (r matches Err(e) && is_deleted_err(e, "member"@)),
        r is Ok <==> member_ok(*caller, *member, *company, subject, CompanyPermission::MemberDelete)
            && !subject.spec_is_deleted(),
        r matches Ok(m) ==> m@ == single(
            Op::Delete,
            ModelView::Member(MemberView { deleted: Some(*now), ..subject@ }),
        ),
{
    match check_subject(caller, member, company, &subject, CompanyPermission::MemberDelete) {
        Ok(()) => {},
        Err(e) => {
            return Err(e);
        },
    }
    if subject.is_deleted() {
        return Err(deleted("member"));
    }
    let mut subject = subject;
    subject.set_deleted(Some(*now));
    Ok(Modifications::new_single(Op::Delete, Model::Member(subject)))
}

} // verus!
