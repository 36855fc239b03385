//! Company members (a user's membership in a company, with an occupation):
//! creating, updating, setting permissions and compensation, and deleting.

use crate::access::Permission;
use crate::error::Error;
use crate::models::company::{Company, CompanyID, Permission as CompanyPermission};
use crate::models::company_member::{CompanyMember, CompanyMemberID, CompanyMemberView};
use crate::models::ids::{OccupationID, UserID};
use crate::models::lib::agent::{AgentID, AgentIDView};
use crate::models::member::{permits, Compensation};
use crate::models::user::{user_can, User};
use crate::models::vf;
use crate::models::{Model, ModelView, Modifications, Op};
use crate::time::Timestamp;
use crate::transactions::{deleted, is_deleted_err, pick, single};
use vstd::prelude::*;

verus! {

/// Whether a company member record lets the user do something at the
/// company.
pub open spec fn company_member_allows(
    m: CompanyMember,
    user_id: UserID,
    company_id: CompanyID,
    p: CompanyPermission,
) -> bool {
    &&& m.inner.subject@ == AgentIDView::User(user_id@)
    &&& m.inner.object@ == AgentIDView::Company(company_id@)
    &&& m.spec_is_active()
    &&& permits(m.permissions@, p)
}

/// Create a company member: links a user (not deleted) to a company (not
/// deleted) in an occupation.
pub fn create(
    caller: &User,
    member: &CompanyMember,
    id: CompanyMemberID,
    user: User,
    company: Company,
    occupation_id: OccupationID,
    permissions: Vec<CompanyPermission>,
    agreement: Option<String>,
    active: bool,
    now: &Timestamp,
) -> (r: Result<Modifications, Error>)
    ensures
        !(user_can(*caller, Permission::CompanyUpdateMembers) && company_member_allows(
            *member,
            caller.id,
            company.id,
            CompanyPermission::MemberCreate,
        )) ==> r == Err::<Modifications, Error>(Error::InsufficientPrivileges),
        (user_can(*caller, Permission::CompanyUpdateMembers) && company_member_allows(
            *member,
            caller.id,
            company.id,
            CompanyPermission::MemberCreate,
        ) && user.spec_is_deleted()) ==> r == Err::<Modifications, Error>(Error::UserIsDeleted),
        (user_can(*caller, Permission::CompanyUpdateMembers) && company_member_allows(
            *member,
            caller.id,
            company.id,
            CompanyPermission::MemberCreate,
        ) && !user.spec_is_deleted() && company.spec_is_deleted()) ==> (r matches Err(e)
            && is_deleted_err(e, "company"@)),
        r is Ok <==> user_can(*caller, Permission::CompanyUpdateMembers) && company_member_allows(
            *member,
            caller.id,
            company.id,
            CompanyPermission::MemberCreate,
        ) && !user.spec_is_deleted() && !company.spec_is_deleted(),
        r matches Ok(m) ==> m@ == single(
            Op::Create,
            ModelView::CompanyMember(
                CompanyMemberView {
                    id,
                    inner: vf::AgentRelationship {
                        subject: AgentID::UserID(user.id),
                        object: AgentID::CompanyID(company.id),
                        note: None,
                    },
                    occupation: occupation_id,
                    permissions: permissions@,
                    compensation: None,
                    agreement,
                    active,
                    created: *now,
                    updated: *now,
                    deleted: None,
                },
            ),
        ),
{
    match caller.access_check(Permission::CompanyUpdateMembers) {
        Ok(()) => {},
        Err(e) => {
            return Err(e);
        },
    }
    match member.access_check(&caller.id, &company.id, CompanyPermission::MemberCreate) {
        Ok(()) => {},
        Err(e) => {
            return Err(e);
        },
    }
    if user.is_deleted() {
        return Err(Error::UserIsDeleted);
    }
    if company.is_deleted() {
        return Err(deleted("company"));
    }
    let model = CompanyMember {
        id,
        inner: vf::AgentRelationship {
            subject: AgentID::UserID(user.id),
            object: AgentID::CompanyID(company.id),
            note: None,
        },
        occupation: occupation_id,
        permissions,
        compensation: None,
        agreement,
        active,
        created: *now,
        updated: *now,
        deleted: None,
    };
    Ok(Modifications::new_single(Op::Create, Model::CompanyMember(model)))
}

/// Whether the caller may do `p` to the subject (at the subject's company).
pub open spec fn may_change(caller: User, member: CompanyMember, subject: CompanyMember, p: CompanyPermission) -> bool {
    &&& user_can(caller, Permission::CompanyUpdateMembers)
    &&& subject.inner.object matches AgentID::CompanyID(c)
    &&& company_member_allows(member, caller.id, c, p)
}

/// The errors of a change to a company member: the caller lacks the system
/// permission, the subject's group is not a company, or the caller's
/// membership does not allow the change there.
pub open spec fn change_rejects(
    r: Result<Modifications, Error>,
    caller: User,
    member: CompanyMember,
    subject: CompanyMember,
    p: CompanyPermission,
) -> bool {
    &&& !user_can(caller, Permission::CompanyUpdateMembers) ==> r == Err::<Modifications, Error>(
        Error::InsufficientPrivileges,
    )
    &&& (user_can(caller, Permission::CompanyUpdateMembers) && !(subject.inner.object is CompanyID))
        ==> r == Err::<Modifications, Error>(Error::WrongAgentIDType)
    &&& (user_can(caller, Permission::CompanyUpdateMembers) && subject.inner.object is CompanyID
        && !may_change(caller, member, subject, p)) ==> r == Err::<Modifications, Error>(
        Error::InsufficientPrivileges,
    )
    &&& (r is Ok <==> may_change(caller, member, subject, p))
}

fn check_change(caller: &User, member: &CompanyMember, subject: &CompanyMember, p: CompanyPermission) -> (r:
    Result<(), Error>)
    ensures
        !user_can(*caller, Permission::CompanyUpdateMembers) ==> r == Err::<(), Error>(
            Error::InsufficientPrivileges,
        ),
        (user_can(*caller, Permission::CompanyUpdateMembers) && !(subject.inner.object is CompanyID))
            ==> r == Err::<(), Error>(Error::WrongAgentIDType),
        (user_can(*caller, Permission::CompanyUpdateMembers) && subject.inner.object is CompanyID
            && !may_change(*caller, *member, *subject, p)) ==> r == Err::<(), Error>(
            Error::InsufficientPrivileges,
        ),
        r is Ok <==> may_change(*caller, *member, *subject, p),
{
    match caller.access_check(Permission::CompanyUpdateMembers) {
        Ok(()) => {},
        Err(e) => {
            return Err(e);
        },
    }
    let cid = match subject.company_id() {
        Ok(c) => c,
        Err(e) => {
            return Err(e);
        },
    };
    member.access_check(&caller.id, &cid, p)
}

/// Update a company member's occupation, agreement or active flag (those
/// given).
pub fn update(
    caller: &User,
    member: &CompanyMember,
    subject: CompanyMember,
    occupation_id: Option<OccupationID>,
    agreement: Option<String>,
    active: Option<bool>,
    now: &Timestamp,
) -> (r: Result<Modifications, Error>)
    ensures
        change_rejects(r, *caller, *member, subject, CompanyPermission::MemberUpdate),
        r matches Ok(m) ==> m@ == single(
            Op::Update,
            ModelView::CompanyMember(
                CompanyMemberView {
                    occupation: pick(occupation_id, subject.occupation),
                    agreement: if agreement is Some {
                        agreement
                    } else {
                        subject.agreement
                    },
                    active: pick(active, subject.active),
                    updated: *now,
                    ..subject@
                },
            ),
        ),
{
    match check_change(caller, member, &subject, CompanyPermission::MemberUpdate) {
        Ok(()) => {},
        Err(e) => {
            return Err(e);
        },
    }
    let mut subject = subject;
    if let Some(occupation_id) = occupation_id {
        subject.occupation = occupation_id;
    }
    if agreement.is_some() {
        subject.agreement = agreement;
    }
    if let Some(active) = active {
        subject.active = active;
    }
    subject.updated = *now;
    Ok(Modifications::new_single(Op::Update, Model::CompanyMember(subject)))
}

/// Set a company member's permissions.
pub fn set_permissions(
    caller: &User,
    member: &CompanyMember,
    subject: CompanyMember,
    permissions: Vec<CompanyPermission>,
    now: &Timestamp,
) -> (r: Result<Modifications, Error>)
    ensures
        change_rejects(r, *caller, *member, subject, CompanyPermission::MemberSetPermissions),
        r matches Ok(m) ==> m@ == single(
            Op::Update,
            ModelView::CompanyMember(
                CompanyMemberView { permissions: permissions@, updated: *now, ..subject@ },
            ),
        ),
{
    match check_change(caller, member, &subject, CompanyPermission::MemberSetPermissions) {
        Ok(()) => {},
        Err(e) => {
            return Err(e);
        },
    }
    let mut subject = subject;
    subject.permissions = permissions;
    subject.updated = *now;
    Ok(Modifications::new_single(Op::Update, Model::CompanyMember(subject)))
}

/// Set a company member's compensation.
pub fn set_compensation(
    caller: &User,
    member: &CompanyMember,
    subject: CompanyMember,
    compensation: Compensation,
    now: &Timestamp,
) -> (r: Result<Modifications, Error>)
    ensures
        change_rejects(r, *caller, *member, subject, CompanyPermission::MemberSetCompensation),
        r matches Ok(m) ==> m@ == single(
            Op::Update,
            ModelView::CompanyMember(
                CompanyMemberView { compensation: Some(compensation), updated: *now, ..subject@ },
            ),
        ),
{
    match check_change(caller, member, &subject, CompanyPermission::MemberSetCompensation) {
        Ok(()) => {},
        Err(e) => {
            return Err(e);
        },
    }
    let mut subject = subject;
    subject.compensation = Some(compensation);
    subject.updated = *now;
    Ok(Modifications::new_single(Op::Update, Model::CompanyMember(subject)))
}

/// Delete a company member.
pub fn delete(caller: &User, member: &CompanyMember, subject: CompanyMember, now: &Timestamp) -> (r:
    Result<Modifications, Error>)
    ensures
        change_rejects(r, *caller, *member, subject, CompanyPermission::MemberDelete),
        r matches Ok(m) ==> m@ == single(
            Op::Delete,
            ModelView::CompanyMember(CompanyMemberView { deleted: Some(*now), ..subject@ }),
        ),
{
    match check_change(caller, member, &subject, CompanyPermission::MemberDelete) {
        Ok(()) => {},
        Err(e) => {
            return Err(e);
        },
    }
    let mut subject = subject;
    subject.set_deleted(Some(*now));
    Ok(Modifications::new_single(Op::Delete, Model::CompanyMember(subject)))
}

} // verus!
