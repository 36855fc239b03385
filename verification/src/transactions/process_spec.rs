//! Process specifications: creating, updating and deleting them.

use crate::access::Permission;
use crate::error::Error;
use crate::models::company::{Company, Permission as CompanyPermission};
use crate::models::member::Member;
use crate::models::process_spec::{ProcessSpec, ProcessSpecID, ProcessSpecView};
use crate::models::user::User;
use crate::models::vf;
use crate::models::{Model, ModelView, Modifications, Op};
use crate::time::Timestamp;
use crate::transactions::{check_company, company_ok, company_rejects, deleted, is_deleted_err, pick, single};
use vstd::prelude::*;

verus! {

/// Create a process specification for the company.
pub fn create(
    caller: &User,
    member: &Member,
    company: &Company,
    id: ProcessSpecID,
    name: String,
    note: String,
    active: bool,
    now: &Timestamp,
) -> (r: Result<Modifications, Error>)
    ensures
        company_rejects(r, *caller, *member, *company, Permission::CompanyUpdateProcessSpecs, CompanyPermission::ProcessSpecCreate),
        r is Ok <==> company_ok(*caller, *member, *company, Permission::CompanyUpdateProcessSpecs, CompanyPermission::ProcessSpecCreate),
        r matches Ok(m) ==> m@ == single(
            Op::Create,
            ModelView::ProcessSpec(
                ProcessSpecView {
                    id,
                    inner: vf::ProcessSpecification { name, note: Some(note) },
                    company_id: company.id,
                    active,
                    created: *now,
                    updated: *now,
                    deleted: None,
                },
            ),
        ),
{
    match check_company(caller, member, company, Permission::CompanyUpdateProcessSpecs, CompanyPermission::ProcessSpecCreate) {
        Ok(()) => {},
        Err(e) => {
            return Err(e);
        },
    }
    let model = ProcessSpec {
        id,
        inner: vf::ProcessSpecification { name, note: Some(note) },
        company_id: company.id.clone(),
        active,
        created: *now,
        updated: *now,
        deleted: None,
    };
    Ok(Modifications::new_single(Op::Create, Model::ProcessSpec(model)))
}

/// Update a process specification (the fields given).
pub fn update(
    caller: &User,
    member: &Member,
    company: &Company,
    subject: ProcessSpec,
    name: Option<String>,
    note: Option<String>,
    active: Option<bool>,
    now: &Timestamp,
) -> (r: Result<Modifications, Error>)
    ensures
        company_rejects(r, *caller, *member, *company, Permission::CompanyUpdateProcessSpecs, CompanyPermission::ProcessSpecUpdate),
        r is Ok <==> company_ok(*caller, *member, *company, Permission::CompanyUpdateProcessSpecs, CompanyPermission::ProcessSpecUpdate),
        r matches Ok(m) ==> m@ == single(
            Op::Update,
            ModelView::ProcessSpec(
                ProcessSpecView {
                    inner: vf::ProcessSpecification {
                        name: pick(name, subject.inner.name),
                        note: if note is Some {
                            note
                        } else {
                            subject.inner.note
                        },
                    },
                    active: pick(active, subject.active),
                    updated: *now,
                    ..subject@
                },
            ),
        ),
{
    match check_company(caller, member, company, Permission::CompanyUpdateProcessSpecs, CompanyPermission::ProcessSpecUpdate) {
        Ok(()) => {},
        Err(e) => {
            return Err(e);
        },
    }
    let mut subject = subject;
    if let Some(name) = name {
        subject.inner.name = name;
    }
    if let Some(note) = note {
        subject.inner.note = Some(note);
    }
    if let Some(active) = active {
        subject.active = active;
    }
    subject.updated = *now;
    Ok(Modifications::new_single(Op::Update, Model::ProcessSpec(subject)))
}

/// Delete a process specification (one not deleted already).
pub fn delete(caller: &User, member: &Member, company: &Company, subject: ProcessSpec, now: &Timestamp) -> (r:
    Result<Modifications, Error>)
    ensures
        company_rejects(r, *caller, *member, *company, Permission::CompanyUpdateProcessSpecs, CompanyPermission::ProcessSpecDelete),
        company_ok(*caller, *member, *company, Permission::CompanyUpdateProcessSpecs, CompanyPermission::ProcessSpecDelete)
            && subject.spec_is_deleted() ==> (r matches Err(e) && is_deleted_err(e, "process_spec"@)),
        r is Ok <==> company_ok(*caller, *member, *company, Permission::CompanyUpdateProcessSpecs, CompanyPermission::ProcessSpecDelete)
            && !subject.spec_is_deleted(),
        r matches Ok(m) ==> m@ == single(
            Op::Delete,
            ModelView::ProcessSpec(ProcessSpecView { deleted: Some(*now), ..subject@ }),
        ),
{
    match check_company(caller, member, company, Permission::CompanyUpdateProcessSpecs, CompanyPermission::ProcessSpecDelete) {
        Ok(()) => {},
        Err(e) => {
            return Err(e);
        },
    }
    if subject.is_deleted() {
        return Err(deleted("process_spec"));
    }
    let mut subject = subject;
    subject.set_deleted(Some(*now));
    Ok(Modifications::new_single(Op::Delete, Model::ProcessSpec(subject)))
}

} // verus!
