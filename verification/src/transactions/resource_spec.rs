//! Resource specifications: creating, updating and deleting them.

use crate::access::Permission;
use crate::error::Error;
use crate::measure::Unit;
use crate::models::company::{Company, Permission as CompanyPermission};
use crate::models::member::Member;
use crate::models::resource_spec::{ResourceSpec, ResourceSpecID, ResourceSpecView};
use crate::models::user::User;
use crate::models::vf;
use crate::models::{Model, ModelView, Modifications, Op};
use crate::time::Timestamp;
use crate::transactions::{check_company, company_ok, company_rejects, deleted, is_deleted_err, pick, single};
use vstd::prelude::*;

verus! {

/// Create a resource specification for the company.
pub fn create(
    caller: &User,
    member: &Member,
    company: &Company,
    id: ResourceSpecID,
    name: String,
    note: String,
    classifications: Vec<String>,
    default_unit_of_effort: Option<Unit>,
    default_unit_of_resource: Option<Unit>,
    active: bool,
    now: &Timestamp,
) -> (r: Result<Modifications, Error>)
    ensures
        company_rejects(r, *caller, *member, *company, Permission::CompanyUpdateResourceSpecs, CompanyPermission::ResourceSpecCreate),
        r is Ok <==> company_ok(*caller, *member, *company, Permission::CompanyUpdateResourceSpecs, CompanyPermission::ResourceSpecCreate),
        r matches Ok(m) ==> m@ == single(
            Op::Create,
            ModelView::ResourceSpec(
                ResourceSpecView {
                    id,
                    inner: vf::ResourceSpecification {
                        name,
                        note: Some(note),
                        default_unit_of_effort,
                        default_unit_of_resource,
                    },
                    resource_classified_as: classifications@,
                    company_id: company.id,
                    active,
                    created: *now,
                    updated: *now,
                    deleted: None,
                },
            ),
        ),
{
    match check_company(caller, member, company, Permission::CompanyUpdateResourceSpecs, CompanyPermission::ResourceSpecCreate) {
        Ok(()) => {},
        Err(e) => {
            return Err(e);
        },
    }
    let model = ResourceSpec {
        id,
        inner: vf::ResourceSpecification {
            name,
            note: Some(note),
            default_unit_of_effort,
            default_unit_of_resource,
        },
        resource_classified_as: classifications,
        company_id: company.id.clone(),
        active,
        created: *now,
        updated: *now,
        deleted: None,
    };
    Ok(Modifications::new_single(Op::Create, Model::ResourceSpec(model)))
}

/// Update a resource specification (the fields given).
pub fn update(
    caller: &User,
    member: &Member,
    company: &Company,
    subject: ResourceSpec,
    name: Option<String>,
    note: Option<String>,
    classifications: Option<Vec<String>>,
    default_unit_of_effort: Option<Unit>,
    default_unit_of_resource: Option<Unit>,
    active: Option<bool>,
    now: &Timestamp,
) -> (r: Result<Modifications, Error>)
    ensures
        company_rejects(r, *caller, *member, *company, Permission::CompanyUpdateResourceSpecs, CompanyPermission::ResourceSpecUpdate),
        r is Ok <==> company_ok(*caller, *member, *company, Permission::CompanyUpdateResourceSpecs, CompanyPermission::ResourceSpecUpdate),
        r matches Ok(m) ==> m@ == single(
            Op::Update,
            ModelView::ResourceSpec(
                ResourceSpecView {
                    inner: vf::ResourceSpecification {
                        name: pick(name, subject.inner.name),
                        note: if note is Some {
                            note
                        } else {
                            subject.inner.note
                        },
                        default_unit_of_effort: if default_unit_of_effort is Some {
                            default_unit_of_effort
                        } else {
                            subject.inner.default_unit_of_effort
                        },
                        default_unit_of_resource: if default_unit_of_resource is Some {
                            default_unit_of_resource
                        } else {
                            subject.inner.default_unit_of_resource
                        },
                    },
                    resource_classified_as: match classifications {
                        Some(c) => c@,
                        None => subject.resource_classified_as@,
                    },
                    active: pick(active, subject.active),
                    updated: *now,
                    ..subject@
                },
            ),
        ),
{
    match check_company(caller, member, company, Permission::CompanyUpdateResourceSpecs, CompanyPermission::ResourceSpecUpdate) {
        Ok(()) => {},
        Err(e) => {
            return Err(e);
        },
    }
    let mut subject = subject;
    if let Some(name) = name {
        subject.inner.name = name;
    }
    if let Some(note) = note {
        subject.inner.note = Some(note);
    }
    if let Some(c) = classifications {
        subject.resource_classified_as = c;
    }
    if default_unit_of_effort.is_some() {
        subject.inner.default_unit_of_effort = default_unit_of_effort;
    }
    if default_unit_of_resource.is_some() {
        subject.inner.default_unit_of_resource = default_unit_of_resource;
    }
    if let Some(active) = active {
        subject.active = active;
    }
    subject.updated = *now;
    Ok(Modifications::new_single(Op::Update, Model::ResourceSpec(subject)))
}

/// Delete a resource specification (one not deleted already).
pub fn delete(caller: &User, member: &Member, company: &Company, subject: ResourceSpec, now: &Timestamp) -> (r:
    Result<Modifications, Error>)
    ensures
        company_rejects(r, *caller, *member, *company, Permission::CompanyUpdateResourceSpecs, CompanyPermission::ResourceSpecDelete),
        company_ok(*caller, *member, *company, Permission::CompanyUpdateResourceSpecs, CompanyPermission::ResourceSpecDelete)
            && subject.spec_is_deleted() ==> (r matches Err(e) && is_deleted_err(e, "resource_spec"@)),
        r is Ok <==> company_ok(*caller, *member, *company, Permission::CompanyUpdateResourceSpecs, CompanyPermission::ResourceSpecDelete)
            && !subject.spec_is_deleted(),
        r matches Ok(m) ==> m@ == single(
            Op::Delete,
            ModelView::ResourceSpec(ResourceSpecView { deleted: Some(*now), ..subject@ }),
        ),
{
    match check_company(caller, member, company, Permission::CompanyUpdateResourceSpecs, CompanyPermission::ResourceSpecDelete) {
        Ok(()) => {},
        Err(e) => {
            return Err(e);
        },
    }
    if subject.is_deleted() {
        return Err(deleted("resource_spec"));
    }
    let mut subject = subject;
    subject.set_deleted(Some(*now));
    Ok(Modifications::new_single(Op::Delete, Model::ResourceSpec(subject)))
}

} // verus!
