//! Resources: creating, updating and deleting them.

use crate::access::Permission;
use crate::costs::{Costs, CostsView};
use crate::error::Error;
use crate::measure::Unit;
use crate::models::company::{Company, Permission as CompanyPermission};
use crate::models::ids::ResourceSpecID;
use crate::models::lib::agent::AgentID;
use crate::models::member::Member;
use crate::models::resource::{Resource, ResourceID, ResourceView};
use crate::models::user::User;
use crate::models::vf;
use crate::models::{Model, ModelView, Modifications, Op};
use crate::time::Timestamp;
use crate::transactions::{check_company, company_ok, company_rejects, deleted, is_deleted_err, pick, single};
use vstd::prelude::*;

verus! {

/// The value given, else the current one.
pub open spec fn given<T>(o: Option<T>, d: Option<T>) -> Option<T> {
    if o is Some {
        o
    } else {
        d
    }
}

/// Create a resource: the company owns it, holds it, and it has no costs and
/// no quantities yet.
pub fn create(
    caller: &User,
    member: &Member,
    company: &Company,
    id: ResourceID,
    spec_id: ResourceSpecID,
    lot: Option<String>,
    name: Option<String>,
    tracking_id: Option<String>,
    classified_as: Vec<String>,
    note: Option<String>,
    unit_of_effort: Option<Unit>,
    active: bool,
    now: &Timestamp,
) -> (r: Result<Modifications, Error>)
    ensures
        company_rejects(
            r,
            *caller,
            *member,
            *company,
            Permission::CompanyUpdateResources,
            CompanyPermission::ResourceCreate,
        ),
        r is Ok <==> company_ok(
            *caller,
            *member,
            *company,
            Permission::CompanyUpdateResources,
            CompanyPermission::ResourceCreate,
        ),
        r matches Ok(m) ==> m@ == single(
            Op::Create,
            ModelView::Resource(
                ResourceView {
                    id,
                    inner: vf::EconomicResource {
                        accounting_quantity: None,
                        onhand_quantity: None,
                        primary_accountable: Some(AgentID::CompanyID(company.id)),
                        conforms_to: spec_id,
                        current_location: None,
                        lot,
                        name,
                        note,
                        tracking_identifier: tracking_id,
                        unit_of_effort,
                    },
                    classified_as: classified_as@,
                    in_custody_of: AgentID::CompanyID(company.id),
                    costs: CostsView::empty(),
                    active,
                    created: *now,
                    updated: *now,
                    deleted: None,
                },
            ),
        ),
{
    match check_company(
        caller,
        member,
        company,
        Permission::CompanyUpdateResources,
        CompanyPermission::ResourceCreate,
    ) {
        Ok(()) => {},
        Err(e) => {
            return Err(e);
        },
    }
    let model = Resource {
        id,
        inner: vf::EconomicResource {
            accounting_quantity: None,
            onhand_quantity: None,
            primary_accountable: Some(AgentID::CompanyID(company.id.clone())),
            conforms_to: spec_id,
            current_location: None,
            lot,
            name,
            note,
            tracking_identifier: tracking_id,
            unit_of_effort,
        },
        classified_as,
        in_custody_of: AgentID::CompanyID(company.id.clone()),
        costs: Costs::new(),
        active,
        created: *now,
        updated: *now,
        deleted: None,
    };
    Ok(Modifications::new_single(Op::Create, Model::Resource(model)))
}

/// Update a resource's lot, name, tracking id, classifications, note, unit of effort or
/// active flag (those given).
pub fn update(
    caller: &User,
    member: &Member,
    company: &Company,
    subject: Resource,
    lot: Option<String>,
    name: Option<String>,
    tracking_id: Option<String>,
    classified_as: Option<Vec<String>>,
    note: Option<String>,
    unit_of_effort: Option<Unit>,
    active: Option<bool>,
    now: &Timestamp,
) -> (r: Result<Modifications, Error>)
    ensures
        company_rejects(
            r,
            *caller,
            *member,
            *company,
            Permission::CompanyUpdateResources,
            CompanyPermission::ResourceUpdate,
        ),
        r is Ok <==> company_ok(
            *caller,
            *member,
            *company,
            Permission::CompanyUpdateResources,
            CompanyPermission::ResourceUpdate,
        ),
        r matches Ok(m) ==> m@ == single(
            Op::Update,
            ModelView::Resource(
                ResourceView {
                    inner: vf::EconomicResource {
                        lot: given(lot, subject.inner.lot),
                        name: given(name, subject.inner.name),
                        tracking_identifier: given(tracking_id, subject.inner.tracking_identifier),
                        note: given(note, subject.inner.note),
                        unit_of_effort: given(unit_of_effort, subject.inner.unit_of_effort),
                        ..subject.inner
                    },
                    classified_as: match classified_as {
                        Some(c) => c@,
                        None => subject.classified_as@,
                    },
                    active: pick(active, subject.active),
                    updated: *now,
                    ..subject@
                },
            ),
        ),
{
    match check_company(
        caller,
        member,
        company,
        Permission::CompanyUpdateResources,
        CompanyPermission::ResourceUpdate,
    ) {
        Ok(()) => {},
        Err(e) => {
            return Err(e);
        },
    }
    let mut subject = subject;
    if lot.is_some() {
        subject.inner.lot = lot;
    }
    if name.is_some() {
        subject.inner.name = name;
    }
    if tracking_id.is_some() {
        subject.inner.tracking_identifier = tracking_id;
    }
    if let Some(c) = classified_as {
        subject.classified_as = c;
    }
    if note.is_some() {
        subject.inner.note = note;
    }
    if unit_of_effort.is_some() {
        subject.inner.unit_of_effort = unit_of_effort;
    }
    if let Some(active) = active {
        subject.active = active;
    }
    subject.updated = *now;
    Ok(Modifications::new_single(Op::Update, Model::Resource(subject)))
}

/// Delete a resource: it cannot be deleted already, and cannot hold costs
/// (that would erase them).
pub fn delete(caller: &User, member: &Member, company: &Company, subject: Resource, now: &Timestamp) -> (r:
    Result<Modifications, Error>)
    ensures
        company_rejects(
            r,
            *caller,
            *member,
            *company,
            Permission::CompanyUpdateResources,
            CompanyPermission::ResourceDelete,
        ),
        company_ok(
            *caller,
            *member,
            *company,
            Permission::CompanyUpdateResources,
            CompanyPermission::ResourceDelete,
        ) && subject.spec_is_deleted() ==> (r matches Err(e) && is_deleted_err(e, "resource"@)),
        company_ok(
            *caller,
            *member,
            *company,
            Permission::CompanyUpdateResources,
            CompanyPermission::ResourceDelete,
        ) && !subject.spec_is_deleted() && !subject.costs@.is_zero() ==> r == Err::<
            Modifications,
            Error,
        >(Error::CannotEraseCosts),
        r is Ok <==> company_ok(
            *caller,
            *member,
            *company,
            Permission::CompanyUpdateResources,
            CompanyPermission::ResourceDelete,
        ) && !subject.spec_is_deleted() && subject.costs@.is_zero(),
        r matches Ok(m) ==> m@ == single(
            Op::Delete,
            ModelView::Resource(ResourceView { deleted: Some(*now), ..subject@ }),
        ),
{
    match check_company(
        caller,
        member,
        company,
        Permission::CompanyUpdateResources,
        CompanyPermission::ResourceDelete,
    ) {
        Ok(()) => {},
        Err(e) => {
            return Err(e);
        },
    }
    if subject.is_deleted() {
        return Err(deleted("resource"));
    }
    if !subject.costs.is_zero() {
        return Err(Error::CannotEraseCosts);
    }
    let mut subject = subject;
    subject.set_deleted(Some(*now));
    Ok(Modifications::new_single(Op::Delete, Model::Resource(subject)))
}

} // verus!
