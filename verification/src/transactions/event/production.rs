//! Production events: citing a resource in a process, consuming a resource
//! in a process, using one, and producing a resource out of a process.

use crate::access::Permission;
use crate::costs::{Costs, CostsView};
use crate::error::Error;
use crate::measure::Measure;
use crate::models::company::{Company, Permission as CompanyPermission};
use crate::models::event::EventID;
use crate::models::member::Member;
use crate::models::process::Process;
use crate::models::resource::{resource_unit, Resource};
use crate::models::user::User;
use crate::models::vf;
use crate::models::Modifications;
use crate::num::Num;
use crate::time::Timestamp;
use crate::transactions::event::{linked_event, linked_state, measure_for, measure_in, record_linked, recorded};
use crate::transactions::{check_company, company_ok, company_rejects};
use vstd::prelude::*;

verus! {

/// Cite a resource (a design, a specification, ...) as an input of a process: the process takes on the given costs from the resource.
pub fn cite(
    caller: &User,
    member: &Member,
    company: &Company,
    id: EventID,
    resource: Resource,
    process: Process,
    move_costs: Costs,
    note: Option<String>,
    now: &Timestamp,
) -> (r: Result<Modifications, Error>)
    ensures
        company_rejects(r, *caller, *member, *company, Permission::EventCreate, CompanyPermission::Cite),
        company_ok(*caller, *member, *company, Permission::EventCreate, CompanyPermission::Cite) ==> recorded(
            r,
            linked_event(
                vf::Action::Cite,
                *company,
                id,
                process,
                true,
                resource,
                move_costs@,
                None,
                None,
                None,
                note,
                *now,
            ),
            linked_state(process, true, resource),
            *now,
        ),
{
    match check_company(caller, member, company, Permission::EventCreate, CompanyPermission::Cite) {
        Ok(()) => {},
        Err(e) => {
            return Err(e);
        },
    }
    record_linked(
        vf::Action::Cite,
        company,
        id,
        process,
        true,
        resource,
        move_costs,
        None,
        None,
        None,
        note,
        now,
    )
}

/// Consume (some of) a resource as an input of a process: its quantity goes down, and the given costs move into the process.
pub fn consume(
    caller: &User,
    member: &Member,
    company: &Company,
    id: EventID,
    resource: Resource,
    process: Process,
    move_costs: Costs,
    move_measure: Num,
    note: Option<String>,
    now: &Timestamp,
) -> (r: Result<Modifications, Error>)
    ensures
        company_rejects(r, *caller, *member, *company, Permission::EventCreate, CompanyPermission::Consume),
        company_ok(*caller, *member, *company, Permission::EventCreate, CompanyPermission::Consume) ==> match resource_unit(resource.inner) {
            None => r == Err::<Modifications, Error>(Error::ResourceMeasureMissing),
            Some(u) => recorded(
                r,
                linked_event(
                vf::Action::Consume,
                *company,
                id,
                process,
                true,
                resource,
                move_costs@,
                Some(measure_in(u, move_measure)),
                None,
                None,
                note,
                *now,
            ),
                linked_state(process, true, resource),
                *now,
            ),
        },
{
    match check_company(caller, member, company, Permission::EventCreate, CompanyPermission::Consume) {
        Ok(()) => {},
        Err(e) => {
            return Err(e);
        },
    }
    let measure = match measure_for(&resource, move_measure) {
        Ok(m) => m,
        Err(e) => {
            return Err(e);
        },
    };
    record_linked(
        vf::Action::Consume,
        company,
        id,
        process,
        true,
        resource,
        move_costs,
        Some(measure),
        None,
        None,
        note,
        now,
    )
}

/// Produce (some of) a resource as an output of a process: its quantity goes up, and the given costs move out of the process into it.
pub fn produce(
    caller: &User,
    member: &Member,
    company: &Company,
    id: EventID,
    process: Process,
    resource: Resource,
    move_costs: Costs,
    produce_measure: Num,
    note: Option<String>,
    now: &Timestamp,
) -> (r: Result<Modifications, Error>)
    ensures
        company_rejects(r, *caller, *member, *company, Permission::EventCreate, CompanyPermission::Produce),
        company_ok(*caller, *member, *company, Permission::EventCreate, CompanyPermission::Produce) ==> match resource_unit(resource.inner) {
            None => r == Err::<Modifications, Error>(Error::ResourceMeasureMissing),
            Some(u) => recorded(
                r,
                linked_event(
                vf::Action::Produce,
                *company,
                id,
                process,
                false,
                resource,
                move_costs@,
                Some(measure_in(u, produce_measure)),
                None,
                None,
                note,
                *now,
            ),
                linked_state(process, false, resource),
                *now,
            ),
        },
{
    match check_company(caller, member, company, Permission::EventCreate, CompanyPermission::Produce) {
        Ok(()) => {},
        Err(e) => {
            return Err(e);
        },
    }
    let measure = match measure_for(&resource, produce_measure) {
        Ok(m) => m,
        Err(e) => {
            return Err(e);
        },
    };
    record_linked(
        vf::Action::Produce,
        company,
        id,
        process,
        false,
        resource,
        move_costs,
        Some(measure),
        None,
        None,
        note,
        now,
    )
}

/// Use a resource (a machine, a tool, ...) as an input of a process: the given costs move from the resource into the process.
pub fn useeee(
    caller: &User,
    member: &Member,
    company: &Company,
    id: EventID,
    resource: Resource,
    process: Process,
    move_costs: Costs,
    effort_quantity: Option<Measure>,
    note: Option<String>,
    now: &Timestamp,
) -> (r: Result<Modifications, Error>)
    ensures
        company_rejects(r, *caller, *member, *company, Permission::EventCreate, CompanyPermission::Use),
        company_ok(*caller, *member, *company, Permission::EventCreate, CompanyPermission::Use) ==> recorded(
            r,
            linked_event(
                vf::Action::Use,
                *company,
                id,
                process,
                true,
                resource,
                move_costs@,
                None,
                effort_quantity,
                None,
                note,
                *now,
            ),
            linked_state(process, true, resource),
            *now,
        ),
{
    match check_company(caller, member, company, Permission::EventCreate, CompanyPermission::Use) {
        Ok(()) => {},
        Err(e) => {
            return Err(e);
        },
    }
    record_linked(
        vf::Action::Use,
        company,
        id,
        process,
        true,
        resource,
        move_costs,
        None,
        effort_quantity,
        None,
        note,
        now,
    )
}

} // verus!
