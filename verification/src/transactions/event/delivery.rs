//! Delivery events: dropping a resource off out of a process, and picking a
//! resource up into a process.

use crate::access::Permission;
use crate::costs::{Costs, CostsView};
use crate::error::Error;
use crate::measure::Measure;
use crate::models::company::{Company, Permission as CompanyPermission};
use crate::models::event::EventID;
use crate::models::member::Member;
use crate::models::process::Process;
use crate::models::resource::{resource_unit, Resource};
use crate::models::user::User;
use crate::models::vf;
use crate::models::Modifications;
use crate::num::Num;
use crate::time::Timestamp;
use crate::transactions::event::{linked_event, linked_state, measure_for, measure_in, record_linked, recorded};
use crate::transactions::{check_company, company_ok, company_rejects};
use vstd::prelude::*;

verus! {

/// Drop off a resource out of a process (at a new location, if given): the given costs move from the process into the resource.
pub fn dropoff(
    caller: &User,
    member: &Member,
    company: &Company,
    id: EventID,
    process: Process,
    resource: Resource,
    move_costs: Costs,
    new_location: Option<String>,
    note: Option<String>,
    now: &Timestamp,
) -> (r: Result<Modifications, Error>)
    ensures
        company_rejects(r, *caller, *member, *company, Permission::EventCreate, CompanyPermission::Dropoff),
        company_ok(*caller, *member, *company, Permission::EventCreate, CompanyPermission::Dropoff) ==> recorded(
            r,
            linked_event(
                vf::Action::Dropoff,
                *company,
                id,
                process,
                false,
                resource,
                move_costs@,
                None,
                None,
                new_location,
                note,
                *now,
            ),
            linked_state(process, false, resource),
            *now,
        ),
{
    match check_company(caller, member, company, Permission::EventCreate, CompanyPermission::Dropoff) {
        Ok(()) => {},
        Err(e) => {
            return Err(e);
        },
    }
    record_linked(
        vf::Action::Dropoff,
        company,
        id,
        process,
        false,
        resource,
        move_costs,
        None,
        None,
        new_location,
        note,
        now,
    )
}

/// Pick up a resource into a process (moving no costs).
pub fn pickup(
    caller: &User,
    member: &Member,
    company: &Company,
    id: EventID,
    resource: Resource,
    process: Process,
    note: Option<String>,
    now: &Timestamp,
) -> (r: Result<Modifications, Error>)
    ensures
        company_rejects(r, *caller, *member, *company, Permission::EventCreate, CompanyPermission::Pickup),
        company_ok(*caller, *member, *company, Permission::EventCreate, CompanyPermission::Pickup) ==> recorded(
            r,
            linked_event(
                vf::Action::Pickup,
                *company,
                id,
                process,
                true,
                resource,
                CostsView::empty(),
                None,
                None,
                None,
                note,
                *now,
            ),
            linked_state(process, true, resource),
            *now,
        ),
{
    match check_company(caller, member, company, Permission::EventCreate, CompanyPermission::Pickup) {
        Ok(()) => {},
        Err(e) => {
            return Err(e);
        },
    }
    record_linked(
        vf::Action::Pickup,
        company,
        id,
        process,
        true,
        resource,
        Costs::new(),
        None,
        None,
        None,
        note,
        now,
    )
}

} // verus!
