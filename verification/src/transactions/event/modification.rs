//! Modification events: accepting a resource into a process (for repair or
//! modification), and giving it back modified.

use crate::access::Permission;
use crate::costs::{Costs, CostsView};
use crate::error::Error;
use crate::measure::Measure;
use crate::models::company::{Company, Permission as CompanyPermission};
use crate::models::event::EventID;
use crate::models::member::Member;
use crate::models::process::Process;
use crate::models::resource::{resource_unit, Resource};
use crate::models::user::User;
use crate::models::vf;
use crate::models::Modifications;
use crate::num::Num;
use crate::time::Timestamp;
use crate::transactions::event::{linked_event, linked_state, measure_for, measure_in, record_linked, recorded};
use crate::transactions::{check_company, company_ok, company_rejects};
use vstd::prelude::*;

verus! {

/// Accept (some of) a resource into a process, to modify it: its onhand quantity goes down, and no costs move.
pub fn accept(
    caller: &User,
    member: &Member,
    company: &Company,
    id: EventID,
    resource: Resource,
    process: Process,
    resource_measure: Num,
    note: Option<String>,
    now: &Timestamp,
) -> (r: Result<Modifications, Error>)
    ensures
        company_rejects(r, *caller, *member, *company, Permission::EventCreate, CompanyPermission::Accept),
        company_ok(*caller, *member, *company, Permission::EventCreate, CompanyPermission::Accept) ==> match resource_unit(resource.inner) {
            None => r == Err::<Modifications, Error>(Error::ResourceMeasureMissing),
            Some(u) => recorded(
                r,
                linked_event(
                vf::Action::Accept,
                *company,
                id,
                process,
                true,
                resource,
                CostsView::empty(),
                Some(measure_in(u, resource_measure)),
                None,
                None,
                note,
                *now,
            ),
                linked_state(process, true, resource),
                *now,
            ),
        },
{
    match check_company(caller, member, company, Permission::EventCreate, CompanyPermission::Accept) {
        Ok(()) => {},
        Err(e) => {
            return Err(e);
        },
    }
    let measure = match measure_for(&resource, resource_measure) {
        Ok(m) => m,
        Err(e) => {
            return Err(e);
        },
    };
    record_linked(
        vf::Action::Accept,
        company,
        id,
        process,
        true,
        resource,
        Costs::new(),
        Some(measure),
        None,
        None,
        note,
        now,
    )
}

/// Give back (some of) a resource modified by a process: its onhand quantity goes up, and the given costs move from the process into it.
pub fn modify(
    caller: &User,
    member: &Member,
    company: &Company,
    id: EventID,
    process: Process,
    resource: Resource,
    move_costs: Costs,
    resource_measure: Num,
    note: Option<String>,
    now: &Timestamp,
) -> (r: Result<Modifications, Error>)
    ensures
        company_rejects(r, *caller, *member, *company, Permission::EventCreate, CompanyPermission::Modify),
        company_ok(*caller, *member, *company, Permission::EventCreate, CompanyPermission::Modify) ==> match resource_unit(resource.inner) {
            None => r == Err::<Modifications, Error>(Error::ResourceMeasureMissing),
            Some(u) => recorded(
                r,
                linked_event(
                vf::Action::Modify,
                *company,
                id,
                process,
                false,
                resource,
                move_costs@,
                Some(measure_in(u, resource_measure)),
                None,
                None,
                note,
                *now,
            ),
                linked_state(process, false, resource),
                *now,
            ),
        },
{
    match check_company(caller, member, company, Permission::EventCreate, CompanyPermission::Modify) {
        Ok(()) => {},
        Err(e) => {
            return Err(e);
        },
    }
    let measure = match measure_for(&resource, resource_measure) {
        Ok(m) => m,
        Err(e) => {
            return Err(e);
        },
    };
    record_linked(
        vf::Action::Modify,
        company,
        id,
        process,
        false,
        resource,
        move_costs,
        Some(measure),
        None,
        None,
        note,
        now,
    )
}

} // verus!
