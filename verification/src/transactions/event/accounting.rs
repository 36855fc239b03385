//! Accounting events: lowering and raising a resource's quantity, and moving
//! costs between processes or a resource within a company.

use crate::access::Permission;
use crate::costs::{Costs, CostsView};
use crate::error::Error;
use crate::measure::Measure;
use crate::models::company::{Company, Permission as CompanyPermission};
use crate::models::event::{EventID, EventProcessState, EventProcessStateView, EventView, MoveType};
use crate::models::lib::agent::AgentID;
use crate::models::member::Member;
use crate::models::process::Process;
use crate::models::resource::{resource_unit, Resource, ResourceID, ResourceView};
use crate::models::user::User;
use crate::models::vf;
use crate::models::Modifications;
use crate::num::Num;
use crate::time::Timestamp;
use crate::transactions::event::{
    empty_state, measure_for, measure_in, new_event, plain_event, record, recorded, ResourceMover,
};
use crate::transactions::{check_company, company_ok, company_rejects};
use vstd::prelude::*;

verus! {

/// A company's event on one of its resources, by some quantity.
pub open spec fn quantity_event(
    action: vf::Action,
    company: Company,
    id: EventID,
    resource: Resource,
    measure: Measure,
    note: Option<String>,
    now: Timestamp,
) -> EventView {
    let e = plain_event(id, action, AgentID::CompanyID(company.id), AgentID::CompanyID(company.id), now);
    EventView {
        inner: vf::EconomicEvent {
            note,
            resource_inventoried_as: Some(resource.id),
            resource_quantity: Some(measure),
            ..e.inner
        },
        ..e
    }
}

/// A state of just the resource.
pub open spec fn resource_state(resource: Resource) -> EventProcessStateView {
    EventProcessStateView { resource: Some(resource@), ..empty_state() }
}

fn quantity_change(
    action: vf::Action,
    company: &Company,
    id: EventID,
    resource: Resource,
    value: Num,
    note: Option<String>,
    now: &Timestamp,
) -> (r: Result<Modifications, Error>)
    requires
        action != vf::Action::Work,
    ensures
        match resource_unit(resource.inner) {
            None => r == Err::<Modifications, Error>(Error::ResourceMeasureMissing),
            Some(u) => recorded(
                r,
                quantity_event(action, *company, id, resource, measure_in(u, value), note, *now),
                resource_state(resource),
                *now,
            ),
        },
{
    let measure = match measure_for(&resource, value) {
        Ok(m) => m,
        Err(e) => {
            return Err(e);
        },
    };
    let mut event = new_event(
        id,
        action,
        AgentID::CompanyID(company.id.clone()),
        AgentID::CompanyID(company.id.clone()),
        now,
    );
    event.inner.note = note;
    event.inner.resource_inventoried_as = Some(resource.id.clone());
    event.inner.resource_quantity = Some(measure);
    let state = EventProcessState::builder().resource(resource);
    record(event, state, now)
}

/// Lower the quantity of a resource (for instance, to account for a loss).
pub fn lower(
    caller: &User,
    member: &Member,
    company: &Company,
    id: EventID,
    resource: Resource,
    resource_measure: Num,
    note: Option<String>,
    now: &Timestamp,
) -> (r: Result<Modifications, Error>)
    ensures
        company_rejects(r, *caller, *member, *company, Permission::EventCreate, CompanyPermission::Lower),
        company_ok(*caller, *member, *company, Permission::EventCreate, CompanyPermission::Lower) ==> match resource_unit(
            resource.inner,
        ) {
            None => r == Err::<Modifications, Error>(Error::ResourceMeasureMissing),
            Some(u) => recorded(
                r,
                quantity_event(
                    vf::Action::Lower,
                    *company,
                    id,
                    resource,
                    measure_in(u, resource_measure),
                    note,
                    *now,
                ),
                resource_state(resource),
                *now,
            ),
        },
{
    match check_company(caller, member, company, Permission::EventCreate, CompanyPermission::Lower) {
        Ok(()) => {},
        Err(e) => {
            return Err(e);
        },
    }
    quantity_change(vf::Action::Lower, company, id, resource, resource_measure, note, now)
}

/// Raise the quantity of a resource (for instance, to account for a find).
pub fn raise(
    caller: &User,
    member: &Member,
    company: &Company,
    id: EventID,
    resource: Resource,
    resource_measure: Num,
    note: Option<String>,
    now: &Timestamp,
) -> (r: Result<Modifications, Error>)
    ensures
        company_rejects(r, *caller, *member, *company, Permission::EventCreate, CompanyPermission::Raise),
        company_ok(*caller, *member, *company, Permission::EventCreate, CompanyPermission::Raise) ==> match resource_unit(
            resource.inner,
        ) {
            None => r == Err::<Modifications, Error>(Error::ResourceMeasureMissing),
            Some(u) => recorded(
                r,
                quantity_event(
                    vf::Action::Raise,
                    *company,
                    id,
                    resource,
                    measure_in(u, resource_measure),
                    note,
                    *now,
                ),
                resource_state(resource),
                *now,
            ),
        },
{
    match check_company(caller, member, company, Permission::EventCreate, CompanyPermission::Raise) {
        Ok(()) => {},
        Err(e) => {
            return Err(e);
        },
    }
    quantity_change(vf::Action::Raise, company, id, resource, resource_measure, note, now)
}

/// The event moving costs from one process to another within a company.
pub open spec fn move_costs_event(
    company: Company,
    id: EventID,
    process_from: Process,
    process_to: Process,
    move_costs: CostsView,
    note: Option<String>,
    now: Timestamp,
) -> EventView {
    let e = plain_event(
        id,
        vf::Action::Move,
        AgentID::CompanyID(company.id),
        AgentID::CompanyID(company.id),
        now,
    );
    EventView {
        inner: vf::EconomicEvent {
            input_of: Some(process_to.id),
            output_of: Some(process_from.id),
            note,
            ..e.inner
        },
        move_costs: Some(move_costs),
        move_type: Some(MoveType::ProcessCosts),
        ..e
    }
}

/// Move costs from one process to another, within a company.
pub fn move_costs(
    caller: &User,
    member: &Member,
    company: &Company,
    id: EventID,
    process_from: Process,
    process_to: Process,
    costs: Costs,
    note: Option<String>,
    now: &Timestamp,
) -> (r: Result<Modifications, Error>)
    ensures
        company_rejects(
            r,
            *caller,
            *member,
            *company,
            Permission::EventCreate,
            CompanyPermission::MoveCosts,
        ),
        company_ok(*caller, *member, *company, Permission::EventCreate, CompanyPermission::MoveCosts)
            ==> recorded(
            r,
            move_costs_event(*company, id, process_from, process_to, costs@, note, *now),
            EventProcessStateView {
                output_of: Some(process_from@),
                input_of: Some(process_to@),
                ..empty_state()
            },
            *now,
        ),
{
    match check_company(caller, member, company, Permission::EventCreate, CompanyPermission::MoveCosts) {
        Ok(()) => {},
        Err(e) => {
            return Err(e);
        },
    }
    let mut event = new_event(
        id,
        vf::Action::Move,
        AgentID::CompanyID(company.id.clone()),
        AgentID::CompanyID(company.id.clone()),
        now,
    );
    event.inner.input_of = Some(process_to.id.clone());
    event.inner.output_of = Some(process_from.id.clone());
    event.inner.note = note;
    event.move_costs = Some(costs);
    event.move_type = Some(MoveType::ProcessCosts);
    let state = EventProcessState::builder().output_of(process_from).input_of(process_to);
    record(event, state, now)
}

/// The id of the resource a mover names.
pub open spec fn mover_id(m: ResourceMover) -> ResourceID {
    match m {
        ResourceMover::Create(id) => id,
        ResourceMover::Update(r) => r.id,
    }
}

/// The resource a mover hands to the event, if any.
pub open spec fn mover_resource(m: ResourceMover) -> Option<ResourceView> {
    match m {
        ResourceMover::Create(_) => None,
        ResourceMover::Update(r) => Some(r@),
    }
}

/// Split a mover into the id of the resource and the resource, if any.
pub fn split_mover(m: ResourceMover) -> (r: (ResourceID, Option<Resource>))
    ensures
        r.0 == mover_id(m),
        match r.1 {
            Some(x) => mover_resource(m) == Some(x@),
            None => mover_resource(m) is None,
        },
{
    match m {
        ResourceMover::Create(id) => (id, None),
        ResourceMover::Update(res) => (res.id.clone(), Some(res)),
    }
}

/// The state for moving a resource into another (or a new one).
pub open spec fn mover_state(from: Resource, to: ResourceMover) -> EventProcessStateView {
    EventProcessStateView {
        resource: Some(from@),
        to_resource: mover_resource(to),
        ..empty_state()
    }
}

/// The event moving a resource within a company.
pub open spec fn move_resource_event(
    company: Company,
    id: EventID,
    resource_from: Resource,
    resource_to: ResourceMover,
    move_costs: CostsView,
    measure: Measure,
    new_location: Option<String>,
    note: Option<String>,
    now: Timestamp,
) -> EventView {
    let e = plain_event(
        id,
        vf::Action::Move,
        AgentID::CompanyID(company.id),
        AgentID::CompanyID(company.id),
        now,
    );
    EventView {
        inner: vf::EconomicEvent {
            at_location: new_location,
            note,
            resource_inventoried_as: Some(resource_from.id),
            resource_quantity: Some(measure),
            to_resource_inventoried_as: Some(mover_id(resource_to)),
            ..e.inner
        },
        move_costs: Some(move_costs),
        move_type: Some(MoveType::Resource),
        ..e
    }
}

/// Move a resource (or part of it) within a company: into another resource,
/// or into a new one.
pub fn move_resource(
    caller: &User,
    member: &Member,
    company: &Company,
    id: EventID,
    resource_from: Resource,
    resource_to: ResourceMover,
    move_costs: Costs,
    resource_measure: Num,
    new_location: Option<String>,
    note: Option<String>,
    now: &Timestamp,
) -> (r: Result<Modifications, Error>)
    ensures
        company_rejects(
            r,
            *caller,
            *member,
            *company,
            Permission::EventCreate,
            CompanyPermission::MoveResource,
        ),
        company_ok(*caller, *member, *company, Permission::EventCreate, CompanyPermission::MoveResource)
            ==> match resource_unit(resource_from.inner) {
            None => r == Err::<Modifications, Error>(Error::ResourceMeasureMissing),
            Some(u) => recorded(
                r,
                move_resource_event(
                    *company,
                    id,
                    resource_from,
                    resource_to,
                    move_costs@,
                    measure_in(u, resource_measure),
                    new_location,
                    note,
                    *now,
                ),
                mover_state(resource_from, resource_to),
                *now,
            ),
        },
{
    match check_company(
        caller,
        member,
        company,
        Permission::EventCreate,
        CompanyPermission::MoveResource,
    ) {
        Ok(()) => {},
        Err(e) => {
            return Err(e);
        },
    }
    let measure = match measure_for(&resource_from, resource_measure) {
        Ok(m) => m,
        Err(e) => {
            return Err(e);
        },
    };
    let mut event = new_event(
        id,
        vf::Action::Move,
        AgentID::CompanyID(company.id.clone()),
        AgentID::CompanyID(company.id.clone()),
        now,
    );
    let (to_id, to_resource) = split_mover(resource_to);
    event.inner.at_location = new_location;
    event.inner.note = note;
    event.inner.resource_inventoried_as = Some(resource_from.id.clone());
    event.inner.resource_quantity = Some(measure);
    event.inner.to_resource_inventoried_as = Some(to_id);
    event.move_costs = Some(move_costs);
    event.move_type = Some(MoveType::Resource);
    let mut state = EventProcessState::builder().resource(resource_from);
    if let Some(res) = to_resource {
        state = state.to_resource(res);
    }
    record(event, state, now)
}

} // verus!
