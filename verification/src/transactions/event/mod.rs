//! Event transactions: each records an event (something that happened) and
//! saves what processing it changes.

pub mod accounting;
pub mod delivery;
pub mod modification;
pub mod production;
pub mod service;
pub mod transfer;
pub mod work;







use crate::error::Error;
use crate::measure::{Measure, Unit};
use crate::models::event::{spec_process, work_panics, Event, EventID, EventProcessState, EventProcessStateView, EventView};
use crate::models::lib::agent::AgentID;
use crate::costs::{Costs, CostsView};
use crate::models::company::Company;
use crate::models::process::Process;
use crate::models::resource::{resource_unit, Resource, ResourceID};
use crate::models::vf;
use crate::models::{Model, ModelView, ModificationView, Modifications, Op};
use crate::num::Num;
use crate::time::Timestamp;
use vstd::prelude::*;

verus! {

/// Where a moved or transferred resource goes.
#[derive(Debug, PartialEq)]
pub enum ResourceMover {
    /// Create a new resource using the given ID
    Create(ResourceID),
    /// Update the given resource
    Update(Resource),
}

/// An event with just its id, action, parties and time set.
pub open spec fn plain_event(
    id: EventID,
    action: vf::Action,
    provider: AgentID,
    receiver: AgentID,
    now: Timestamp,
) -> EventView {
    EventView {
        id,
        inner: vf::EconomicEvent {
            action,
            agreed_in: None,
            at_location: None,
            effort_quantity: None,
            has_beginning: None,
            has_end: None,
            has_point_in_time: Some(now),
            input_of: None,
            output_of: None,
            note: None,
            provider,
            receiver,
            realization_of: None,
            resource_conforms_to: None,
            resource_inventoried_as: None,
            to_resource_inventoried_as: None,
            resource_quantity: None,
            triggered_by: None,
        },
        move_costs: None,
        move_type: None,
        active: true,
        created: now,
        updated: now,
        deleted: None,
    }
}

/// An event with just its id, action, parties and time set.
pub fn new_event(id: EventID, action: vf::Action, provider: AgentID, receiver: AgentID, now: &Timestamp) -> (r:
    Event)
    ensures
        r@ == plain_event(id, action, provider, receiver, *now),
{
    Event {
        id,
        inner: vf::EconomicEvent {
            action,
            agreed_in: None,
            at_location: None,
            effort_quantity: None,
            has_beginning: None,
            has_end: None,
            has_point_in_time: Some(*now),
            input_of: None,
            output_of: None,
            note: None,
            provider,
            receiver,
            realization_of: None,
            resource_conforms_to: None,
            resource_inventoried_as: None,
            to_resource_inventoried_as: None,
            resource_quantity: None,
            triggered_by: None,
        },
        move_costs: None,
        move_type: None,
        active: true,
        created: *now,
        updated: *now,
        deleted: None,
    }
}

/// A state with nothing in it.
pub open spec fn empty_state() -> EventProcessStateView {
    EventProcessStateView {
        input_of: None,
        output_of: None,
        provider: None,
        resource: None,
        to_resource: None,
    }
}

/// What recording `ev` gives: the event to create, followed by what
/// processing it changes; or processing's error.
pub open spec fn recorded(
    r: Result<Modifications, Error>,
    ev: EventView,
    st: EventProcessStateView,
    now: Timestamp,
) -> bool {
    match spec_process(ev, st, now) {
        Ok(m) => r matches Ok(x) && x@ == seq![
            ModificationView { op: Op::Create, model: ModelView::Event(ev) },
        ] + m,
        Err(e) => r == Err::<Modifications, Error>(e),
    }
}

/// Record an event: create it, and save what processing it changes.
pub fn record(event: Event, state: EventProcessState, now: &Timestamp) -> (r: Result<
    Modifications,
    Error,
>)
    requires
        !work_panics(event@, state@),
    ensures
        recorded(r, event@, state@, *now),
{
    let evmods = match event.process(state, now) {
        Ok(m) => m,
        Err(e) => {
            return Err(e);
        },
    };
    let mut mods = Modifications::new();
    mods.push(Op::Create, Model::Event(event));
    mods.append(evmods);
    Ok(mods)
}

/// A measure of `value` in the resource's unit.
pub open spec fn measure_in(unit: Unit, value: Num) -> Measure {
    Measure { has_numerical_value: value, has_unit: unit }
}

/// A measure of `value` in the resource's unit (`ResourceMeasureMissing`
/// when the resource has no quantity to take a unit from).
pub fn measure_for(resource: &Resource, value: Num) -> (r: Result<Measure, Error>)
    ensures
        match resource_unit(resource.inner) {
            Some(u) => r == Ok::<Measure, Error>(measure_in(u, value)),
            None => r == Err::<Measure, Error>(Error::ResourceMeasureMissing),
        },
{
    match resource.get_unit() {
        Some(unit) => Ok(Measure::new(value, unit)),
        None => Err(Error::ResourceMeasureMissing),
    }
}

/// A company's event linking one of its processes (as an input with
/// `input`, else as an output) and one of its resources.
pub open spec fn linked_event(
    action: vf::Action,
    company: Company,
    id: EventID,
    process: Process,
    input: bool,
    resource: Resource,
    costs: CostsView,
    quantity: Option<Measure>,
    effort: Option<Measure>,
    location: Option<String>,
    note: Option<String>,
    now: Timestamp,
) -> EventView {
    let e = plain_event(id, action, AgentID::CompanyID(company.id), AgentID::CompanyID(company.id), now);
    EventView {
        inner: vf::EconomicEvent {
            at_location: location,
            effort_quantity: effort,
            input_of: if input {
                Some(process.id)
            } else {
                None
            },
            output_of: if input {
                None
            } else {
                Some(process.id)
            },
            note,
            resource_inventoried_as: Some(resource.id),
            resource_quantity: quantity,
            ..e.inner
        },
        move_costs: Some(costs),
        ..e
    }
}

/// The state for an event linking a process and a resource.
pub open spec fn linked_state(process: Process, input: bool, resource: Resource) -> EventProcessStateView {
    if input {
        EventProcessStateView {
            input_of: Some(process@),
            resource: Some(resource@),
            ..empty_state()
        }
    } else {
        EventProcessStateView {
            output_of: Some(process@),
            resource: Some(resource@),
            ..empty_state()
        }
    }
}

/// Record a company's event linking one of its processes and one of its
/// resources.
pub fn record_linked(
    action: vf::Action,
    company: &Company,
    id: EventID,
    process: Process,
    input: bool,
    resource: Resource,
    costs: Costs,
    quantity: Option<Measure>,
    effort: Option<Measure>,
    location: Option<String>,
    note: Option<String>,
    now: &Timestamp,
) -> (r: Result<Modifications, Error>)
    requires
        action != vf::Action::Work,
    ensures
        recorded(
            r,
            linked_event(
                action,
                *company,
                id,
                process,
                input,
                resource,
                costs@,
                quantity,
                effort,
                location,
                note,
                *now,
            ),
            linked_state(process, input, resource),
            *now,
        ),
{
    let mut event = new_event(
        id,
        action,
        AgentID::CompanyID(company.id.clone()),
        AgentID::CompanyID(company.id.clone()),
        now,
    );
    event.inner.at_location = location;
    event.inner.effort_quantity = effort;
    if input {
        event.inner.input_of = Some(process.id.clone());
    } else {
        event.inner.output_of = Some(process.id.clone());
    }
    event.inner.note = note;
    event.inner.resource_inventoried_as = Some(resource.id.clone());
    event.inner.resource_quantity = quantity;
    event.move_costs = Some(costs);
    let state = if input {
        EventProcessState::builder().input_of(process).resource(resource)
    } else {
        EventProcessState::builder().output_of(process).resource(resource)
    };
    record(event, state, now)
}

} // verus!
