//! Transfer events: moving a resource (or part of it) from one company to
//! another, under an agreement: its ownership and custody, its ownership
//! only, or its custody only.

use crate::access::Permission;
use crate::costs::CostsView;
use crate::error::Error;
use crate::measure::Measure;
use crate::models::agreement::Agreement;
use crate::models::company::{Company, Permission as CompanyPermission};
use crate::models::event::{EventID, EventProcessState, EventView};
use crate::models::lib::agent::AgentID;
use crate::models::member::Member;
use crate::models::resource::{resource_unit, Resource};
use crate::models::user::User;
use crate::models::vf;
use crate::models::Modifications;
use crate::num::Num;
use crate::number::Ratio;
use crate::time::Timestamp;
use crate::transactions::event::accounting::{mover_id, mover_state, split_mover};
use crate::transactions::event::service::{check_exchange, exchange_ok, exchange_rejects};
use crate::transactions::event::{measure_for, measure_in, new_event, plain_event, record, recorded, ResourceMover};
use crate::transactions::{check_company, company_ok, company_rejects};
use vstd::prelude::*;

verus! {

/// The event of a resource transferred between companies.
pub open spec fn transfer_event(
    action: vf::Action,
    company_from: Company,
    company_to: Company,
    agreement: Agreement,
    id: EventID,
    resource_from: Resource,
    resource_to: ResourceMover,
    move_costs: CostsView,
    measure: Measure,
    agreed_in: Option<String>,
    note: Option<String>,
    now: Timestamp,
) -> EventView {
    let e = plain_event(
        id,
        action,
        AgentID::CompanyID(company_from.id),
        AgentID::CompanyID(company_to.id),
        now,
    );
    EventView {
        inner: vf::EconomicEvent {
            agreed_in,
            note,
            realization_of: Some(agreement.id),
            resource_inventoried_as: Some(resource_from.id),
            resource_quantity: Some(measure),
            to_resource_inventoried_as: Some(mover_id(resource_to)),
            ..e.inner
        },
        move_costs: Some(move_costs),
        ..e
    }
}

/// What transferring gives, once the caller and the companies are checked:
/// the measure is taken in the resource's unit, and the costs moved are the
/// resource's costs times the ratio.
pub open spec fn transfer_outcome(
    r: Result<Modifications, Error>,
    action: vf::Action,
    company_from: Company,
    company_to: Company,
    agreement: Agreement,
    id: EventID,
    resource_from: Resource,
    resource_to: ResourceMover,
    move_costs_ratio: Ratio,
    move_measure: Num,
    agreed_in: Option<String>,
    note: Option<String>,
    now: Timestamp,
) -> bool {
    match resource_unit(resource_from.inner) {
        None => r == Err::<Modifications, Error>(Error::ResourceMeasureMissing),
        Some(u) => match resource_from.costs@.times(move_costs_ratio.num()) {
            None => r == Err::<Modifications, Error>(Error::NumericOverflow),
            Some(mc) => recorded(
                r,
                transfer_event(
                    action,
                    company_from,
                    company_to,
                    agreement,
                    id,
                    resource_from,
                    resource_to,
                    mc,
                    measure_in(u, move_measure),
                    agreed_in,
                    note,
                    now,
                ),
                mover_state(resource_from, resource_to),
                now,
            ),
        },
    }
}

fn transfer_inner(
    action: vf::Action,
    company_from: &Company,
    company_to: &Company,
    agreement: &Agreement,
    id: EventID,
    resource_from: Resource,
    resource_to: ResourceMover,
    move_costs_ratio: Ratio,
    move_measure: Num,
    agreed_in: Option<String>,
    note: Option<String>,
    now: &Timestamp,
) -> (r: Result<Modifications, Error>)
    requires
        action != vf::Action::Work,
    ensures
        transfer_outcome(
            r,
            action,
            *company_from,
            *company_to,
            *agreement,
            id,
            resource_from,
            resource_to,
            move_costs_ratio,
            move_measure,
            agreed_in,
            note,
            *now,
        ),
{
    let measure = match measure_for(&resource_from, move_measure) {
        Ok(m) => m,
        Err(e) => {
            return Err(e);
        },
    };
    let move_costs = match resource_from.costs.clone().mul(move_costs_ratio.inner()) {
        Some(c) => c,
        None => {
            return Err(Error::NumericOverflow);
        },
    };
    let mut event = new_event(
        id,
        action,
        AgentID::CompanyID(company_from.id.clone()),
        AgentID::CompanyID(company_to.id.clone()),
        now,
    );
    let (to_id, to_resource) = split_mover(resource_to);
    event.inner.agreed_in = agreed_in;
    event.inner.note = note;
    event.inner.realization_of = Some(agreement.id.clone());
    event.inner.resource_inventoried_as = Some(resource_from.id.clone());
    event.inner.resource_quantity = Some(measure);
    event.inner.to_resource_inventoried_as = Some(to_id);
    event.move_costs = Some(move_costs);
    let mut state = EventProcessState::builder().resource(resource_from);
    if let Some(res) = to_resource {
        state = state.to_resource(res);
    }
    record(event, state, now)
}

/// Transfer (some of) a resource to another company: its ownership and custody. The costs that move with it are the resource's costs times the ratio.
pub fn transfer(
    caller: &User,
    member: &Member,
    company_from: &Company,
    company_to: &Company,
    agreement: &Agreement,
    id: EventID,
    resource_from: Resource,
    resource_to: ResourceMover,
    move_costs_ratio: Ratio,
    move_measure: Num,
    agreed_in: Option<String>,
    note: Option<String>,
    now: &Timestamp,
) -> (r: Result<Modifications, Error>)
    ensures
        company_rejects(
            r,
            *caller,
            *member,
            *company_from,
            Permission::EventCreate,
            CompanyPermission::Transfer,
        ),
        company_ok(
            *caller,
            *member,
            *company_from,
            Permission::EventCreate,
            CompanyPermission::Transfer,
        ) ==> exchange_rejects(r, *company_from, *company_to, *agreement),
        company_ok(
            *caller,
            *member,
            *company_from,
            Permission::EventCreate,
            CompanyPermission::Transfer,
        ) && exchange_ok(*company_from, *company_to, *agreement) ==> transfer_outcome(
            r,
            vf::Action::Transfer,
            *company_from,
            *company_to,
            *agreement,
            id,
            resource_from,
            resource_to,
            move_costs_ratio,
            move_measure,
            agreed_in,
            note,
            *now,
        ),
{
    match check_company(
        caller,
        member,
        company_from,
        Permission::EventCreate,
        CompanyPermission::Transfer,
    ) {
        Ok(()) => {},
        Err(e) => {
            return Err(e);
        },
    }
    match check_exchange(company_from, company_to, agreement) {
        Ok(()) => {},
        Err(e) => {
            return Err(e);
        },
    }
    transfer_inner(
        vf::Action::Transfer,
        company_from,
        company_to,
        agreement,
        id,
        resource_from,
        resource_to,
        move_costs_ratio,
        move_measure,
        agreed_in,
        note,
        now,
    )
}

/// Transfer the ownership of (some of) a resource to another company, keeping custody of it. The costs that move with it are the resource's costs times the ratio.
pub fn transfer_all_rights(
    caller: &User,
    member: &Member,
    company_from: &Company,
    company_to: &Company,
    agreement: &Agreement,
    id: EventID,
    resource_from: Resource,
    resource_to: ResourceMover,
    move_costs_ratio: Ratio,
    move_measure: Num,
    agreed_in: Option<String>,
    note: Option<String>,
    now: &Timestamp,
) -> (r: Result<Modifications, Error>)
    ensures
        company_rejects(
            r,
            *caller,
            *member,
            *company_from,
            Permission::EventCreate,
            CompanyPermission::TransferAllRights,
        ),
        company_ok(
            *caller,
            *member,
            *company_from,
            Permission::EventCreate,
            CompanyPermission::TransferAllRights,
        ) ==> exchange_rejects(r, *company_from, *company_to, *agreement),
        company_ok(
            *caller,
            *member,
            *company_from,
            Permission::EventCreate,
            CompanyPermission::TransferAllRights,
        ) && exchange_ok(*company_from, *company_to, *agreement) ==> transfer_outcome(
            r,
            vf::Action::TransferAllRights,
            *company_from,
            *company_to,
            *agreement,
            id,
            resource_from,
            resource_to,
            move_costs_ratio,
            move_measure,
            agreed_in,
            note,
            *now,
        ),
{
    match check_company(
        caller,
        member,
        company_from,
        Permission::EventCreate,
        CompanyPermission::TransferAllRights,
    ) {
        Ok(()) => {},
        Err(e) => {
            return Err(e);
        },
    }
    match check_exchange(company_from, company_to, agreement) {
        Ok(()) => {},
        Err(e) => {
            return Err(e);
        },
    }
    transfer_inner(
        vf::Action::TransferAllRights,
        company_from,
        company_to,
        agreement,
        id,
        resource_from,
        resource_to,
        move_costs_ratio,
        move_measure,
        agreed_in,
        note,
        now,
    )
}

/// Transfer the custody of (some of) a resource to another company, keeping its ownership. The costs that move with it are the resource's costs times the ratio.
pub fn transfer_custody(
    caller: &User,
    member: &Member,
    company_from: &Company,
    company_to: &Company,
    agreement: &Agreement,
    id: EventID,
    resource_from: Resource,
    resource_to: ResourceMover,
    move_costs_ratio: Ratio,
    move_measure: Num,
    agreed_in: Option<String>,
    note: Option<String>,
    now: &Timestamp,
) -> (r: Result<Modifications, Error>)
    ensures
        company_rejects(
            r,
            *caller,
            *member,
            *company_from,
            Permission::EventCreate,
            CompanyPermission::TransferCustody,
        ),
        company_ok(
            *caller,
            *member,
            *company_from,
            Permission::EventCreate,
            CompanyPermission::TransferCustody,
        ) ==> exchange_rejects(r, *company_from, *company_to, *agreement),
        company_ok(
            *caller,
            *member,
            *company_from,
            Permission::EventCreate,
            CompanyPermission::TransferCustody,
        ) && exchange_ok(*company_from, *company_to, *agreement) ==> transfer_outcome(
            r,
            vf::Action::TransferCustody,
            *company_from,
            *company_to,
            *agreement,
            id,
            resource_from,
            resource_to,
            move_costs_ratio,
            move_measure,
            agreed_in,
            note,
            *now,
        ),
{
    match check_company(
        caller,
        member,
        company_from,
        Permission::EventCreate,
        CompanyPermission::TransferCustody,
    ) {
        Ok(()) => {},
        Err(e) => {
            return Err(e);
        },
    }
    match check_exchange(company_from, company_to, agreement) {
        Ok(()) => {},
        Err(e) => {
            return Err(e);
        },
    }
    transfer_inner(
        vf::Action::TransferCustody,
        company_from,
        company_to,
        agreement,
        id,
        resource_from,
        resource_to,
        move_costs_ratio,
        move_measure,
        agreed_in,
        note,
        now,
    )
}

} // verus!
