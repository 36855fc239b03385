//! Service events: one company delivering a service to another.

use crate::access::Permission;
use crate::costs::{Costs, CostsView};
use crate::error::Error;
use crate::models::agreement::{is_participant, Agreement};
use crate::models::company::{Company, Permission as CompanyPermission};
use crate::models::event::{EventID, EventProcessState, EventProcessStateView, EventView};
use crate::models::lib::agent::AgentID;
use crate::models::member::Member;
use crate::models::process::Process;
use crate::models::user::User;
use crate::models::vf;
use crate::models::Modifications;
use crate::time::Timestamp;
use crate::transactions::event::{empty_state, new_event, plain_event, record, recorded};
use crate::transactions::{check_company, company_ok, company_rejects, inactive, is_inactive_err};
use vstd::prelude::*;

verus! {

/// The result of those checks.
pub open spec fn exchange_rejects(
    r: Result<Modifications, Error>,
    company_from: Company,
    company_to: Company,
    agreement: Agreement,
) -> bool {
    &&& !company_to.spec_is_active() ==> (r matches Err(e) && is_inactive_err(e, "company"@))
    &&& (company_to.spec_is_active() && !both_participate(company_from, company_to, agreement))
        ==> r == Err::<Modifications, Error>(Error::InsufficientPrivileges)
}

/// Whether both companies take part in the agreement.
pub open spec fn both_participate(company_from: Company, company_to: Company, agreement: Agreement) -> bool {
    &&& is_participant(agreement.participants@, AgentID::CompanyID(company_from.id))
    &&& is_participant(agreement.participants@, AgentID::CompanyID(company_to.id))
}

/// Whether those checks pass.
pub open spec fn exchange_ok(company_from: Company, company_to: Company, agreement: Agreement) -> bool {
    company_to.spec_is_active() && both_participate(company_from, company_to, agreement)
}

/// Check the receiving company is active and both companies take part in the
/// agreement.
pub fn check_exchange(company_from: &Company, company_to: &Company, agreement: &Agreement) -> (r: Result<
    (),
    Error,
>)
    ensures
        r is Ok <==> exchange_ok(*company_from, *company_to, *agreement),
        !company_to.spec_is_active() ==> (r matches Err(e) && is_inactive_err(e, "company"@)),
        (company_to.spec_is_active() && !both_participate(*company_from, *company_to, *agreement))
            ==> r == Err::<(), Error>(Error::InsufficientPrivileges),
{
    if !company_to.is_active() {
        return Err(inactive("company"));
    }
    if !agreement.has_participant(&AgentID::CompanyID(company_from.id.clone())) {
        return Err(Error::InsufficientPrivileges);
    }
    if !agreement.has_participant(&AgentID::CompanyID(company_to.id.clone())) {
        return Err(Error::InsufficientPrivileges);
    }
    Ok(())
}

/// The event of a service delivered between companies.
pub open spec fn service_event(
    company_from: Company,
    company_to: Company,
    agreement: Agreement,
    id: EventID,
    process_from: Process,
    process_to: Process,
    move_costs: CostsView,
    agreed_in: Option<String>,
    note: Option<String>,
    now: Timestamp,
) -> EventView {
    let e = plain_event(
        id,
        vf::Action::DeliverService,
        AgentID::CompanyID(company_from.id),
        AgentID::CompanyID(company_to.id),
        now,
    );
    EventView {
        inner: vf::EconomicEvent {
            agreed_in,
            input_of: Some(process_to.id),
            output_of: Some(process_from.id),
            note,
            realization_of: Some(agreement.id),
            ..e.inner
        },
        move_costs: Some(move_costs),
        ..e
    }
}

/// Deliver a service from one company's process to another company's process,
/// under an agreement: the given costs move between the two processes.
pub fn deliver_service(
    caller: &User,
    member: &Member,
    company_from: &Company,
    company_to: &Company,
    agreement: &Agreement,
    id: EventID,
    process_from: Process,
    process_to: Process,
    move_costs: Costs,
    agreed_in: Option<String>,
    note: Option<String>,
    now: &Timestamp,
) -> (r: Result<Modifications, Error>)
    ensures
        company_rejects(
            r,
            *caller,
            *member,
            *company_from,
            Permission::EventCreate,
            CompanyPermission::DeliverService,
        ),
        company_ok(
            *caller,
            *member,
            *company_from,
            Permission::EventCreate,
            CompanyPermission::DeliverService,
        ) ==> exchange_rejects(r, *company_from, *company_to, *agreement),
        company_ok(
            *caller,
            *member,
            *company_from,
            Permission::EventCreate,
            CompanyPermission::DeliverService,
        ) && exchange_ok(*company_from, *company_to, *agreement) ==> recorded(
            r,
            service_event(
                *company_from,
                *company_to,
                *agreement,
                id,
                process_from,
                process_to,
                move_costs@,
                agreed_in,
                note,
                *now,
            ),
            EventProcessStateView {
                output_of: Some(process_from@),
                input_of: Some(process_to@),
                ..empty_state()
            },
            *now,
        ),
{
    match check_company(
        caller,
        member,
        company_from,
        Permission::EventCreate,
        CompanyPermission::DeliverService,
    ) {
        Ok(()) => {},
        Err(e) => {
            return Err(e);
        },
    }
    match check_exchange(company_from, company_to, agreement) {
        Ok(()) => {},
        Err(e) => {
            return Err(e);
        },
    }
    let mut event = new_event(
        id,
        vf::Action::DeliverService,
        AgentID::CompanyID(company_from.id.clone()),
        AgentID::CompanyID(company_to.id.clone()),
        now,
    );
    event.inner.agreed_in = agreed_in;
    event.inner.input_of = Some(process_to.id.clone());
    event.inner.output_of = Some(process_from.id.clone());
    event.inner.note = note;
    event.inner.realization_of = Some(agreement.id.clone());
    event.move_costs = Some(move_costs);
    let state = EventProcessState::builder().output_of(process_from).input_of(process_to);
    record(event, state, now)
}

} // verus!
