//! Work events record labor in the system. They are how labor costs (both
//! waged and hourly labor) get attributed to processes (and as a result,
//! resources). They also act as the systemic marker for paying company
//! members: record labor, get paid.

use crate::access::Permission;
use crate::costs::{Costs, CostsView};
use crate::error::{Error, EventError};
use crate::measure::{Measure, MeasureView, Unit};
use crate::models::company::{Company, Permission as CompanyPermission};
use crate::models::event::{EventID, EventProcessState, EventProcessStateView, EventView};
use crate::models::ids::OccupationID;
use crate::models::lib::agent::AgentID;
use crate::models::member::{Member, MemberClass};
use crate::models::process::Process;
use crate::models::user::User;
use crate::models::vf;
use crate::models::Modifications;
use crate::num::{spec_quotient, Num};
use crate::time::Timestamp;
use crate::transactions::event::{empty_state, new_event, plain_event, record, recorded};
use crate::transactions::{check_company, company_ok, company_rejects};
use vstd::prelude::*;

verus! {

/// The company permission recording work needs: `Work` for one's own work,
/// `WorkAdmin` for another member's.
pub open spec fn work_permission(member: Member, worker: Member) -> CompanyPermission {
    if member.id@ == worker.id@ {
        CompanyPermission::Work
    } else {
        CompanyPermission::WorkAdmin
    }
}

/// The hours between `begin` and `end`: the milliseconds between them over
/// the milliseconds in an hour.
pub open spec fn hours_between(begin: Timestamp, end: Timestamp) -> Option<Num> {
    spec_quotient(
        Num::spec_new(end.spec_millis() - begin.spec_millis(), 0),
        Num::spec_new(3_600_000, 0),
    )
}

/// The costs a work event moves: the wage for the occupation, if one is
/// given.
pub open spec fn wage_costs(occupation: OccupationID, wage_cost: Option<Num>) -> Option<CostsView> {
    match wage_cost {
        Some(w) => CostsView::empty().with_labor(occupation@, w),
        None => Some(CostsView::empty()),
    }
}

/// The work event.
pub open spec fn work_event(
    company: Company,
    id: EventID,
    worker: Member,
    process: Process,
    costs: CostsView,
    effort: Measure,
    begin: Timestamp,
    end: Timestamp,
    note: Option<String>,
    now: Timestamp,
) -> EventView {
    let e = plain_event(
        id,
        vf::Action::Work,
        AgentID::MemberID(worker.id),
        AgentID::CompanyID(company.id),
        now,
    );
    EventView {
        inner: vf::EconomicEvent {
            agreed_in: worker.agreement,
            effort_quantity: Some(effort),
            has_beginning: Some(begin),
            has_end: Some(end),
            has_point_in_time: None,
            input_of: Some(process.id),
            note,
            ..e.inner
        },
        move_costs: Some(costs),
        ..e
    }
}

/// The state for a work event.
pub open spec fn work_state(process: Process, worker: Member) -> EventProcessStateView {
    EventProcessStateView { input_of: Some(process@), provider: Some(worker@), ..empty_state() }
}

/// What recording the work gives, once the caller and company are checked.
pub open spec fn work_outcome(
    r: Result<Modifications, Error>,
    company: Company,
    id: EventID,
    worker: Member,
    process: Process,
    wage_cost: Option<Num>,
    begin: Timestamp,
    end: Timestamp,
    note: Option<String>,
    now: Timestamp,
) -> bool {
    match hours_between(begin, end) {
        None => r == Err::<Modifications, Error>(Error::NumericOverflow),
        Some(h) => match worker.class {
            MemberClass::Worker(w) => match wage_costs(w.occupation, wage_cost) {
                None => r == Err::<Modifications, Error>(Error::NumericOverflow),
                Some(c) => exists|m: Measure|
                    m@ == MeasureView { value: h, unit: Unit::hour_name() } && recorded(
                        r,
                        #[trigger] work_event(company, id, worker, process, c, m, begin, end, note, now),
                        work_state(process, worker),
                        now,
                    ),
            },
            _ => r == Err::<Modifications, Error>(Error::MemberMustBeWorker),
        },
    }
}

/// Create a work event, with the option of passing wage data. The hours
/// worked are those between `begin` and `end`.
///
/// This creates a full work event with a defined start and end: it cannot
/// create pending work events. The hours are counted in milliseconds since
/// the epoch; an end that is not before the beginning but has fewer of them
/// (a beginning inside a leap second) would make the hours negative, which
/// the labor-hour tracking refuses by panicking, so that input is left out.
pub fn work(
    caller: &User,
    member: &Member,
    company: &Company,
    id: EventID,
    worker: Member,
    process: Process,
    wage_cost: Option<Num>,
    begin: Timestamp,
    end: Timestamp,
    note: Option<String>,
    now: &Timestamp,
) -> (r: Result<Modifications, Error>)
    requires
        wage_cost matches Some(w) ==> w.value() >= 0,
        i64::MIN <= begin.spec_millis() <= i64::MAX,
        i64::MIN <= end.spec_millis() <= i64::MAX,
        end.spec_before(begin) || begin.spec_millis() <= end.spec_millis(),
    ensures
        company_rejects(
            r,
            *caller,
            *member,
            *company,
            Permission::EventCreate,
            work_permission(*member, worker),
        ),
        company_ok(*caller, *member, *company, Permission::EventCreate, work_permission(*member, worker))
            ==> work_outcome(r, *company, id, worker, process, wage_cost, begin, end, note, *now),
{
    let ghost worker0 = worker;
    let ghost process0 = process;
    let ghost note0 = note;
    let perm = if member.id == worker.id {
        CompanyPermission::Work
    } else {
        CompanyPermission::WorkAdmin
    };
    match check_company(caller, member, company, Permission::EventCreate, perm) {
        Ok(()) => {},
        Err(e) => {
            return Err(e);
        },
    }
    let millis = (end.timestamp_millis() as i128) - (begin.timestamp_millis() as i128);
    let ms = Num::from_i128_with_scale(millis, 0);
    let per_hour = Num::from_i64(3_600_000);
    let hours = match ms.checked_div(&per_hour) {
        Some(h) => h,
        None => {
            return Err(Error::NumericOverflow);
        },
    };
    let occupation_id = match worker.occupation_id() {
        Some(o) => o.clone(),
        None => {
            return Err(Error::MemberMustBeWorker);
        },
    };
    let costs = match wage_cost {
        Some(val) => match Costs::new_with_labor(&occupation_id, val) {
            Ok(c) => c,
            Err(e) => {
                return Err(e);
            },
        },
        None => Costs::new(),
    };
    let effort = Measure::new(hours, Unit::hour());
    let ghost costs_v = costs@;
    let ghost effort_v = effort;
    let mut event = new_event(
        id,
        vf::Action::Work,
        AgentID::MemberID(worker.id.clone()),
        AgentID::CompanyID(company.id.clone()),
        now,
    );
    event.inner.agreed_in = match &worker.agreement {
        Some(a) => Some(a.clone()),
        None => None,
    };
    event.inner.effort_quantity = Some(effort);
    event.inner.has_beginning = Some(begin);
    event.inner.has_end = Some(end);
    event.inner.has_point_in_time = None;
    event.inner.input_of = Some(process.id.clone());
    event.inner.note = note;
    event.move_costs = Some(costs);
    let ghost ev = event@;
    let state = EventProcessState::builder().input_of(process).provider(worker);
    if end.before(&begin) {
        return Err(Error::Event(EventError::DateEndBeforeBegin));
    }
    proof {
        assert(end.spec_millis() >= begin.spec_millis());
        ms.lemma_value_sign();
        per_hour.lemma_value_sign();
        Num::lemma_zero();
        assert(hours.value() >= 0);
    }
    let r = record(event, state, now);
    assert(recorded(r, ev, state@, *now));
    assert(work_event(*company, id, worker0, process0, costs_v, effort_v, begin, end, note0, *now) == ev);
    r
}

} // verus!
