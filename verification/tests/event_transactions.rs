// ---- fixtures shared by the tests in this file ----

use basis_core::access::Role;
use basis_core::costs::Costs;
use basis_core::error::Error;
use basis_core::measure::{Measure, Unit};
use basis_core::models::account::Account;
use basis_core::models::agreement::Agreement;
use basis_core::models::company::{Company, Permission as CompanyPermission};
use basis_core::models::ids::{
    AccountID, AgreementID, CompanyID, EventID, MemberID, OccupationID, ProcessID, ResourceID,
    ResourceSpecID, UserID,
};
use basis_core::models::lib::agent::AgentID;
use basis_core::models::member::{Member, MemberClass, MemberWorker};
use basis_core::models::process::Process;
use basis_core::models::resource::Resource;
use basis_core::models::user::User;
use basis_core::models::vf;
use basis_core::models::{FromModel, Modification, Modifications, Op};
use basis_core::num::Num;
use basis_core::time::Timestamp;
use rust_decimal::Decimal;
use std::str::FromStr;

#[allow(dead_code)]
fn num(s: &str) -> Num {
    let d = Decimal::from_str(s).unwrap();
    Num::from_i128_with_scale(d.mantissa(), d.scale())
}

#[allow(dead_code)]
fn whole(n: i64) -> Num {
    Num::from_i64(n)
}

#[allow(dead_code)]
fn now() -> Timestamp {
    Timestamp::new(1_600_000_000, 1_000_000)
}

#[allow(dead_code)]
fn later() -> Timestamp {
    Timestamp::new(1_600_000_600, 2_000_000)
}

#[allow(dead_code)]
fn labor(id: &str, v: i64) -> Costs {
    Costs::new_with_labor(&OccupationID::new(id), whole(v)).unwrap()
}

#[allow(dead_code)]
fn same(a: &Costs, b: &Costs) -> bool {
    a.same_as(b)
}

#[allow(dead_code)]
fn meas(v: i64, unit: &str) -> Measure {
    Measure::new(whole(v), Unit::new(unit))
}

#[allow(dead_code)]
fn expect<T: FromModel>(m: &Modification, op: Op) -> T {
    m.clone().expect_op::<T>(op).unwrap()
}

#[allow(dead_code)]
fn mods_of(r: Result<Modifications, Error>) -> Vec<Modification> {
    r.unwrap().into_vec()
}

#[allow(dead_code)]
fn make_user(id: &UserID, roles: Option<Vec<Role>>, now: &Timestamp) -> User {
    User {
        id: id.clone(),
        roles: roles.unwrap_or(vec![Role::User]),
        email: "surely@hotmail.com".to_string(),
        name: "buzzin' frog".to_string(),
        active: true,
        created: now.clone(),
        updated: now.clone(),
        deleted: None,
    }
}

#[allow(dead_code)]
fn make_company(id: &CompanyID, name: &str, now: &Timestamp) -> Company {
    Company {
        id: id.clone(),
        inner: vf::Agent { name: name.to_string(), note: None },
        email: "jerry@widgets.biz".to_string(),
        max_costs: whole(9999999),
        total_costs: Costs::new(),
        active: true,
        created: now.clone(),
        updated: now.clone(),
        deleted: None,
    }
}

#[allow(dead_code)]
fn make_member_worker(
    id: &MemberID,
    user_id: &UserID,
    company_id: &CompanyID,
    occupation_id: &OccupationID,
    permissions: Vec<CompanyPermission>,
    now: &Timestamp,
) -> Member {
    Member {
        id: id.clone(),
        inner: vf::AgentRelationship {
            subject: AgentID::UserID(user_id.clone()),
            object: AgentID::CompanyID(company_id.clone()),
            note: None,
        },
        class: MemberClass::Worker(MemberWorker::new(occupation_id.clone(), None)),
        permissions,
        agreement: None,
        active: true,
        created: now.clone(),
        updated: now.clone(),
        deleted: None,
    }
}

#[allow(dead_code)]
fn make_process(id: &ProcessID, company_id: &CompanyID, name: &str, costs: &Costs, now: &Timestamp) -> Process {
    Process {
        id: id.clone(),
        inner: vf::Process {
            name: name.to_string(),
            note: None,
            based_on: None,
            has_beginning: None,
            has_end: None,
            finished: None,
        },
        company_id: company_id.clone(),
        costs: costs.clone(),
        active: true,
        created: now.clone(),
        updated: now.clone(),
        deleted: None,
    }
}

#[allow(dead_code)]
fn make_resource(id: &ResourceID, company_id: &CompanyID, measure: &Measure, costs: &Costs, now: &Timestamp) -> Resource {
    Resource {
        id: id.clone(),
        inner: vf::EconomicResource {
            accounting_quantity: Some(measure.clone()),
            onhand_quantity: Some(measure.clone()),
            primary_accountable: Some(AgentID::CompanyID(company_id.clone())),
            conforms_to: ResourceSpecID::new("6969"),
            current_location: None,
            lot: None,
            name: None,
            note: None,
            tracking_identifier: None,
            unit_of_effort: None,
        },
        classified_as: vec![],
        in_custody_of: AgentID::CompanyID(company_id.clone()),
        costs: costs.clone(),
        active: true,
        created: now.clone(),
        updated: now.clone(),
        deleted: None,
    }
}

#[allow(dead_code)]
fn make_agreement(id: &AgreementID, participants: &Vec<AgentID>, name: &str, note: &str, now: &Timestamp) -> Agreement {
    Agreement {
        id: id.clone(),
        inner: vf::Agreement { name: Some(name.to_string()), note: Some(note.to_string()), created: Some(now.clone()) },
        participants: participants.clone(),
        active: true,
        created: now.clone(),
        updated: now.clone(),
        deleted: None,
    }
}

#[allow(dead_code)]
fn make_account(id: &AccountID, user_id: &UserID, balance: Num, name: &str, now: &Timestamp) -> Account {
    Account {
        id: id.clone(),
        user_ids: vec![user_id.clone()],
        multisig: vec![],
        name: name.to_string(),
        description: "this is my account".to_string(),
        balance,
        ubi: None,
        active: true,
        created: now.clone(),
        updated: now.clone(),
        deleted: None,
    }
}

/// A user, a company and a worker of that company with the given
/// permissions.
#[allow(dead_code)]
#[derive(Clone)]
struct TestState {
    user: User,
    member: Member,
    company: Company,
}

#[allow(dead_code)]
impl TestState {
    fn standard(permissions: Vec<CompanyPermission>, now: &Timestamp) -> TestState {
        let user = make_user(&UserID::create(), None, now);
        let company = make_company(&CompanyID::create(), "jerry's widgets", now);
        let member = make_member_worker(&MemberID::create(), &user.id, &company.id, &OccupationID::new("machinist"), permissions, now);
        TestState { user, member, company }
    }
}

/// The checks every company-scoped transaction makes: a user whose roles do
/// not allow it, a member whose permissions do not allow it, and a deleted
/// company are all turned away.
#[allow(dead_code)]
fn standard_transaction_tests<F>(state: &TestState, testfn: &F)
where
    F: Fn(&TestState) -> Result<Modifications, Error>,
{
    let mut s1 = state.clone();
    s1.user.roles = vec![];
    assert_eq!(testfn(&s1).err(), Some(Error::InsufficientPrivileges));

    let mut s2 = state.clone();
    s2.member.permissions = vec![];
    assert_eq!(testfn(&s2).err(), Some(Error::InsufficientPrivileges));

    let mut s3 = state.clone();
    s3.company.deleted = Some(now());
    assert_eq!(testfn(&s3).err(), Some(Error::ObjectIsInactive("company".to_string())));
}

/// The checks of a transaction scoped to the user alone: without a role
/// that allows it, or inactive, the user is turned away.
#[allow(dead_code)]
fn user_transaction_tests<F>(state: &TestState, testfn: &F)
where
    F: Fn(&TestState) -> Result<Modifications, Error>,
{
    let mut s1 = state.clone();
    s1.user.roles = vec![];
    assert_eq!(testfn(&s1).err(), Some(Error::InsufficientPrivileges));

    let mut s2 = state.clone();
    s2.user.active = false;
    assert_eq!(testfn(&s2).err(), Some(Error::InsufficientPrivileges));
}


#[allow(dead_code)]
fn ts(s: &str) -> Timestamp {
    let dt = chrono::DateTime::parse_from_rfc3339(s).unwrap();
    Timestamp::new(dt.timestamp(), dt.timestamp_subsec_nanos())
}

// ---- tests ----
use basis_core::error::EventError;
use basis_core::models::event::Event;

fn one(v: i64) -> Measure {
    meas(v, "one")
}

fn one_n(n: Num) -> Measure {
    Measure::new(n, Unit::new("one"))
}

fn company_agent(state: &TestState) -> AgentID {
    AgentID::CompanyID(state.company.id.clone())
}

fn other_company(name: &str) -> AgentID {
    AgentID::CompanyID(CompanyID::new(name))
}

/// What every event these transactions record has in common.
fn check_event(event: &Event, id: &EventID, note: &str, now: &Timestamp) {
    assert_eq!(&event.id, id);
    assert_eq!(event.inner.has_point_in_time, Some(now.clone()));
    assert_eq!(event.inner.note, Some(note.into()));
    assert_eq!(event.active, true);
    assert_eq!(&event.created, now);
    assert_eq!(&event.updated, now);
}
use basis_core::transactions::event::accounting::{lower, move_costs, move_resource, raise};
use basis_core::transactions::event::ResourceMover;

#[test]
fn can_lower() {
    let now = now();
    let id = EventID::create();
    let state = TestState::standard(vec![CompanyPermission::Lower], &now);
    let resource = make_resource(&ResourceID::new("widget"), &state.company.id, &one(15), &labor("homemaker", 157), &now);

    let testfn_inner = |state: &TestState, resource: &Resource| lower(&state.user, &state.member, &state.company, id.clone(), resource.clone(), whole(8), Some("a note".into()), &now);
    let testfn = |state: &TestState| testfn_inner(state, &resource);
    standard_transaction_tests(&state, &testfn);

    let mods = mods_of(testfn(&state));
    assert_eq!(mods.len(), 2);
    let event: Event = expect(&mods[0], Op::Create);
    let resource2: Resource = expect(&mods[1], Op::Update);

    check_event(&event, &id, "a note", &now);
    assert_eq!(event.inner.agreed_in, None);
    assert_eq!(event.inner.input_of, None);
    assert_eq!(event.inner.output_of, None);
    assert_eq!(event.inner.provider, company_agent(&state));
    assert_eq!(event.inner.receiver, company_agent(&state));
    assert_eq!(event.inner.resource_quantity, Some(one(8)));
    assert_eq!(event.move_costs, None);

    assert_eq!(resource2.id, resource.id);
    assert_eq!(resource2.inner.accounting_quantity, Some(one(7)));
    assert_eq!(resource2.inner.onhand_quantity, Some(one(7)));
    assert_eq!(resource2.costs, resource.costs);

    // a company that doesn't own a resource can't lower it
    let mut resource_b = resource.clone();
    resource_b.inner.primary_accountable = Some(other_company("ziggy"));
    assert_eq!(testfn_inner(&state, &resource_b), Err(Error::Event(EventError::ResourceOwnerMismatch)));

    // a company that doesn't have possession of a resource can't lower it
    let mut resource_c = resource.clone();
    resource_c.in_custody_of = other_company("ziggy");
    assert_eq!(testfn_inner(&state, &resource_c), Err(Error::Event(EventError::ResourceCustodyMismatch)));
}

#[test]
fn can_move_costs() {
    let now = now();
    let id = EventID::create();
    let state = TestState::standard(vec![CompanyPermission::MoveCosts], &now);
    let occupation_id = OccupationID::new("lawyer");
    let process_from = make_process(&ProcessID::create(), &state.company.id, "various lawyerings", &Costs::new_with_labor(&occupation_id, num("177.25")).unwrap(), &now);
    let process_to = make_process(&ProcessID::create(), &state.company.id, "overflow labor", &Costs::new_with_labor(&occupation_id, whole(804)).unwrap(), &now);
    let costs_to_move = process_from.costs.clone().mul(num("0.45")).unwrap();

    let testfn_inner = |state: &TestState, from: &Process, to: &Process| {
        move_costs(&state.user, &state.member, &state.company, id.clone(), from.clone(), to.clone(), costs_to_move.clone(), Some("my note".into()), &now)
    };
    let testfn = |state: &TestState| testfn_inner(state, &process_from, &process_to);
    standard_transaction_tests(&state, &testfn);

    let mods = mods_of(testfn(&state));
    assert_eq!(mods.len(), 3);
    let event: Event = expect(&mods[0], Op::Create);
    let process_from2: Process = expect(&mods[1], Op::Update);
    let process_to2: Process = expect(&mods[2], Op::Update);

    check_event(&event, &id, "my note", &now);
    assert_eq!(event.inner.agreed_in, None);
    assert_eq!(event.inner.input_of, Some(process_to.id.clone()));
    assert_eq!(event.inner.output_of, Some(process_from.id.clone()));
    assert_eq!(event.inner.provider, company_agent(&state));
    assert_eq!(event.inner.receiver, company_agent(&state));
    assert_eq!(event.inner.resource_quantity, None);
    assert_eq!(event.move_costs, Some(costs_to_move.clone()));

    assert_eq!(process_from2.id, process_from.id);
    assert_eq!(process_from2.company_id, state.company.id);
    assert_eq!(process_from2.costs, process_from.costs.clone().sub(costs_to_move.clone()).unwrap());

    assert_eq!(process_to2.id, process_to.id);
    assert_eq!(process_to2.company_id, state.company.id);
    assert_eq!(process_to2.costs, process_to.costs.clone().add(costs_to_move.clone()).unwrap());

    // can't move costs from a process you don't own
    let mut from_b = process_from.clone();
    from_b.company_id = CompanyID::new("zing");
    assert_eq!(testfn_inner(&state, &from_b, &process_to), Err(Error::Event(EventError::ProcessOwnerMismatch)));

    // can't move costs into a process you don't own
    let mut to_b = process_to.clone();
    to_b.company_id = CompanyID::new("zing");
    assert_eq!(testfn_inner(&state, &process_from, &to_b), Err(Error::Event(EventError::ProcessOwnerMismatch)));
}

#[test]
fn can_move_resource() {
    let now = now();
    let id = EventID::create();
    let state = TestState::standard(vec![CompanyPermission::MoveResource], &now);
    let resource = make_resource(&ResourceID::new("plank"), &state.company.id, &one(15), &labor("homemaker", 157), &now);
    let resource_to = make_resource(&ResourceID::new("plank"), &state.company.id, &one(3), &labor("homemaker", 2), &now);
    let costs_to_move = resource.costs.clone().mul(whole(8).checked_div(&whole(15)).unwrap()).unwrap();
    let loc = "somewhere".to_string();

    let testfn_inner = |state: &TestState, from: &Resource, mover: ResourceMover| {
        move_resource(&state.user, &state.member, &state.company, id.clone(), from.clone(), mover, costs_to_move.clone(), whole(8), Some(loc.clone()), Some("lol".into()), &now)
    };
    let testfn_update = |state: &TestState| testfn_inner(state, &resource, ResourceMover::Update(resource_to.clone()));
    let testfn_create = |state: &TestState| testfn_inner(state, &resource, ResourceMover::Create(resource_to.id.clone()));
    standard_transaction_tests(&state, &testfn_update);
    standard_transaction_tests(&state, &testfn_create);

    // ResourceMover::Update
    let mods = mods_of(testfn_update(&state));
    assert_eq!(mods.len(), 3);
    let event: Event = expect(&mods[0], Op::Create);
    let resource_from2: Resource = expect(&mods[1], Op::Update);
    let resource_to2: Resource = expect(&mods[2], Op::Update);

    check_event(&event, &id, "lol", &now);
    assert_eq!(event.inner.agreed_in, None);
    assert_eq!(event.inner.at_location, Some(loc.clone()));
    assert_eq!(event.inner.input_of, None);
    assert_eq!(event.inner.output_of, None);
    assert_eq!(event.inner.provider, company_agent(&state));
    assert_eq!(event.inner.receiver, company_agent(&state));
    assert_eq!(event.inner.resource_quantity, Some(one(8)));
    assert_eq!(event.move_costs, Some(costs_to_move.clone()));

    assert_eq!(resource_from2.id, resource.id);
    assert_eq!(resource_from2.inner.primary_accountable, Some(company_agent(&state)));
    assert_eq!(resource_from2.inner.accounting_quantity, Some(one(15 - 8)));
    assert_eq!(resource_from2.inner.onhand_quantity, Some(one(15 - 8)));
    assert_eq!(resource_from2.in_custody_of, company_agent(&state));
    assert_eq!(resource_from2.costs, resource.costs.clone().sub(costs_to_move.clone()).unwrap());

    assert_eq!(resource_to2.id, resource_to.id);
    assert_eq!(resource_to2.inner.primary_accountable, Some(company_agent(&state)));
    assert_eq!(resource_to2.inner.accounting_quantity, Some(one(8 + 3)));
    assert_eq!(resource_to2.inner.onhand_quantity, Some(one(8 + 3)));
    assert_eq!(resource_to2.in_custody_of, company_agent(&state));
    assert_eq!(resource_to2.costs, resource_to.costs.clone().add(costs_to_move.clone()).unwrap());

    // ResourceMover::Create
    let mods = mods_of(testfn_create(&state));
    assert_eq!(mods.len(), 3);
    let event: Event = expect(&mods[0], Op::Create);
    let resource_from3: Resource = expect(&mods[1], Op::Update);
    let resource_created: Resource = expect(&mods[2], Op::Create);

    check_event(&event, &id, "lol", &now);
    assert_eq!(event.inner.agreed_in, None);
    assert_eq!(event.inner.input_of, None);
    assert_eq!(event.inner.output_of, None);
    assert_eq!(event.inner.provider, company_agent(&state));
    assert_eq!(event.inner.receiver, company_agent(&state));
    assert_eq!(event.inner.resource_quantity, Some(one(8)));
    assert_eq!(event.move_costs, Some(costs_to_move.clone()));

    assert_eq!(resource_from3.id, resource.id);
    assert_eq!(resource_from3.inner.primary_accountable, Some(company_agent(&state)));
    assert_eq!(resource_from3.inner.accounting_quantity, Some(one(15 - 8)));
    assert_eq!(resource_from3.inner.onhand_quantity, Some(one(15 - 8)));
    assert_eq!(resource_from3.in_custody_of, company_agent(&state));
    assert_eq!(resource_from3.costs, resource.costs.clone().sub(costs_to_move.clone()).unwrap());

    assert_eq!(resource_created.id, resource_to.id);
    assert_eq!(resource_created.inner.primary_accountable, Some(company_agent(&state)));
    assert_eq!(resource_created.inner.accounting_quantity, Some(one(8)));
    assert_eq!(resource_created.inner.onhand_quantity, Some(one(8)));
    assert_eq!(resource_created.in_custody_of, company_agent(&state));
    assert_eq!(resource_created.costs, costs_to_move.clone());

    // can't move into a resource you don't own
    let mut to_b = resource_to.clone();
    to_b.inner.primary_accountable = Some(other_company("zing"));
    assert_eq!(testfn_inner(&state, &resource, ResourceMover::Update(to_b)), Err(Error::Event(EventError::ResourceOwnerMismatch)));

    // a company that doesn't own a resource can't move it
    let mut from_c = resource.clone();
    from_c.inner.primary_accountable = Some(other_company("ziggy"));
    assert_eq!(testfn_inner(&state, &from_c, ResourceMover::Update(resource_to.clone())), Err(Error::Event(EventError::ResourceOwnerMismatch)));
    assert_eq!(testfn_inner(&state, &from_c, ResourceMover::Create(resource_to.id.clone())), Err(Error::Event(EventError::ResourceOwnerMismatch)));

    // a company that doesn't have possession of a resource can't move it
    let mut from_d = resource.clone();
    from_d.in_custody_of = other_company("ziggy");
    assert_eq!(testfn_inner(&state, &from_d, ResourceMover::Update(resource_to.clone())), Err(Error::Event(EventError::ResourceCustodyMismatch)));
    assert_eq!(testfn_inner(&state, &from_d, ResourceMover::Create(resource_to.id.clone())), Err(Error::Event(EventError::ResourceCustodyMismatch)));
}

#[test]
fn can_raise() {
    let now = now();
    let id = EventID::create();
    let state = TestState::standard(vec![CompanyPermission::Raise], &now);
    let resource = make_resource(&ResourceID::new("widget"), &state.company.id, &one(15), &labor("homemaker", 157), &now);

    let testfn_inner = |state: &TestState, resource: &Resource| raise(&state.user, &state.member, &state.company, id.clone(), resource.clone(), whole(8), Some("toot".into()), &now);
    let testfn = |state: &TestState| testfn_inner(state, &resource);
    standard_transaction_tests(&state, &testfn);

    let mods = mods_of(testfn(&state));
    assert_eq!(mods.len(), 2);
    let event: Event = expect(&mods[0], Op::Create);
    let resource2: Resource = expect(&mods[1], Op::Update);

    check_event(&event, &id, "toot", &now);
    assert_eq!(event.inner.agreed_in, None);
    assert_eq!(event.inner.input_of, None);
    assert_eq!(event.inner.output_of, None);
    assert_eq!(event.inner.provider, company_agent(&state));
    assert_eq!(event.inner.receiver, company_agent(&state));
    assert_eq!(event.inner.resource_quantity, Some(one(8)));
    assert_eq!(event.move_costs, None);

    assert_eq!(resource2.id, resource.id);
    assert_eq!(resource2.inner.accounting_quantity, Some(one(23)));
    assert_eq!(resource2.inner.onhand_quantity, Some(one(23)));
    assert_eq!(resource2.costs, resource.costs);

    let mut resource_b = resource.clone();
    resource_b.inner.primary_accountable = Some(other_company("ziggy"));
    assert_eq!(testfn_inner(&state, &resource_b), Err(Error::Event(EventError::ResourceOwnerMismatch)));

    let mut resource_c = resource.clone();
    resource_c.in_custody_of = other_company("ziggy");
    assert_eq!(testfn_inner(&state, &resource_c), Err(Error::Event(EventError::ResourceCustodyMismatch)));
}

#[test]
fn moving_costs_between_processes_conserves_them() {
    let now = now();
    let state = TestState::standard(vec![CompanyPermission::MoveCosts], &now);
    let from = make_process(&ProcessID::create(), &state.company.id, "from", &labor("lawyer", 177), &now);
    let to = make_process(&ProcessID::create(), &state.company.id, "to", &labor("lawyer", 804), &now);
    let amount = labor("lawyer", 100);
    let mods = mods_of(move_costs(&state.user, &state.member, &state.company, EventID::create(), from.clone(), to.clone(), amount, None, &now));
    let from2: Process = expect(&mods[1], Op::Update);
    let to2: Process = expect(&mods[2], Op::Update);
    let occ = OccupationID::new("lawyer");
    let before = from.costs.get_labor(&occ).checked_add(&to.costs.get_labor(&occ)).unwrap();
    let after = from2.costs.get_labor(&occ).checked_add(&to2.costs.get_labor(&occ)).unwrap();
    assert_eq!(before, after);
    assert_eq!(from.costs.credits().checked_add(&to.costs.credits()).unwrap(), from2.costs.credits().checked_add(&to2.costs.credits()).unwrap());
    assert_eq!(from2.costs.get_labor(&occ), whole(77));
}
use basis_core::transactions::event::delivery::{dropoff, pickup};

#[test]
fn can_dropoff() {
    let now = now();
    let id = EventID::create();
    let state = TestState::standard(vec![CompanyPermission::Dropoff], &now);
    let occupation_id = OccupationID::new("trucker");
    let costs = Costs::new_with_labor(&occupation_id, num("42.2")).unwrap();
    let process = make_process(&ProcessID::create(), &state.company.id, "deliver widgets", &costs, &now);
    let resource = make_resource(&ResourceID::new("widget"), &state.company.id, &one(15), &labor("machinist", 157), &now);
    let loc = "somewhere".to_string();

    let testfn_inner = |state: &TestState, process: &Process, resource: &Resource| {
        dropoff(&state.user, &state.member, &state.company, id.clone(), process.clone(), resource.clone(), process.costs.clone(), Some(loc.clone()), Some("memo".into()), &now)
    };
    let testfn = |state: &TestState| testfn_inner(state, &process, &resource);
    standard_transaction_tests(&state, &testfn);

    let mods = mods_of(testfn(&state));
    assert_eq!(mods.len(), 3);
    let event: Event = expect(&mods[0], Op::Create);
    let process2: Process = expect(&mods[1], Op::Update);
    let resource2: Resource = expect(&mods[2], Op::Update);

    check_event(&event, &id, "memo", &now);
    assert_eq!(event.inner.agreed_in, None);
    assert_eq!(event.inner.input_of, None);
    assert_eq!(event.inner.output_of, Some(process.id.clone()));
    assert_eq!(event.inner.provider, company_agent(&state));
    assert_eq!(event.inner.receiver, company_agent(&state));
    assert_eq!(event.move_costs, Some(process.costs.clone()));

    assert_eq!(process2.id, process.id);
    assert_eq!(process2.company_id, state.company.id);
    assert_eq!(process2.inner.name, "deliver widgets");
    assert_eq!(process2.costs, Costs::new());

    let mut costs2 = Costs::new();
    costs2.track_labor(&occupation_id, num("42.2")).unwrap();
    costs2.track_labor(&OccupationID::new("machinist"), whole(157)).unwrap();
    assert_eq!(resource2.id, resource.id);
    assert_eq!(resource2.inner.primary_accountable, Some(company_agent(&state)));
    assert_eq!(resource2.in_custody_of, company_agent(&state));
    assert_eq!(resource2.inner.accounting_quantity, Some(one(15)));
    assert_eq!(resource2.inner.onhand_quantity, Some(one(15)));
    assert_eq!(resource2.inner.current_location, Some(loc.clone()));
    assert_eq!(resource2.costs, costs2);

    // can't drop off from a process you don't own
    let mut process_b = process.clone();
    process_b.company_id = CompanyID::new("zing");
    assert_eq!(testfn_inner(&state, &process_b, &resource), Err(Error::Event(EventError::ProcessOwnerMismatch)));

    let mut resource_c = resource.clone();
    resource_c.inner.primary_accountable = Some(other_company("ziggy"));
    assert!(testfn_inner(&state, &process, &resource_c).is_ok());

    // a company that doesn't have possession of a resource can't drop it off
    let mut resource_d = resource.clone();
    resource_d.in_custody_of = other_company("ziggy");
    assert_eq!(testfn_inner(&state, &process, &resource_d), Err(Error::Event(EventError::ResourceCustodyMismatch)));
}

#[test]
fn can_pickup() {
    let now = now();
    let id = EventID::create();
    let state = TestState::standard(vec![CompanyPermission::Pickup], &now);
    let resource = make_resource(&ResourceID::new("widget"), &state.company.id, &one(15), &labor("homemaker", 157), &now);
    let process = make_process(&ProcessID::create(), &state.company.id, "make widgets", &Costs::new(), &now);

    let testfn_inner = |state: &TestState, resource: &Resource, process: &Process| {
        pickup(&state.user, &state.member, &state.company, id.clone(), resource.clone(), process.clone(), Some("memo".into()), &now)
    };
    let testfn = |state: &TestState| testfn_inner(state, &resource, &process);
    standard_transaction_tests(&state, &testfn);

    let mods = mods_of(testfn(&state));
    assert_eq!(mods.len(), 1);
    let event: Event = expect(&mods[0], Op::Create);

    check_event(&event, &id, "memo", &now);
    assert_eq!(event.inner.agreed_in, None);
    assert_eq!(event.inner.input_of, Some(process.id.clone()));
    assert_eq!(event.inner.provider, company_agent(&state));
    assert_eq!(event.inner.receiver, company_agent(&state));
    assert_eq!(event.move_costs, Some(Costs::new()));

    let mut process_b = process.clone();
    process_b.company_id = CompanyID::new("zing");
    assert_eq!(testfn_inner(&state, &resource, &process_b), Err(Error::Event(EventError::ProcessOwnerMismatch)));

    let mut resource_c = resource.clone();
    resource_c.inner.primary_accountable = Some(other_company("ziggy"));
    assert!(testfn_inner(&state, &resource_c, &process).is_ok());

    // a company that doesn't have possession of a resource can't pick it up
    let mut resource_d = resource.clone();
    resource_d.in_custody_of = other_company("ziggy");
    assert_eq!(testfn_inner(&state, &resource_d, &process), Err(Error::Event(EventError::ResourceCustodyMismatch)));
}
use basis_core::transactions::event::modification::{accept, modify};

fn steel(amount: i64) -> Costs {
    Costs::new_with_resource(&ResourceSpecID::new("steel"), whole(amount), num("0.01")).unwrap()
}

#[test]
fn can_accept() {
    let now = now();
    let id = EventID::create();
    let state = TestState::standard(vec![CompanyPermission::Accept], &now);
    let resource = make_resource(&ResourceID::new("widget"), &state.company.id, &one(15), &steel(157), &now);
    let process = make_process(&ProcessID::create(), &state.company.id, "make widgets", &Costs::new(), &now);

    let testfn_inner = |state: &TestState, resource: &Resource, process: &Process| {
        accept(&state.user, &state.member, &state.company, id.clone(), resource.clone(), process.clone(), whole(3), Some("memo lol".into()), &now)
    };
    let testfn = |state: &TestState| testfn_inner(state, &resource, &process);
    standard_transaction_tests(&state, &testfn);

    let mods = mods_of(testfn(&state));
    assert_eq!(mods.len(), 2);
    let event: Event = expect(&mods[0], Op::Create);
    let resource2: Resource = expect(&mods[1], Op::Update);

    check_event(&event, &id, "memo lol", &now);
    assert_eq!(event.inner.agreed_in, None);
    assert_eq!(event.inner.input_of, Some(process.id.clone()));
    assert_eq!(event.inner.provider, company_agent(&state));
    assert_eq!(event.inner.receiver, company_agent(&state));
    assert_eq!(event.inner.resource_quantity, Some(one(3)));
    assert_eq!(event.move_costs, Some(Costs::new()));

    assert_eq!(resource2.id, resource.id);
    assert_eq!(resource2.inner.primary_accountable, Some(company_agent(&state)));
    assert_eq!(resource2.in_custody_of, company_agent(&state));
    assert_eq!(resource2.inner.accounting_quantity, Some(one(15)));
    assert_eq!(resource2.inner.onhand_quantity, Some(one(12)));
    assert_eq!(resource2.costs, steel(157));

    // can't accept into a process you don't own
    let mut process_b = process.clone();
    process_b.company_id = CompanyID::new("zing");
    assert_eq!(testfn_inner(&state, &resource, &process_b), Err(Error::Event(EventError::ProcessOwnerMismatch)));

    // a company that doesn't own a resource *can* accept it
    let mut resource_c = resource.clone();
    resource_c.inner.primary_accountable = Some(other_company("ziggy"));
    assert!(testfn_inner(&state, &resource_c, &process).is_ok());

    // a company that doesn't have possession of a resource can't accept it
    let mut resource_d = resource.clone();
    resource_d.in_custody_of = other_company("ziggy");
    assert_eq!(testfn_inner(&state, &resource_d, &process), Err(Error::Event(EventError::ResourceCustodyMismatch)));
}

#[test]
fn can_modify() {
    let now = now();
    let id = EventID::create();
    let state = TestState::standard(vec![CompanyPermission::Modify], &now);
    let occupation_id = OccupationID::new("mechanic");
    let costs = Costs::new_with_labor(&occupation_id, num("102.3")).unwrap();
    let process = make_process(&ProcessID::create(), &state.company.id, "repair car", &costs, &now);
    let resource = make_resource(&ResourceID::new("car"), &state.company.id, &one(3), &steel(157), &now);

    let testfn_inner = |state: &TestState, process: &Process, resource: &Resource| {
        modify(&state.user, &state.member, &state.company, id.clone(), process.clone(), resource.clone(), process.costs.clone(), whole(12), Some("memo lol".into()), &now)
    };
    let testfn = |state: &TestState| testfn_inner(state, &process, &resource);
    standard_transaction_tests(&state, &testfn);

    let mods = mods_of(testfn(&state));
    assert_eq!(mods.len(), 3);
    let event: Event = expect(&mods[0], Op::Create);
    let process2: Process = expect(&mods[1], Op::Update);
    let resource2: Resource = expect(&mods[2], Op::Update);

    check_event(&event, &id, "memo lol", &now);
    assert_eq!(event.inner.agreed_in, None);
    assert_eq!(event.inner.input_of, None);
    assert_eq!(event.inner.output_of, Some(process.id.clone()));
    assert_eq!(event.inner.provider, company_agent(&state));
    assert_eq!(event.inner.receiver, company_agent(&state));
    assert_eq!(event.move_costs, Some(process.costs.clone()));

    assert_eq!(process2.id, process.id);
    assert_eq!(process2.company_id, state.company.id);
    assert_eq!(process2.inner.name, "repair car");
    assert_eq!(process2.costs, Costs::new());

    let mut costs2 = Costs::new();
    costs2.track_labor(&occupation_id, num("102.3")).unwrap();
    costs2.track_resource(&ResourceSpecID::new("steel"), whole(157), num("0.01")).unwrap();
    assert_eq!(resource2.id, resource.id);
    assert_eq!(resource2.inner.primary_accountable, Some(company_agent(&state)));
    assert_eq!(resource2.in_custody_of, company_agent(&state));
    assert_eq!(resource2.inner.accounting_quantity, Some(one(3)));
    assert_eq!(resource2.inner.onhand_quantity, Some(one(15)));
    assert_eq!(resource2.costs, costs2);

    // can't modify from a process you don't own
    let mut process_b = process.clone();
    process_b.company_id = CompanyID::new("zing");
    assert_eq!(testfn_inner(&state, &process_b, &resource), Err(Error::Event(EventError::ProcessOwnerMismatch)));

    // a company that doesn't own a resource can't modify it
    let mut resource_c = resource.clone();
    resource_c.inner.primary_accountable = Some(other_company("ziggy"));
    assert_eq!(testfn_inner(&state, &process, &resource_c), Err(Error::Event(EventError::ResourceOwnerMismatch)));

    // a company that doesn't have possession of a resource can't modify it
    let mut resource_d = resource.clone();
    resource_d.in_custody_of = other_company("ziggy");
    assert_eq!(testfn_inner(&state, &process, &resource_d), Err(Error::Event(EventError::ResourceCustodyMismatch)));
}
use basis_core::transactions::event::production::{cite, consume, produce, useeee};

fn machinist_homemaker(machinist: &str, homemaker: &str) -> Costs {
    let mut costs = Costs::new();
    costs.track_labor(&OccupationID::new("machinist"), num(machinist)).unwrap();
    costs.track_labor(&OccupationID::new("homemaker"), num(homemaker)).unwrap();
    costs
}

/// The checks shared by the events that move costs from a resource into a
/// process (cite, consume, use).
fn check_resource_into_process<F>(testfn_inner: F, state: &TestState, id: &EventID, resource: &Resource, process: &Process, costs_to_move: &Costs, accounting_after: i64, now: &Timestamp)
where
    F: Fn(&TestState, &Resource, &Process) -> Result<Modifications, Error>,
{
    let testfn = |s: &TestState| testfn_inner(s, resource, process);
    standard_transaction_tests(state, &testfn);

    let mods = mods_of(testfn(state));
    assert_eq!(mods.len(), 3);
    let event: Event = expect(&mods[0], Op::Create);
    let process2: Process = expect(&mods[1], Op::Update);
    let resource2: Resource = expect(&mods[2], Op::Update);

    check_event(&event, id, "memo", now);
    assert_eq!(event.inner.agreed_in, None);
    assert_eq!(event.inner.input_of, Some(process.id.clone()));
    assert_eq!(event.inner.provider, company_agent(state));
    assert_eq!(event.inner.receiver, company_agent(state));
    assert_eq!(event.move_costs, Some(costs_to_move.clone()));

    assert_eq!(resource2.id, resource.id);
    assert_eq!(resource2.inner.accounting_quantity, Some(one(accounting_after)));
    assert_eq!(resource2.inner.onhand_quantity, Some(one(accounting_after)));
    assert_eq!(resource2.costs, resource.costs.clone().sub(costs_to_move.clone()).unwrap());

    assert_eq!(process2.id, process.id);
    assert_eq!(process2.company_id, state.company.id);
    assert_eq!(process2.inner.name, "make widgets");
    assert_eq!(process2.costs, process.costs.clone().add(costs_to_move.clone()).unwrap());

    // can't move into a process you don't own
    let mut process_b = process.clone();
    process_b.company_id = CompanyID::new("zing");
    assert_eq!(testfn_inner(state, resource, &process_b), Err(Error::Event(EventError::ProcessOwnerMismatch)));

    // a company that doesn't own a resource can't use it up
    let mut resource_c = resource.clone();
    resource_c.inner.primary_accountable = Some(other_company("ziggy"));
    assert_eq!(testfn_inner(state, &resource_c, process), Err(Error::Event(EventError::ResourceOwnerMismatch)));

    // a company that doesn't have possession of a resource can't use it up
    let mut resource_d = resource.clone();
    resource_d.in_custody_of = other_company("ziggy");
    assert_eq!(testfn_inner(state, &resource_d, process), Err(Error::Event(EventError::ResourceCustodyMismatch)));
}

#[test]
fn can_cite() {
    let now = now();
    let id = EventID::create();
    let state = TestState::standard(vec![CompanyPermission::Cite], &now);
    let resource = make_resource(&ResourceID::new("widget"), &state.company.id, &one(15), &labor("homemaker", 157), &now);
    let process = make_process(&ProcessID::create(), &state.company.id, "make widgets", &machinist_homemaker("42.2", "13.6"), &now);
    let costs_to_move = resource.costs.clone().mul(num("0.02")).unwrap();

    let testfn_inner = |state: &TestState, resource: &Resource, process: &Process| {
        cite(&state.user, &state.member, &state.company, id.clone(), resource.clone(), process.clone(), costs_to_move.clone(), Some("memo".into()), &now)
    };
    check_resource_into_process(testfn_inner, &state, &id, &resource, &process, &costs_to_move, 15, &now);
}

#[test]
fn can_consume() {
    let now = now();
    let id = EventID::create();
    let state = TestState::standard(vec![CompanyPermission::Consume], &now);
    let resource = make_resource(&ResourceID::new("widget"), &state.company.id, &one(15), &labor("homemaker", 157), &now);
    let move_costs = resource.costs.clone().mul(whole(8).checked_div(&whole(15)).unwrap()).unwrap();
    let process = make_process(&ProcessID::create(), &state.company.id, "make widgets", &machinist_homemaker("42.2", "13.6"), &now);

    let testfn_inner = |state: &TestState, resource: &Resource, process: &Process| {
        consume(&state.user, &state.member, &state.company, id.clone(), resource.clone(), process.clone(), move_costs.clone(), whole(8), Some("memo".into()), &now)
    };
    check_resource_into_process(testfn_inner, &state, &id, &resource, &process, &move_costs, 7, &now);
}

#[test]
fn can_use() {
    let now = now();
    let id = EventID::create();
    let state = TestState::standard(vec![CompanyPermission::Use], &now);
    let resource = make_resource(&ResourceID::new("widget"), &state.company.id, &one(15), &labor("homemaker", 157), &now);
    let process = make_process(&ProcessID::create(), &state.company.id, "make widgets", &machinist_homemaker("42.2", "13.6"), &now);
    let costs_to_move = resource.costs.clone().mul(whole(8).checked_div(&whole(15)).unwrap()).unwrap();

    let testfn_inner = |state: &TestState, resource: &Resource, process: &Process| {
        useeee(&state.user, &state.member, &state.company, id.clone(), resource.clone(), process.clone(), costs_to_move.clone(), Some(Measure::new(whole(8), Unit::hour())), Some("memo".into()), &now)
    };
    check_resource_into_process(testfn_inner, &state, &id, &resource, &process, &costs_to_move, 15, &now);
}

#[test]
fn can_produce() {
    let now = now();
    let id = EventID::create();
    let state = TestState::standard(vec![CompanyPermission::Produce], &now);
    let process = make_process(&ProcessID::create(), &state.company.id, "make widgets", &machinist_homemaker("42.2", "89.3"), &now);
    let resource = make_resource(&ResourceID::new("widget"), &state.company.id, &one(15), &labor("homemaker", 157), &now);
    let costs_to_move = process.costs.clone().mul(num("0.5777")).unwrap();

    let testfn_inner = |state: &TestState, process: &Process, resource: &Resource| {
        produce(&state.user, &state.member, &state.company, id.clone(), process.clone(), resource.clone(), costs_to_move.clone(), whole(8), Some("memo".into()), &now)
    };
    let testfn = |state: &TestState| testfn_inner(state, &process, &resource);
    standard_transaction_tests(&state, &testfn);

    let mods = mods_of(testfn(&state));
    assert_eq!(mods.len(), 3);
    let event: Event = expect(&mods[0], Op::Create);
    let process2: Process = expect(&mods[1], Op::Update);
    let resource2: Resource = expect(&mods[2], Op::Update);

    check_event(&event, &id, "memo", &now);
    assert_eq!(event.inner.agreed_in, None);
    assert_eq!(event.inner.input_of, None);
    assert_eq!(event.inner.output_of, Some(process.id.clone()));
    assert_eq!(event.inner.provider, company_agent(&state));
    assert_eq!(event.inner.receiver, company_agent(&state));
    assert_eq!(event.move_costs, Some(costs_to_move.clone()));

    assert_eq!(process2.id, process.id);
    assert_eq!(process2.company_id, state.company.id);
    assert_eq!(process2.inner.name, "make widgets");
    assert_eq!(process2.costs, process.costs.clone().sub(costs_to_move.clone()).unwrap());

    assert_eq!(resource2.id, resource.id);
    assert_eq!(resource2.inner.accounting_quantity, Some(one(23)));
    assert_eq!(resource2.inner.onhand_quantity, Some(one(23)));
    assert_eq!(resource2.costs, resource.costs.clone().add(costs_to_move.clone()).unwrap());

    // can't produce from a process you don't own
    let mut process_b = process.clone();
    process_b.company_id = CompanyID::new("zing");
    assert_eq!(testfn_inner(&state, &process_b, &resource), Err(Error::Event(EventError::ProcessOwnerMismatch)));

    let mut resource_c = resource.clone();
    resource_c.inner.primary_accountable = Some(other_company("ziggy"));
    assert_eq!(testfn_inner(&state, &process, &resource_c), Err(Error::Event(EventError::ResourceOwnerMismatch)));

    let mut resource_d = resource.clone();
    resource_d.in_custody_of = other_company("ziggy");
    assert_eq!(testfn_inner(&state, &process, &resource_d), Err(Error::Event(EventError::ResourceCustodyMismatch)));
}
use basis_core::number::Ratio;
use basis_core::transactions::event::service::deliver_service;
use basis_core::transactions::event::transfer::{transfer, transfer_all_rights, transfer_custody};

fn agent_of(company: &Company) -> AgentID {
    AgentID::CompanyID(company.id.clone())
}

#[test]
fn can_deliver_service() {
    let now = now();
    let id = EventID::create();
    let state = TestState::standard(vec![CompanyPermission::DeliverService], &now);
    let company_from = state.company.clone();
    let company_to = make_company(&CompanyID::create(), "jinkey's skateboards", &now);
    let agreement = make_agreement(&AgreementID::create(), &vec![agent_of(&company_from), agent_of(&company_to)], "order 1234", "gotta make some planks", &now);
    let agreed_in = "https://legalzoom.com/my-dad-is-suing-your-dad-the-agreement".to_string();
    let occupation_id = OccupationID::new("lawyer");
    let process_from = make_process(&ProcessID::create(), &company_from.id, "various lawyerings", &Costs::new_with_labor(&occupation_id, num("177.25")).unwrap(), &now);
    let process_to = make_process(&ProcessID::create(), &company_to.id, "employee legal agreement drafting", &Costs::new_with_labor(&occupation_id, whole(804)).unwrap(), &now);
    let costs_to_move = process_from.costs.clone().mul(num("0.777777777")).unwrap();

    let testfn_inner = |state: &TestState, company_from: &Company, company_to: &Company, agreement: &Agreement, from: &Process, to: &Process| {
        deliver_service(&state.user, &state.member, company_from, company_to, agreement, id.clone(), from.clone(), to.clone(), costs_to_move.clone(), Some(agreed_in.clone()), Some("making planks lol".into()), &now)
    };
    let testfn_from = |state: &TestState| testfn_inner(state, &state.company, &company_to, &agreement, &process_from, &process_to);
    let testfn_to = |state: &TestState| testfn_inner(state, &company_from, &state.company, &agreement, &process_from, &process_to);
    standard_transaction_tests(&state, &testfn_from);

    let mods = mods_of(testfn_from(&state));
    assert_eq!(mods.len(), 3);
    let event: Event = expect(&mods[0], Op::Create);
    let process_from2: Process = expect(&mods[1], Op::Update);
    let process_to2: Process = expect(&mods[2], Op::Update);

    check_event(&event, &id, "making planks lol", &now);
    assert_eq!(event.inner.agreed_in, Some(agreed_in.clone()));
    assert_eq!(event.inner.input_of, Some(process_to.id.clone()));
    assert_eq!(event.inner.output_of, Some(process_from.id.clone()));
    assert_eq!(event.inner.provider, agent_of(&company_from));
    assert_eq!(event.inner.realization_of, Some(agreement.id.clone()));
    assert_eq!(event.inner.receiver, agent_of(&company_to));
    assert_eq!(event.inner.resource_quantity, None);
    assert_eq!(event.move_costs, Some(costs_to_move.clone()));

    assert_eq!(process_from2.id, process_from.id);
    assert_eq!(process_from2.company_id, company_from.id);
    assert_eq!(process_from2.costs, process_from.costs.clone().sub(costs_to_move.clone()).unwrap());

    assert_eq!(process_to2.id, process_to.id);
    assert_eq!(process_to2.company_id, company_to.id);
    assert_eq!(process_to2.costs, process_to.costs.clone().add(costs_to_move.clone()).unwrap());

    // can't move costs from a process you don't own
    let mut from_b = process_from.clone();
    from_b.company_id = CompanyID::new("zing");
    assert_eq!(testfn_inner(&state, &company_from, &company_to, &agreement, &from_b, &process_to), Err(Error::Event(EventError::ProcessOwnerMismatch)));

    // can't move costs into a process company_to doesn't own
    let mut to_b = process_to.clone();
    to_b.company_id = CompanyID::new("zing");
    assert_eq!(testfn_inner(&state, &company_from, &company_to, &agreement, &process_from, &to_b), Err(Error::Event(EventError::ProcessOwnerMismatch)));

    // no event unless both parties take part in the agreement
    let mut agreement2 = agreement.clone();
    agreement2.participants = vec![agent_of(&company_to)];
    assert_eq!(testfn_inner(&state, &company_from, &company_to, &agreement2, &process_from, &process_to), Err(Error::InsufficientPrivileges));
    agreement2.participants = vec![agent_of(&company_from)];
    assert_eq!(testfn_inner(&state, &company_from, &company_to, &agreement2, &process_from, &process_to), Err(Error::InsufficientPrivileges));

    // a deleted receiving company turns the event away
    let mut state5 = state.clone();
    state5.company = company_to.clone();
    state5.company.deleted = Some(now.clone());
    assert_eq!(testfn_to(&state5), Err(Error::ObjectIsInactive("company".into())));
}

/// What a transfer of 8 out of 15 (into a resource holding 3) leaves where.
struct Expected {
    from_accounting: i64,
    from_onhand: i64,
    to_accounting: i64,
    to_onhand: i64,
    created_accounting: i64,
    created_onhand: i64,
    created_owner_is_to: bool,
    created_custody_is_to: bool,
}

#[derive(Clone, Copy, PartialEq)]
enum Kind {
    Transfer,
    AllRights,
    Custody,
}

fn run_transfer(kind: Kind, ratio: Num, agreed_in: &str, note: &str, exp: Expected) {
    let now = now();
    let id = EventID::create();
    let permission = match kind {
        Kind::Transfer => CompanyPermission::Transfer,
        Kind::AllRights => CompanyPermission::TransferAllRights,
        Kind::Custody => CompanyPermission::TransferCustody,
    };
    let state = TestState::standard(vec![permission], &now);
    let company_from = state.company.clone();
    let company_to = make_company(&CompanyID::create(), "jinkey's skateboards", &now);
    let agreement = make_agreement(&AgreementID::create(), &vec![agent_of(&company_from), agent_of(&company_to)], "order 1234", "gotta get some planks", &now);
    let resource_from = make_resource(&ResourceID::new("plank"), &company_from.id, &one(15), &labor("homemaker", 157), &now);
    let resource_to = make_resource(&ResourceID::new("plank"), &company_to.id, &one(3), &labor("homemaker", 2), &now);
    let move_costs_ratio = Ratio::new(ratio).unwrap();
    let costs_to_move = resource_from.costs.clone().mul(move_costs_ratio.inner()).unwrap();

    let testfn_inner = |state: &TestState, company_from: &Company, company_to: &Company, agreement: &Agreement, from: &Resource, mover: ResourceMover| {
        let f = match kind {
            Kind::Transfer => transfer,
            Kind::AllRights => transfer_all_rights,
            Kind::Custody => transfer_custody,
        };
        f(&state.user, &state.member, company_from, company_to, agreement, id.clone(), from.clone(), mover, move_costs_ratio.clone(), whole(8), Some(agreed_in.to_string()), Some(note.to_string()), &now)
    };
    let testfn_update = |state: &TestState| testfn_inner(state, &state.company, &company_to, &agreement, &resource_from, ResourceMover::Update(resource_to.clone()));
    let testfn_create = |state: &TestState| testfn_inner(state, &state.company, &company_to, &agreement, &resource_from, ResourceMover::Create(resource_to.id.clone()));
    let testfn_update_to = |state: &TestState| testfn_inner(state, &company_from, &state.company, &agreement, &resource_from, ResourceMover::Update(resource_to.clone()));
    standard_transaction_tests(&state, &testfn_update);
    standard_transaction_tests(&state, &testfn_create);

    let check_common_event = |event: &Event| {
        check_event(event, &id, note, &now);
        assert_eq!(event.inner.agreed_in, Some(agreed_in.to_string()));
        assert_eq!(event.inner.input_of, None);
        assert_eq!(event.inner.provider, agent_of(&company_from));
        assert_eq!(event.inner.receiver, agent_of(&company_to));
        assert_eq!(event.inner.resource_quantity, Some(one(8)));
        assert_eq!(event.move_costs, Some(costs_to_move.clone()));
    };
    let check_from = |resource2: &Resource| {
        assert_eq!(resource2.id, resource_from.id);
        assert_eq!(resource2.inner.primary_accountable, Some(agent_of(&company_from)));
        assert_eq!(resource2.inner.accounting_quantity, Some(one(exp.from_accounting)));
        assert_eq!(resource2.inner.onhand_quantity, Some(one(exp.from_onhand)));
        assert_eq!(resource2.in_custody_of, agent_of(&company_from));
        assert_eq!(resource2.costs, resource_from.costs.clone().sub(costs_to_move.clone()).unwrap());
    };

    // ResourceMover::Update
    let mods = mods_of(testfn_update(&state));
    assert_eq!(mods.len(), 3);
    let event: Event = expect(&mods[0], Op::Create);
    let resource2: Resource = expect(&mods[1], Op::Update);
    let resource_to2: Resource = expect(&mods[2], Op::Update);
    check_common_event(&event);
    assert_eq!(event.inner.realization_of, Some(agreement.id.clone()));
    check_from(&resource2);
    assert_eq!(resource_to2.id, resource_to.id);
    assert_eq!(resource_to2.inner.primary_accountable, Some(agent_of(&company_to)));
    assert_eq!(resource_to2.inner.accounting_quantity, Some(one(exp.to_accounting)));
    assert_eq!(resource_to2.inner.onhand_quantity, Some(one(exp.to_onhand)));
    assert_eq!(resource_to2.in_custody_of, agent_of(&company_to));
    assert_eq!(resource_to2.costs, resource_to.costs.clone().add(costs_to_move.clone()).unwrap());

    // ResourceMover::Create
    let mods = mods_of(testfn_create(&state));
    assert_eq!(mods.len(), 3);
    let event: Event = expect(&mods[0], Op::Create);
    let resource3: Resource = expect(&mods[1], Op::Update);
    let resource_created: Resource = expect(&mods[2], Op::Create);
    check_common_event(&event);
    check_from(&resource3);
    let owner = if exp.created_owner_is_to { agent_of(&company_to) } else { agent_of(&company_from) };
    let custody = if exp.created_custody_is_to { agent_of(&company_to) } else { agent_of(&company_from) };
    assert_eq!(resource_created.id, resource_to.id);
    assert_eq!(resource_created.inner.primary_accountable, Some(owner));
    assert_eq!(resource_created.inner.accounting_quantity, Some(one(exp.created_accounting)));
    assert_eq!(resource_created.inner.onhand_quantity, Some(one(exp.created_onhand)));
    assert_eq!(resource_created.in_custody_of, custody);
    assert_eq!(resource_created.costs, costs_to_move);

    // can't transfer into a resource you don't own
    let mut to_b = resource_to.clone();
    to_b.inner.primary_accountable = Some(other_company("zing"));
    assert_eq!(testfn_inner(&state, &company_from, &company_to, &agreement, &resource_from, ResourceMover::Update(to_b)), Err(Error::Event(EventError::ResourceOwnerMismatch)));

    if kind != Kind::Custody {
        // a company that doesn't own a resource can't transfer its rights
        let mut from_c = resource_from.clone();
        from_c.inner.primary_accountable = Some(other_company("ziggy"));
        assert_eq!(testfn_inner(&state, &company_from, &company_to, &agreement, &from_c, ResourceMover::Update(resource_to.clone())), Err(Error::Event(EventError::ResourceOwnerMismatch)));
        assert_eq!(testfn_inner(&state, &company_from, &company_to, &agreement, &from_c, ResourceMover::Create(resource_to.id.clone())), Err(Error::Event(EventError::ResourceOwnerMismatch)));
    }
    if kind != Kind::AllRights {
        // a company that doesn't have possession of a resource can't hand it over
        let mut from_d = resource_from.clone();
        from_d.in_custody_of = other_company("ziggy");
        assert_eq!(testfn_inner(&state, &company_from, &company_to, &agreement, &from_d, ResourceMover::Update(resource_to.clone())), Err(Error::Event(EventError::ResourceCustodyMismatch)));
        assert_eq!(testfn_inner(&state, &company_from, &company_to, &agreement, &from_d, ResourceMover::Create(resource_to.id.clone())), Err(Error::Event(EventError::ResourceCustodyMismatch)));
    }

    // no event unless both parties take part in the agreement
    let mut agreement2 = agreement.clone();
    agreement2.participants = vec![agent_of(&company_to)];
    assert_eq!(testfn_inner(&state, &company_from, &company_to, &agreement2, &resource_from, ResourceMover::Update(resource_to.clone())), Err(Error::InsufficientPrivileges));
    assert_eq!(testfn_inner(&state, &company_from, &company_to, &agreement2, &resource_from, ResourceMover::Create(resource_to.id.clone())), Err(Error::InsufficientPrivileges));
    agreement2.participants = vec![agent_of(&company_from)];
    assert_eq!(testfn_inner(&state, &company_from, &company_to, &agreement2, &resource_from, ResourceMover::Update(resource_to.clone())), Err(Error::InsufficientPrivileges));

    // a deleted receiving company turns the event away
    let mut state5 = state.clone();
    state5.company = company_to.clone();
    state5.company.deleted = Some(now.clone());
    assert_eq!(testfn_update_to(&state5), Err(Error::ObjectIsInactive("company".into())));
}

#[test]
fn transfer_can_transfer() {
    run_transfer(
        Kind::Transfer,
        num("0.67777777"),
        "https://legalzoom.com/standard-boilerplate-hereto-notwithstanding-each-of-them-damage-to-the-hood-ornament-alone",
        "giving jinkey some post-capitalist planks",
        Expected { from_accounting: 15 - 8, from_onhand: 15 - 8, to_accounting: 8 + 3, to_onhand: 8 + 3, created_accounting: 8, created_onhand: 8, created_owner_is_to: true, created_custody_is_to: true },
    );
}

#[test]
fn can_transfer_all_rights() {
    run_transfer(
        Kind::AllRights,
        num("0.1555232"),
        "https://legalzoom.com/is-it-too-much-to-ask-for-todays-pedestrian-to-wear-at-least-one-piece-of-reflective-clothing",
        "note blah blah",
        Expected { from_accounting: 15 - 8, from_onhand: 15, to_accounting: 8 + 3, to_onhand: 3, created_accounting: 8, created_onhand: 0, created_owner_is_to: true, created_custody_is_to: false },
    );
}

#[test]
fn can_transfer_custody() {
    run_transfer(
        Kind::Custody,
        whole(8).checked_div(&whole(15)).unwrap(),
        "https://legaldoom.com/trade-secrets-trade-secrets",
        "nomnomnom",
        Expected { from_accounting: 15, from_onhand: 15 - 8, to_accounting: 3, to_onhand: 8 + 3, created_accounting: 0, created_onhand: 8, created_owner_is_to: false, created_custody_is_to: true },
    );
}
use basis_core::models::member::{MemberCompany, MemberUser};
use basis_core::transactions::event::work::work;

#[test]
fn can_work() {
    let now = ts("2018-06-06T00:00:00Z");
    let now2 = ts("2018-06-06T06:52:00Z");
    let id = EventID::create();
    let state = TestState::standard(vec![CompanyPermission::Work], &now);
    let occupation_id = state.member.occupation_id().unwrap().clone();
    let worker = state.member.clone();
    let process = make_process(&ProcessID::create(), &state.company.id, "make widgets", &Costs::new_with_labor(&occupation_id, num("177.5")).unwrap(), &now);

    let testfn_inner = |state: &TestState, worker: &Member, process: &Process| {
        work(&state.user, &state.member, &state.company, id.clone(), worker.clone(), process.clone(), Some(num("78.4")), now.clone(), now2.clone(), Some("just doing some work".into()), &now2)
    };
    let testfn = |state: &TestState| testfn_inner(state, &worker, &process);
    standard_transaction_tests(&state, &testfn);

    let mut costs2 = Costs::new();
    costs2.track_labor(&occupation_id, num("177.5").checked_add(&num("78.4")).unwrap()).unwrap();
    // 6h52m in hours, as rust_decimal divides it: it rounds the last of its 28
    // places, where the literal below was written with that place cut off.
    let hours = whole(24_720_000).checked_div(&whole(3_600_000)).unwrap();
    assert_eq!(hours.round_dp(27), num("6.8666666666666666666666666666").round_dp(27));
    costs2.track_labor_hours(&occupation_id, hours).unwrap();

    let check = |state: &TestState, worker: &Member, mods: &Vec<Modification>| {
        assert_eq!(mods.len(), 2);
        let event: Event = expect(&mods[0], Op::Create);
        assert_eq!(event.id, id);
        assert_eq!(event.inner.agreed_in, state.member.agreement);
        assert_eq!(event.inner.has_beginning, Some(now.clone()));
        assert_eq!(event.inner.has_end, Some(now2.clone()));
        assert_eq!(event.inner.input_of, Some(process.id.clone()));
        assert_eq!(event.inner.note, Some("just doing some work".into()));
        assert_eq!(event.inner.provider, AgentID::MemberID(worker.id.clone()));
        assert_eq!(event.inner.receiver, company_agent(state));
        assert_eq!(event.move_costs, Some(Costs::new_with_labor(&occupation_id, num("78.4")).unwrap()));
        assert_eq!(event.active, true);
        assert_eq!(event.created, now2);
        assert_eq!(event.updated, now2);

        let process2: Process = expect(&mods[1], Op::Update);
        assert_eq!(process2.id, process.id);
        assert_eq!(process2.company_id, state.company.id);
        assert_eq!(process2.inner.name, "make widgets");
        assert_eq!(process2.costs, costs2);
    };
    check(&state, &worker, &mods_of(testfn(&state)));

    // a worker other than the member
    let mut worker2 = worker.clone();
    worker2.id = MemberID::create();
    assert_eq!(testfn_inner(&state, &worker2, &process), Err(Error::InsufficientPrivileges));
    let mut state2 = state.clone();
    state2.member.permissions = vec![CompanyPermission::WorkAdmin];
    check(&state2, &worker2, &mods_of(testfn_inner(&state2, &worker2, &process)));

    // can't work into a process you don't own
    let mut process3 = process.clone();
    process3.company_id = CompanyID::new("zing");
    assert_eq!(testfn_inner(&state, &worker, &process3), Err(Error::Event(EventError::ProcessOwnerMismatch)));

    let mut worker4 = worker.clone();
    worker4.class = MemberClass::User(MemberUser::new());
    assert_eq!(testfn_inner(&state, &worker4, &process), Err(Error::MemberMustBeWorker));
    worker4.class = MemberClass::Company(MemberCompany::new());
    assert_eq!(testfn_inner(&state, &worker4, &process), Err(Error::MemberMustBeWorker));
}

#[test]
fn work_that_ends_before_it_begins_is_refused() {
    let now = ts("2018-06-06T06:52:00Z");
    let before = ts("2018-06-06T00:00:00Z");
    let state = TestState::standard(vec![CompanyPermission::Work], &now);
    let process = make_process(&ProcessID::create(), &state.company.id, "make widgets", &Costs::new(), &now);
    let res = work(&state.user, &state.member, &state.company, EventID::create(), state.member.clone(), process, Some(whole(1)), now.clone(), before, None, &now);
    assert_eq!(res, Err(Error::Event(EventError::DateEndBeforeBegin)));
}
