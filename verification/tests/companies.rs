// ---- fixtures shared by the tests in this file ----

use basis_core::access::Role;
use basis_core::costs::Costs;
use basis_core::error::Error;
use basis_core::measure::{Measure, Unit};
use basis_core::models::account::Account;
use basis_core::models::agreement::Agreement;
use basis_core::models::company::{Company, Permission as CompanyPermission};
use basis_core::models::ids::{
    AccountID, AgreementID, CompanyID, EventID, MemberID, OccupationID, ProcessID, ResourceID,
    ResourceSpecID, UserID,
};
use basis_core::models::lib::agent::AgentID;
use basis_core::models::member::{Member, MemberClass, MemberWorker};
use basis_core::models::process::Process;
use basis_core::models::resource::Resource;
use basis_core::models::user::User;
use basis_core::models::vf;
use basis_core::models::{FromModel, Modification, Modifications, Op};
use basis_core::num::Num;
use basis_core::time::Timestamp;
use rust_decimal::Decimal;
use std::str::FromStr;

#[allow(dead_code)]
fn num(s: &str) -> Num {
    let d = Decimal::from_str(s).unwrap();
    Num::from_i128_with_scale(d.mantissa(), d.scale())
}

#[allow(dead_code)]
fn whole(n: i64) -> Num {
    Num::from_i64(n)
}

#[allow(dead_code)]
fn now() -> Timestamp {
    Timestamp::new(1_600_000_000, 1_000_000)
}

#[allow(dead_code)]
fn later() -> Timestamp {
    Timestamp::new(1_600_000_600, 2_000_000)
}

#[allow(dead_code)]
fn labor(id: &str, v: i64) -> Costs {
    Costs::new_with_labor(&OccupationID::new(id), whole(v)).unwrap()
}

#[allow(dead_code)]
fn same(a: &Costs, b: &Costs) -> bool {
    a.same_as(b)
}

#[allow(dead_code)]
fn meas(v: i64, unit: &str) -> Measure {
    Measure::new(whole(v), Unit::new(unit))
}

#[allow(dead_code)]
fn expect<T: FromModel>(m: &Modification, op: Op) -> T {
    m.clone().expect_op::<T>(op).unwrap()
}

#[allow(dead_code)]
fn mods_of(r: Result<Modifications, Error>) -> Vec<Modification> {
    r.unwrap().into_vec()
}

#[allow(dead_code)]
fn make_user(id: &UserID, roles: Option<Vec<Role>>, now: &Timestamp) -> User {
    User {
        id: id.clone(),
        roles: roles.unwrap_or(vec![Role::User]),
        email: "surely@hotmail.com".to_string(),
        name: "buzzin' frog".to_string(),
        active: true,
        created: now.clone(),
        updated: now.clone(),
        deleted: None,
    }
}

#[allow(dead_code)]
fn make_company(id: &CompanyID, name: &str, now: &Timestamp) -> Company {
    Company {
        id: id.clone(),
        inner: vf::Agent { name: name.to_string(), note: None },
        email: "jerry@widgets.biz".to_string(),
        max_costs: whole(9999999),
        total_costs: Costs::new(),
        active: true,
        created: now.clone(),
        updated: now.clone(),
        deleted: None,
    }
}

#[allow(dead_code)]
fn make_member_worker(
    id: &MemberID,
    user_id: &UserID,
    company_id: &CompanyID,
    occupation_id: &OccupationID,
    permissions: Vec<CompanyPermission>,
    now: &Timestamp,
) -> Member {
    Member {
        id: id.clone(),
        inner: vf::AgentRelationship {
            subject: AgentID::UserID(user_id.clone()),
            object: AgentID::CompanyID(company_id.clone()),
            note: None,
        },
        class: MemberClass::Worker(MemberWorker::new(occupation_id.clone(), None)),
        permissions,
        agreement: None,
        active: true,
        created: now.clone(),
        updated: now.clone(),
        deleted: None,
    }
}

#[allow(dead_code)]
fn make_process(id: &ProcessID, company_id: &CompanyID, name: &str, costs: &Costs, now: &Timestamp) -> Process {
    Process {
        id: id.clone(),
        inner: vf::Process {
            name: name.to_string(),
            note: None,
            based_on: None,
            has_beginning: None,
            has_end: None,
            finished: None,
        },
        company_id: company_id.clone(),
        costs: costs.clone(),
        active: true,
        created: now.clone(),
        updated: now.clone(),
        deleted: None,
    }
}

#[allow(dead_code)]
fn make_resource(id: &ResourceID, company_id: &CompanyID, measure: &Measure, costs: &Costs, now: &Timestamp) -> Resource {
    Resource {
        id: id.clone(),
        inner: vf::EconomicResource {
            accounting_quantity: Some(measure.clone()),
            onhand_quantity: Some(measure.clone()),
            primary_accountable: Some(AgentID::CompanyID(company_id.clone())),
            conforms_to: ResourceSpecID::new("6969"),
            current_location: None,
            lot: None,
            name: None,
            note: None,
            tracking_identifier: None,
            unit_of_effort: None,
        },
        classified_as: vec![],
        in_custody_of: AgentID::CompanyID(company_id.clone()),
        costs: costs.clone(),
        active: true,
        created: now.clone(),
        updated: now.clone(),
        deleted: None,
    }
}

#[allow(dead_code)]
fn make_agreement(id: &AgreementID, participants: &Vec<AgentID>, name: &str, note: &str, now: &Timestamp) -> Agreement {
    Agreement {
        id: id.clone(),
        inner: vf::Agreement { name: Some(name.to_string()), note: Some(note.to_string()), created: Some(now.clone()) },
        participants: participants.clone(),
        active: true,
        created: now.clone(),
        updated: now.clone(),
        deleted: None,
    }
}

#[allow(dead_code)]
fn make_account(id: &AccountID, user_id: &UserID, balance: Num, name: &str, now: &Timestamp) -> Account {
    Account {
        id: id.clone(),
        user_ids: vec![user_id.clone()],
        multisig: vec![],
        name: name.to_string(),
        description: "this is my account".to_string(),
        balance,
        ubi: None,
        active: true,
        created: now.clone(),
        updated: now.clone(),
        deleted: None,
    }
}

/// A user, a company and a worker of that company with the given
/// permissions.
#[allow(dead_code)]
#[derive(Clone)]
struct TestState {
    user: User,
    member: Member,
    company: Company,
}

#[allow(dead_code)]
impl TestState {
    fn standard(permissions: Vec<CompanyPermission>, now: &Timestamp) -> TestState {
        let user = make_user(&UserID::create(), None, now);
        let company = make_company(&CompanyID::create(), "jerry's widgets", now);
        let member = make_member_worker(&MemberID::create(), &user.id, &company.id, &OccupationID::new("machinist"), permissions, now);
        TestState { user, member, company }
    }
}

/// The checks every company-scoped transaction makes: a user whose roles do
/// not allow it, a member whose permissions do not allow it, and a deleted
/// company are all turned away.
#[allow(dead_code)]
fn standard_transaction_tests<F>(state: &TestState, testfn: &F)
where
    F: Fn(&TestState) -> Result<Modifications, Error>,
{
    let mut s1 = state.clone();
    s1.user.roles = vec![];
    assert_eq!(testfn(&s1).err(), Some(Error::InsufficientPrivileges));

    let mut s2 = state.clone();
    s2.member.permissions = vec![];
    assert_eq!(testfn(&s2).err(), Some(Error::InsufficientPrivileges));

    let mut s3 = state.clone();
    s3.company.deleted = Some(now());
    assert_eq!(testfn(&s3).err(), Some(Error::ObjectIsInactive("company".to_string())));
}

/// The checks of a transaction scoped to the user alone: without a role
/// that allows it, or inactive, the user is turned away.
#[allow(dead_code)]
fn user_transaction_tests<F>(state: &TestState, testfn: &F)
where
    F: Fn(&TestState) -> Result<Modifications, Error>,
{
    let mut s1 = state.clone();
    s1.user.roles = vec![];
    assert_eq!(testfn(&s1).err(), Some(Error::InsufficientPrivileges));

    let mut s2 = state.clone();
    s2.user.active = false;
    assert_eq!(testfn(&s2).err(), Some(Error::InsufficientPrivileges));
}


#[allow(dead_code)]
fn ts(s: &str) -> Timestamp {
    let dt = chrono::DateTime::parse_from_rfc3339(s).unwrap();
    Timestamp::new(dt.timestamp(), dt.timestamp_subsec_nanos())
}

// ---- tests ----
use basis_core::models::event::Event;
use basis_core::transactions::company::{create, delete, payroll, update, Founder};
use basis_core::transactions::event::work::work;

fn founded(state: &mut TestState, id: &CompanyID, occupation_id: &OccupationID, now: &Timestamp) {
    let founder = Founder::new(state.member.id.clone(), MemberClass::Worker(MemberWorker::new(occupation_id.clone(), None)), true);
    let mods = mods_of(create(&state.user, id.clone(), "jerry's widgets".into(), "jerry@widgets.expert".into(), true, founder, now));
    state.company = expect(&mods[0], Op::Create);
    state.member = expect(&mods[1], Op::Create);
}

#[test]
fn company_can_create() {
    let id = CompanyID::create();
    let now = now();
    let state = TestState::standard(vec![], &now);
    let occupation_id = OccupationID::new("CEO THE BEST CEO EVERYONE SAYS SO");
    let founder = Founder::new(state.member.id.clone(), MemberClass::Worker(MemberWorker::new(occupation_id.clone(), None)), true);

    let testfn = |state: &TestState| {
        create(&state.user, id.clone(), "jerry's widgets".into(), "jerry@widgets.expert".into(), true, Founder::new(founder.id.clone(), MemberClass::Worker(MemberWorker::new(occupation_id.clone(), None)), true), &now)
    };
    user_transaction_tests(&state, &testfn);

    let mods = mods_of(testfn(&state));
    assert_eq!(mods.len(), 2);

    let company: Company = expect(&mods[0], Op::Create);
    let member: Member = expect(&mods[1], Op::Create);
    assert_eq!(company.id, id);
    assert_eq!(company.inner.name, "jerry's widgets");
    assert_eq!(company.email, "jerry@widgets.expert");
    assert_eq!(company.active, true);
    assert_eq!(company.created, now);
    assert_eq!(company.updated, now);
    assert_eq!(member.id, founder.id);
    assert_eq!(member.inner.subject, AgentID::UserID(state.user.id.clone()));
    assert_eq!(member.inner.object, AgentID::CompanyID(id.clone()));
    assert_eq!(member.occupation_id(), Some(&occupation_id));
    assert_eq!(member.permissions, vec![CompanyPermission::All]);
    assert_eq!(member.active, true);
    assert_eq!(member.created, now);
    assert_eq!(member.updated, now);
}

#[test]
fn company_can_update() {
    let id = CompanyID::create();
    let now = now();
    let mut state = TestState::standard(vec![], &now);
    founded(&mut state, &id, &OccupationID::new("CEO THE BEST CEO EVERYONE SAYS SO"), &now);

    let now2 = later();
    let testfn = |state: &TestState| {
        update(&state.user, &state.member, state.company.clone(), Some("Cool Widgets Ltd".into()), None, Some(false), &now2)
    };
    standard_transaction_tests(&state, &testfn);

    let mods = mods_of(testfn(&state));
    assert_eq!(mods.len(), 1);

    let company2: Company = expect(&mods[0], Op::Update);
    assert_eq!(company2.id, state.company.id);
    assert_eq!(company2.inner.name, "Cool Widgets Ltd");
    assert_eq!(company2.email, "jerry@widgets.expert");
    assert_eq!(company2.active, false);
    assert_eq!(company2.created, now);
    assert_eq!(company2.updated, now2);

    let mut state2 = state.clone();
    state2.user.id = UserID::create();
    let res = testfn(&state2);
    assert_eq!(res, Err(Error::InsufficientPrivileges));

    let mut state3 = state.clone();
    state3.company.set_deleted(Some(now2.clone()));
    let res = testfn(&state3);
    assert_eq!(res, Err(Error::ObjectIsInactive("company".into())));
}

#[test]
fn can_payroll() {
    let id = CompanyID::create();
    let now = now();
    let mut state = TestState::standard(vec![], &now);
    founded(&mut state, &id, &OccupationID::new("CEO THE BEST CEO EVERYONE SAYS SO"), &now);
    state.company.max_costs = whole(2000);

    let mut accounts: Vec<(MemberID, Account)> = Vec::new();
    let mut processes: Vec<(ProcessID, Process)> = Vec::new();
    let mut work_events: Vec<Event> = Vec::new();

    let process1 = make_process(&ProcessID::create(), &state.company.id, "herding", &Costs::new(), &now);
    let process2 = make_process(&ProcessID::create(), &state.company.id, "herding", &Costs::new(), &now);
    let process_ids = vec![process1.id.clone(), process2.id.clone()];
    processes.push((process1.id.clone(), process1));
    processes.push((process2.id.clone(), process2));
    for i in 0..3i64 {
        let user = make_user(&UserID::create(), None, &now);
        let member = make_member_worker(&MemberID::create(), &user.id, &state.company.id, &OccupationID::new("bantha herder"), vec![CompanyPermission::Work], &now);
        let account = make_account(&AccountID::create(), &user.id, whole(0), &format!("{}'s account", user.id.as_str()), &now);
        let process_id = if i < 1 { process_ids[0].clone() } else { process_ids[1].clone() };
        accounts.push((member.id.clone(), account));
        for ii in 0..2i64 {
            let start = ts("2020-01-01T08:00:00.001-08:00");
            let end = ts("2020-01-01T16:34:00.001-08:00");
            let wage = whole(10 + (i + 1) + (ii + 1));
            let process = processes.iter().find(|(k, _)| *k == process_id).unwrap().1.clone();
            let mods = mods_of(work(&user, &member, &state.company, EventID::create(), member.clone(), process, Some(wage), start, end, Some("working".into()), &now));
            let event: Event = expect(&mods[0], Op::Create);
            work_events.push(event);
        }
    }
    let now2 = later();
    let testfn_inner = |state: &TestState, accounts: Vec<(MemberID, Account)>, processes: Vec<(ProcessID, Process)>| {
        payroll(&state.user, &state.member, state.company.clone(), accounts, processes, &work_events, &now2)
    };
    let testfn = |state: &TestState| testfn_inner(state, accounts.clone(), processes.clone());

    let mods = mods_of(testfn(&state));
    assert_eq!(mods.len(), 6);
    let company2: Company = expect(&mods[0], Op::Update);
    let account1_2: Account = expect(&mods[1], Op::Update);
    let process1_2: Process = expect(&mods[2], Op::Update);
    let account2_2: Account = expect(&mods[3], Op::Update);
    let process2_2: Process = expect(&mods[4], Op::Update);
    let account3_2: Account = expect(&mods[5], Op::Update);

    assert_eq!(company2.total_costs, labor("bantha herder", 81));
    assert_eq!(account1_2.balance, whole(25));
    assert_eq!(account2_2.balance, whole(27));
    assert_eq!(account3_2.balance, whole(29));
    assert_eq!(process1_2.costs, labor("bantha herder", 25));
    assert_eq!(process2_2.costs, labor("bantha herder", 27 + 29));

    let mut state2 = state.clone();
    state2.company.max_costs = whole(81);
    let res = testfn(&state2);
    assert!(res.is_ok());

    let mut state3 = state.clone();
    state3.company.max_costs = whole(80);
    let res = testfn(&state3);
    assert_eq!(res, Err(Error::MaxCostsReached));

    let mut state4 = state.clone();
    state4.company.set_deleted(Some(now2.clone()));
    let res = testfn(&state4);
    assert_eq!(res, Err(Error::ObjectIsDeleted("company".into())));

    let mut accounts2 = accounts.clone();
    let key = accounts2.remove(0).0;
    let res = testfn_inner(&state, accounts2, processes.clone());
    assert_eq!(res, Err(Error::MissingFields(vec![format!("accounts::{}", key.as_str())])));

    let mut processes2 = processes.clone();
    let key = processes2.remove(0).0;
    let res = testfn_inner(&state, accounts, processes2.clone());
    assert_eq!(res, Err(Error::MissingFields(vec![format!("processes::{}", key.as_str())])));
}

#[test]
fn company_can_delete() {
    let id = CompanyID::create();
    let now = now();
    let mut state = TestState::standard(vec![], &now);
    founded(&mut state, &id, &OccupationID::new("CEO THE BEST CEO EVERYONE SAYS SO"), &now);

    let now2 = later();
    let testfn = |state: &TestState| delete(&state.user, &state.member, state.company.clone(), &now2);

    let mods = mods_of(testfn(&state));
    assert_eq!(mods.len(), 1);
    let company2: Company = expect(&mods[0], Op::Delete);
    assert_eq!(company2.created, now);
    assert_eq!(company2.updated, now);
    assert_eq!(company2.deleted, Some(now2.clone()));

    let mut state2 = state.clone();
    state2.user.id = UserID::create();
    let res = testfn(&state2);
    assert_eq!(res, Err(Error::InsufficientPrivileges));

    let mut state3 = state.clone();
    state3.company = company2;
    let res = testfn(&state3);
    assert_eq!(res, Err(Error::ObjectIsDeleted("company".into())));
}

#[test]
fn increase_costs() {
    let mut company = make_company(&CompanyID::create(), "jerry's delicious widgets", &now());
    company.max_costs = whole(1000);
    let costs1 = labor("widgetmaker", 500);
    let total_costs = company.increase_costs(costs1.clone()).unwrap();
    assert_eq!(total_costs, costs1);

    let costs2 = labor("truck driver", 400);
    let total_costs = company.increase_costs(costs2.clone()).unwrap();
    assert_eq!(total_costs, costs1.clone().add(costs2.clone()).unwrap());

    let costs3 = labor("CEO. THE BEST CEO. BIG HANDS", 200);
    let res = company.increase_costs(costs3.clone());
    assert_eq!(res, Err(Error::MaxCostsReached));

    let costs4 = labor("CEO. THE BEST CEO. BIG HANDS", 100);
    let total_costs = company.increase_costs(costs4.clone()).unwrap();
    assert_eq!(total_costs, costs1.clone().add(costs2.clone()).unwrap().add(costs4.clone()).unwrap());
    assert!(company.total_costs.credits().le(&company.max_costs));
}

#[test]
fn decrease_costs() {
    let mut company = make_company(&CompanyID::create(), "jerry's delicious widgets", &now());
    company.max_costs = whole(2000);
    let mut costs = Costs::new();
    costs.track_labor(&OccupationID::new("machinist"), whole(500)).unwrap();
    costs.track_labor(&OccupationID::new("ceo"), whole(800)).unwrap();
    company.total_costs = costs.clone();

    let mut costs1 = Costs::new();
    costs1.track_labor(&OccupationID::new("machinist"), whole(100)).unwrap();
    costs1.track_labor(&OccupationID::new("ceo"), whole(100)).unwrap();
    let mut comp = Costs::new();
    comp.track_labor(&OccupationID::new("machinist"), whole(400)).unwrap();
    comp.track_labor(&OccupationID::new("ceo"), whole(700)).unwrap();
    let total_costs = company.decrease_costs(costs1).unwrap();
    assert_eq!(total_costs, comp);

    let mut costs2 = Costs::new();
    costs2.track_labor(&OccupationID::new("machinist"), whole(350)).unwrap();
    costs2.track_labor(&OccupationID::new("ceo"), whole(600)).unwrap();
    let mut comp = Costs::new();
    comp.track_labor(&OccupationID::new("machinist"), whole(50)).unwrap();
    comp.track_labor(&OccupationID::new("ceo"), whole(100)).unwrap();
    let total_costs = company.decrease_costs(costs2).unwrap();
    assert_eq!(total_costs, comp);

    let mut costs3 = Costs::new();
    costs3.track_labor(&OccupationID::new("machinist"), whole(400)).unwrap();
    costs3.track_labor(&OccupationID::new("ceo"), whole(600)).unwrap();
    let res = company.decrease_costs(costs3);
    assert_eq!(res, Err(Error::NegativeCosts));

    let mut costs4 = Costs::new();
    costs4.track_labor(&OccupationID::new("marketing"), whole(10)).unwrap();
    let res = company.decrease_costs(costs4);
    assert_eq!(res, Err(Error::NegativeCosts));

    let mut costs5 = Costs::new();
    costs5.track_labor(&OccupationID::new("marketing"), whole(10)).unwrap();
    let costs5 = Costs::new().sub(costs5.clone()).unwrap();
    let res = company.decrease_costs(costs5);
    assert_eq!(res, Err(Error::NegativeCosts));
}
