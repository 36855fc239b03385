// ---- fixtures shared by the tests in this file ----

use basis_core::access::Role;
use basis_core::costs::Costs;
use basis_core::error::Error;
use basis_core::measure::{Measure, Unit};
use basis_core::models::account::Account;
use basis_core::models::agreement::Agreement;
use basis_core::models::company::{Company, Permission as CompanyPermission};
use basis_core::models::ids::{
    AccountID, AgreementID, CompanyID, EventID, MemberID, OccupationID, ProcessID, ResourceID,
    ResourceSpecID, UserID,
};
use basis_core::models::lib::agent::AgentID;
use basis_core::models::member::{Member, MemberClass, MemberWorker};
use basis_core::models::process::Process;
use basis_core::models::resource::Resource;
use basis_core::models::user::User;
use basis_core::models::vf;
use basis_core::models::{FromModel, Modification, Modifications, Op};
use basis_core::num::Num;
use basis_core::time::Timestamp;
use rust_decimal::Decimal;
use std::str::FromStr;

#[allow(dead_code)]
fn num(s: &str) -> Num {
    let d = Decimal::from_str(s).unwrap();
    Num::from_i128_with_scale(d.mantissa(), d.scale())
}

#[allow(dead_code)]
fn whole(n: i64) -> Num {
    Num::from_i64(n)
}

#[allow(dead_code)]
fn now() -> Timestamp {
    Timestamp::new(1_600_000_000, 1_000_000)
}

#[allow(dead_code)]
fn later() -> Timestamp {
    Timestamp::new(1_600_000_600, 2_000_000)
}

#[allow(dead_code)]
fn labor(id: &str, v: i64) -> Costs {
    Costs::new_with_labor(&OccupationID::new(id), whole(v)).unwrap()
}

#[allow(dead_code)]
fn same(a: &Costs, b: &Costs) -> bool {
    a.same_as(b)
}

#[allow(dead_code)]
fn meas(v: i64, unit: &str) -> Measure {
    Measure::new(whole(v), Unit::new(unit))
}

#[allow(dead_code)]
fn expect<T: FromModel>(m: &Modification, op: Op) -> T {
    m.clone().expect_op::<T>(op).unwrap()
}

#[allow(dead_code)]
fn mods_of(r: Result<Modifications, Error>) -> Vec<Modification> {
    r.unwrap().into_vec()
}

#[allow(dead_code)]
fn make_user(id: &UserID, roles: Option<Vec<Role>>, now: &Timestamp) -> User {
    User {
        id: id.clone(),
        roles: roles.unwrap_or(vec![Role::User]),
        email: "surely@hotmail.com".to_string(),
        name: "buzzin' frog".to_string(),
        active: true,
        created: now.clone(),
        updated: now.clone(),
        deleted: None,
    }
}

#[allow(dead_code)]
fn make_company(id: &CompanyID, name: &str, now: &Timestamp) -> Company {
    Company {
        id: id.clone(),
        inner: vf::Agent { name: name.to_string(), note: None },
        email: "jerry@widgets.biz".to_string(),
        max_costs: whole(9999999),
        total_costs: Costs::new(),
        active: true,
        created: now.clone(),
        updated: now.clone(),
        deleted: None,
    }
}

#[allow(dead_code)]
fn make_member_worker(
    id: &MemberID,
    user_id: &UserID,
    company_id: &CompanyID,
    occupation_id: &OccupationID,
    permissions: Vec<CompanyPermission>,
    now: &Timestamp,
) -> Member {
    Member {
        id: id.clone(),
        inner: vf::AgentRelationship {
            subject: AgentID::UserID(user_id.clone()),
            object: AgentID::CompanyID(company_id.clone()),
            note: None,
        },
        class: MemberClass::Worker(MemberWorker::new(occupation_id.clone(), None)),
        permissions,
        agreement: None,
        active: true,
        created: now.clone(),
        updated: now.clone(),
        deleted: None,
    }
}

#[allow(dead_code)]
fn make_process(id: &ProcessID, company_id: &CompanyID, name: &str, costs: &Costs, now: &Timestamp) -> Process {
    Process {
        id: id.clone(),
        inner: vf::Process {
            name: name.to_string(),
            note: None,
            based_on: None,
            has_beginning: None,
            has_end: None,
            finished: None,
        },
        company_id: company_id.clone(),
        costs: costs.clone(),
        active: true,
        created: now.clone(),
        updated: now.clone(),
        deleted: None,
    }
}

#[allow(dead_code)]
fn make_resource(id: &ResourceID, company_id: &CompanyID, measure: &Measure, costs: &Costs, now: &Timestamp) -> Resource {
    Resource {
        id: id.clone(),
        inner: vf::EconomicResource {
            accounting_quantity: Some(measure.clone()),
            onhand_quantity: Some(measure.clone()),
            primary_accountable: Some(AgentID::CompanyID(company_id.clone())),
            conforms_to: ResourceSpecID::new("6969"),
            current_location: None,
            lot: None,
            name: None,
            note: None,
            tracking_identifier: None,
            unit_of_effort: None,
        },
        classified_as: vec![],
        in_custody_of: AgentID::CompanyID(company_id.clone()),
        costs: costs.clone(),
        active: true,
        created: now.clone(),
        updated: now.clone(),
        deleted: None,
    }
}

#[allow(dead_code)]
fn make_agreement(id: &AgreementID, participants: &Vec<AgentID>, name: &str, note: &str, now: &Timestamp) -> Agreement {
    Agreement {
        id: id.clone(),
        inner: vf::Agreement { name: Some(name.to_string()), note: Some(note.to_string()), created: Some(now.clone()) },
        participants: participants.clone(),
        active: true,
        created: now.clone(),
        updated: now.clone(),
        deleted: None,
    }
}

#[allow(dead_code)]
fn make_account(id: &AccountID, user_id: &UserID, balance: Num, name: &str, now: &Timestamp) -> Account {
    Account {
        id: id.clone(),
        user_ids: vec![user_id.clone()],
        multisig: vec![],
        name: name.to_string(),
        description: "this is my account".to_string(),
        balance,
        ubi: None,
        active: true,
        created: now.clone(),
        updated: now.clone(),
        deleted: None,
    }
}

/// A user, a company and a worker of that company with the given
/// permissions.
#[allow(dead_code)]
#[derive(Clone)]
struct TestState {
    user: User,
    member: Member,
    company: Company,
}

#[allow(dead_code)]
impl TestState {
    fn standard(permissions: Vec<CompanyPermission>, now: &Timestamp) -> TestState {
        let user = make_user(&UserID::create(), None, now);
        let company = make_company(&CompanyID::create(), "jerry's widgets", now);
        let member = make_member_worker(&MemberID::create(), &user.id, &company.id, &OccupationID::new("machinist"), permissions, now);
        TestState { user, member, company }
    }
}

/// The checks every company-scoped transaction makes: a user whose roles do
/// not allow it, a member whose permissions do not allow it, and a deleted
/// company are all turned away.
#[allow(dead_code)]
fn standard_transaction_tests<F>(state: &TestState, testfn: &F)
where
    F: Fn(&TestState) -> Result<Modifications, Error>,
{
    let mut s1 = state.clone();
    s1.user.roles = vec![];
    assert_eq!(testfn(&s1).err(), Some(Error::InsufficientPrivileges));

    let mut s2 = state.clone();
    s2.member.permissions = vec![];
    assert_eq!(testfn(&s2).err(), Some(Error::InsufficientPrivileges));

    let mut s3 = state.clone();
    s3.company.deleted = Some(now());
    assert_eq!(testfn(&s3).err(), Some(Error::ObjectIsInactive("company".to_string())));
}

/// The checks of a transaction scoped to the user alone: without a role
/// that allows it, or inactive, the user is turned away.
#[allow(dead_code)]
fn user_transaction_tests<F>(state: &TestState, testfn: &F)
where
    F: Fn(&TestState) -> Result<Modifications, Error>,
{
    let mut s1 = state.clone();
    s1.user.roles = vec![];
    assert_eq!(testfn(&s1).err(), Some(Error::InsufficientPrivileges));

    let mut s2 = state.clone();
    s2.user.active = false;
    assert_eq!(testfn(&s2).err(), Some(Error::InsufficientPrivileges));
}


#[allow(dead_code)]
fn ts(s: &str) -> Timestamp {
    let dt = chrono::DateTime::parse_from_rfc3339(s).unwrap();
    Timestamp::new(dt.timestamp(), dt.timestamp_subsec_nanos())
}

// ---- tests ----
use basis_core::measure::Unit as MeasureUnit;
use basis_core::models::company_member::CompanyMember;
use basis_core::models::ids::CompanyMemberID;
use basis_core::models::member::{Compensation, MemberCompany, MemberUser};
use basis_core::transactions::company_member as cm;
use basis_core::transactions::member::{create, delete, set_compensation, set_permissions, update};

fn make_member(id: &CompanyMemberID, user_id: &UserID, company_id: &CompanyID, occupation_id: &OccupationID, permissions: Vec<CompanyPermission>, now: &Timestamp) -> CompanyMember {
    CompanyMember {
        id: id.clone(),
        inner: vf::AgentRelationship {
            subject: AgentID::UserID(user_id.clone()),
            object: AgentID::CompanyID(company_id.clone()),
            note: None,
        },
        occupation: occupation_id.clone(),
        permissions,
        compensation: None,
        agreement: None,
        active: true,
        created: now.clone(),
        updated: now.clone(),
        deleted: None,
    }
}

#[test]
fn member_can() {
    let now = now();
    let member = make_member_worker(&MemberID::create(), &UserID::create(), &CompanyID::create(), &OccupationID::create(), vec![CompanyPermission::MemberCreate, CompanyPermission::MemberUpdate], &now);
    let user_id: UserID = member.member_id().clone().into_user_id().unwrap();
    let company_id: CompanyID = member.group_id().clone().into_company_id().unwrap();
    assert!(member.can(&CompanyPermission::MemberCreate));
    assert!(member.access_check(&user_id, &company_id, CompanyPermission::MemberCreate).is_ok());
    assert!(member.access_check(&user_id, &company_id, CompanyPermission::CompanyDelete).is_err());

    let mut member2 = member.clone();
    member2.permissions = vec![CompanyPermission::MemberCreate, CompanyPermission::MemberUpdate, CompanyPermission::CompanyDelete];
    assert!(member2.can(&CompanyPermission::MemberCreate));
    assert!(member2.access_check(&user_id, &company_id, CompanyPermission::MemberCreate).is_ok());
    assert!(member2.access_check(&user_id, &company_id, CompanyPermission::CompanyDelete).is_ok());

    let mut member3 = member2.clone();
    member3.permissions = vec![];
    assert!(!member3.can(&CompanyPermission::MemberCreate));
    assert!(member3.access_check(&user_id, &company_id, CompanyPermission::MemberCreate).is_err());
    assert!(member3.access_check(&user_id, &company_id, CompanyPermission::CompanyDelete).is_err());

    let mut member4 = member2.clone();
    member4.set_deleted(Some(now.clone()));
    assert!(!member4.can(&CompanyPermission::MemberCreate));
    assert!(member4.access_check(&user_id, &company_id, CompanyPermission::MemberCreate).is_err());
    assert!(member4.access_check(&user_id, &company_id, CompanyPermission::CompanyDelete).is_err());

    let mut member5 = member2.clone();
    member5.set_active(false);
    assert!(!member5.can(&CompanyPermission::MemberCreate));
    assert!(member5.access_check(&user_id, &company_id, CompanyPermission::MemberCreate).is_err());
    assert!(member5.access_check(&user_id, &company_id, CompanyPermission::CompanyDelete).is_err());

    let mut member6 = member2.clone();
    member6.inner.subject = AgentID::UserID(UserID::create());
    assert!(member6.can(&CompanyPermission::MemberCreate));
    assert!(member6.access_check(&user_id, &company_id, CompanyPermission::MemberCreate).is_err());
    assert!(member6.access_check(&user_id, &company_id, CompanyPermission::CompanyDelete).is_err());

    let mut member7 = member2.clone();
    member7.inner.object = AgentID::CompanyID(CompanyID::create());
    assert!(member7.can(&CompanyPermission::MemberCreate));
    assert!(member7.access_check(&user_id, &company_id, CompanyPermission::MemberCreate).is_err());
    assert!(member7.access_check(&user_id, &company_id, CompanyPermission::CompanyDelete).is_err());
}

#[test]
fn company_member_can() {
    let now = now();
    let member = make_member(&CompanyMemberID::create(), &UserID::create(), &CompanyID::create(), &OccupationID::create(), vec![CompanyPermission::MemberCreate, CompanyPermission::MemberUpdate], &now);
    let user_id: UserID = member.user_id().unwrap();
    let company_id: CompanyID = member.company_id().unwrap();
    assert!(member.can(&CompanyPermission::MemberCreate));
    assert!(member.access_check(&user_id, &company_id, CompanyPermission::MemberCreate).is_ok());
    assert!(member.access_check(&user_id, &company_id, CompanyPermission::CompanyDelete).is_err());

    let mut member2 = member.clone();
    member2.permissions = vec![CompanyPermission::MemberCreate, CompanyPermission::MemberUpdate, CompanyPermission::CompanyDelete];
    assert!(member2.can(&CompanyPermission::MemberCreate));
    assert!(member2.access_check(&user_id, &company_id, CompanyPermission::MemberCreate).is_ok());
    assert!(member2.access_check(&user_id, &company_id, CompanyPermission::CompanyDelete).is_ok());

    let mut member3 = member2.clone();
    member3.permissions = vec![];
    assert!(!member3.can(&CompanyPermission::MemberCreate));
    assert!(member3.access_check(&user_id, &company_id, CompanyPermission::MemberCreate).is_err());
    assert!(member3.access_check(&user_id, &company_id, CompanyPermission::CompanyDelete).is_err());

    let mut member4 = member2.clone();
    member4.set_deleted(Some(now.clone()));
    assert!(!member4.can(&CompanyPermission::MemberCreate));
    assert!(member4.access_check(&user_id, &company_id, CompanyPermission::MemberCreate).is_err());
    assert!(member4.access_check(&user_id, &company_id, CompanyPermission::CompanyDelete).is_err());

    let mut member5 = member2.clone();
    member5.set_active(false);
    assert!(!member5.can(&CompanyPermission::MemberCreate));
    assert!(member5.access_check(&user_id, &company_id, CompanyPermission::MemberCreate).is_err());
    assert!(member5.access_check(&user_id, &company_id, CompanyPermission::CompanyDelete).is_err());

    let mut member6 = member2.clone();
    member6.inner.subject = AgentID::UserID(UserID::create());
    assert!(member6.can(&CompanyPermission::MemberCreate));
    assert!(member6.access_check(&user_id, &company_id, CompanyPermission::MemberCreate).is_err());
    assert!(member6.access_check(&user_id, &company_id, CompanyPermission::CompanyDelete).is_err());

    let mut member7 = member2.clone();
    member7.inner.object = AgentID::CompanyID(CompanyID::create());
    assert!(member7.can(&CompanyPermission::MemberCreate));
    assert!(member7.access_check(&user_id, &company_id, CompanyPermission::MemberCreate).is_err());
    assert!(member7.access_check(&user_id, &company_id, CompanyPermission::CompanyDelete).is_err());
}

fn new_member(state: &TestState, id: &MemberID, new_user: &User, occupation_id: &OccupationID, agreement: Option<String>, now: &Timestamp) -> Member {
    let class = MemberClass::Worker(MemberWorker::new(occupation_id.clone(), None));
    let mods = mods_of(create(&state.user, &state.member, id.clone(), new_user.clone(), state.company.clone(), class, vec![], agreement, true, now));
    expect(&mods[0], Op::Create)
}

#[test]
fn member_can_create() {
    let now = now();
    let id = MemberID::create();
    let state = TestState::standard(vec![CompanyPermission::MemberCreate], &now);
    let occupation_id = OccupationID::create();
    let agreement = "https://mydoc.com/work_agreement_1".to_string();
    let new_user = make_user(&UserID::create(), None, &now);
    let new_class = MemberClass::Worker(MemberWorker::new(occupation_id.clone(), None));

    let testfn_inner = |state: &TestState, model: &User| {
        create(&state.user, &state.member, id.clone(), model.clone(), state.company.clone(), new_class.clone(), vec![], Some(agreement.clone()), true, &now)
    };
    let testfn = |state: &TestState| testfn_inner(state, &new_user);
    standard_transaction_tests(&state, &testfn);

    let mods = mods_of(testfn(&state));
    assert_eq!(mods.len(), 1);
    let member: Member = expect(&mods[0], Op::Create);
    assert_eq!(member.id, id);
    assert_eq!(member.inner.subject, AgentID::UserID(new_user.id.clone()));
    assert_eq!(member.inner.object, AgentID::CompanyID(state.company.id.clone()));
    assert_eq!(member.occupation_id().unwrap(), &occupation_id);
    assert_eq!(member.permissions.len(), 0);
    assert_eq!(member.agreement, Some(agreement.clone()));
    assert_eq!(member.active, true);
    assert_eq!(member.created, now);
    assert_eq!(member.updated, now);
    assert_eq!(member.deleted, None);
    assert_eq!(member.is_active(), true);
    assert_eq!(member.is_deleted(), false);

    let mut new_user2 = new_user.clone();
    new_user2.set_deleted(Some(now.clone()));
    let res = testfn_inner(&state, &new_user2);
    assert_eq!(res, Err(Error::ObjectIsInactive("agent".into())));
}

#[test]
fn member_can_update() {
    let now = now();
    let id = MemberID::create();
    let state = TestState::standard(vec![CompanyPermission::MemberCreate, CompanyPermission::MemberUpdate], &now);
    let occupation_id = OccupationID::create();
    let agreement = "https://mydoc.com/work_agreement_1".to_string();
    let new_user = make_user(&UserID::create(), None, &now);
    let model = new_member(&state, &id, &new_user, &occupation_id, None, &now);

    let now2 = later();
    let new_occupation = OccupationID::create();
    let testfn_inner = |state: &TestState, model: &Member| {
        update(&state.user, &state.member, &state.company, model.clone(), Some(new_occupation.clone()), Some(agreement.clone()), None, &now2)
    };
    let testfn = |state: &TestState| testfn_inner(state, &model);

    let mods = mods_of(testfn(&state));
    assert_eq!(mods.len(), 1);
    let member2: Member = expect(&mods[0], Op::Update);
    assert_eq!(model.id, member2.id);
    assert_eq!(model.created, member2.created);
    assert!(model.updated != member2.updated);
    assert_eq!(member2.updated, now2);
    assert!(model.agreement != member2.agreement);
    assert_eq!(member2.agreement, Some(agreement.clone()));
    assert_eq!(member2.active, true);
    assert_eq!(member2.occupation_id().unwrap(), &new_occupation);

    let mut state2 = state.clone();
    state2.member = model.clone();
    let res = testfn(&state2);
    assert_eq!(res, Err(Error::InsufficientPrivileges));

    let mut state3 = state.clone();
    state3.user = new_user.clone();
    let res = testfn(&state3);
    assert_eq!(res, Err(Error::InsufficientPrivileges));

    let mut model4 = model.clone();
    model4.class = MemberClass::User(MemberUser::new());
    let res = testfn_inner(&state, &model4);
    assert_eq!(res, Err(Error::MemberMustBeWorker));
    model4.class = MemberClass::Company(MemberCompany::new());
    let res = testfn_inner(&state, &model4);
    assert_eq!(res, Err(Error::MemberMustBeWorker));
}

#[test]
fn member_can_set_permissions() {
    let now = now();
    let id = MemberID::create();
    let state = TestState::standard(vec![CompanyPermission::MemberCreate, CompanyPermission::MemberSetPermissions], &now);
    let new_user = make_user(&UserID::create(), None, &now);
    let model = new_member(&state, &id, &new_user, &OccupationID::create(), None, &now);

    let now2 = later();
    let testfn_inner = |state: &TestState, model: &Member| {
        set_permissions(&state.user, &state.member, &state.company, model.clone(), vec![CompanyPermission::ResourceSpecCreate], &now2)
    };
    let testfn = |state: &TestState| testfn_inner(state, &model);
    standard_transaction_tests(&state, &testfn);

    let mods = mods_of(testfn(&state));
    assert_eq!(mods.len(), 1);
    let member2: Member = expect(&mods[0], Op::Update);
    assert_eq!(member2.permissions, vec![CompanyPermission::ResourceSpecCreate]);
    assert!(!model.can(&CompanyPermission::ResourceSpecCreate));
    assert!(member2.can(&CompanyPermission::ResourceSpecCreate));
    assert_eq!(member2.updated, now2);

    let mut model2 = model.clone();
    model2.class = MemberClass::User(MemberUser::new());
    assert!(testfn_inner(&state, &model2).is_ok());
    model2.class = MemberClass::Company(MemberCompany::new());
    assert!(testfn_inner(&state, &model2).is_ok());
}

#[test]
fn member_can_set_compensation() {
    let now = now();
    let id = MemberID::create();
    let state = TestState::standard(vec![CompanyPermission::MemberCreate, CompanyPermission::MemberSetCompensation], &now);
    let new_user = make_user(&UserID::create(), None, &now);
    let model = new_member(&state, &id, &new_user, &OccupationID::create(), None, &now);

    let compensation = Compensation::new_hourly(whole(32), AccountID::create());
    let now2 = later();
    let testfn_inner = |state: &TestState, model: &Member| {
        set_compensation(&state.user, &state.member, &state.company, model.clone(), compensation.clone(), &now2)
    };
    let testfn = |state: &TestState| testfn_inner(state, &model);
    standard_transaction_tests(&state, &testfn);

    let mods = mods_of(testfn(&state));
    assert_eq!(mods.len(), 1);
    let member2: Member = expect(&mods[0], Op::Update);
    assert_eq!(model.compensation(), None);
    assert_eq!(member2.compensation().unwrap().wage, Measure::new(whole(32), MeasureUnit::hour()));
    assert_eq!(member2.compensation().unwrap(), &compensation);
    assert_eq!(member2.updated, now2);

    let mut model2 = model.clone();
    model2.class = MemberClass::User(MemberUser::new());
    assert_eq!(testfn_inner(&state, &model2), Err(Error::MemberMustBeWorker));
    model2.class = MemberClass::Company(MemberCompany::new());
    assert_eq!(testfn_inner(&state, &model2), Err(Error::MemberMustBeWorker));
}

#[test]
fn member_can_delete() {
    let now = now();
    let id = MemberID::create();
    let state = TestState::standard(vec![CompanyPermission::MemberCreate, CompanyPermission::MemberDelete], &now);
    let new_user = make_user(&UserID::create(), None, &now);
    let model = new_member(&state, &id, &new_user, &OccupationID::create(), None, &now);

    let now2 = later();
    let testfn_inner = |state: &TestState, model: &Member| {
        delete(&state.user, &state.member, &state.company, model.clone(), &now2)
    };
    let testfn = |state: &TestState| testfn_inner(state, &model);
    standard_transaction_tests(&state, &testfn);
    let mut deleted_model = model.clone();
    deleted_model.set_deleted(Some(now2.clone()));
    assert_eq!(testfn_inner(&state, &deleted_model), Err(Error::ObjectIsDeleted("member".into())));

    let mods = mods_of(testfn(&state));
    assert_eq!(mods.len(), 1);
    let member2: Member = expect(&mods[0], Op::Delete);
    assert_eq!(member2.deleted, Some(now2.clone()));
    assert!(member2.is_deleted());
    assert!(member2.active);
    assert!(!member2.is_active());
}

#[test]
fn company_member_can_create() {
    let now = now();
    let id = CompanyMemberID::create();
    let company = make_company(&CompanyID::create(), "jerry's widgets", &now);
    let occupation_id = OccupationID::create();
    let agreement = "https://mydoc.com/work_agreement_1".to_string();
    let user = make_user(&UserID::create(), None, &now);
    let new_user = make_user(&UserID::create(), None, &now);
    let existing_member = make_member(&CompanyMemberID::create(), &user.id, &company.id, &OccupationID::create(), vec![CompanyPermission::MemberCreate], &now);

    let mods = mods_of(cm::create(&user, &existing_member, id.clone(), new_user.clone(), company.clone(), occupation_id.clone(), vec![], Some(agreement.clone()), true, &now));
    assert_eq!(mods.len(), 1);
    let member: CompanyMember = expect(&mods[0], Op::Create);
    assert_eq!(member.id, id);
    assert_eq!(member.inner.subject, AgentID::UserID(new_user.id.clone()));
    assert_eq!(member.inner.object, AgentID::CompanyID(company.id.clone()));
    assert_eq!(member.occupation, occupation_id);
    assert_eq!(member.permissions.len(), 0);
    assert_eq!(member.agreement, Some(agreement.clone()));
    assert_eq!(member.active, true);
    assert_eq!(member.created, now);
    assert_eq!(member.updated, now);
    assert_eq!(member.deleted, None);
    assert_eq!(member.is_active(), true);
    assert_eq!(member.is_deleted(), false);

    let user2 = make_user(&user.id, Some(vec![]), &now);
    let res = cm::create(&user2, &existing_member, id.clone(), new_user.clone(), company.clone(), occupation_id.clone(), vec![], Some(agreement.clone()), true, &now);
    assert_eq!(res, Err(Error::InsufficientPrivileges));

    let user3 = make_user(&UserID::create(), None, &now);
    let res = cm::create(&user3, &existing_member, id.clone(), new_user.clone(), company.clone(), occupation_id.clone(), vec![], Some(agreement.clone()), true, &now);
    assert_eq!(res, Err(Error::InsufficientPrivileges));

    let mut company2 = company.clone();
    company2.set_deleted(Some(now.clone()));
    let res = cm::create(&user, &existing_member, id.clone(), new_user.clone(), company2.clone(), occupation_id.clone(), vec![], Some(agreement.clone()), true, &now);
    assert_eq!(res, Err(Error::ObjectIsDeleted("company".into())));

    let mut new_user2 = new_user.clone();
    new_user2.set_deleted(Some(now.clone()));
    let res = cm::create(&user, &existing_member, id.clone(), new_user2.clone(), company.clone(), occupation_id.clone(), vec![], Some(agreement.clone()), true, &now);
    assert_eq!(res, Err(Error::UserIsDeleted));
}

fn company_member_fixture(now: &Timestamp) -> (User, User, CompanyMember, CompanyMember) {
    let id = CompanyMemberID::create();
    let company = make_company(&CompanyID::create(), "jerry's widgets", now);
    let user = make_user(&UserID::create(), None, now);
    let new_user = make_user(&UserID::create(), None, now);
    let existing_member = make_member(&CompanyMemberID::create(), &user.id, &company.id, &OccupationID::create(), vec![CompanyPermission::MemberCreate], now);
    let mods = mods_of(cm::create(&user, &existing_member, id.clone(), new_user.clone(), company.clone(), OccupationID::create(), vec![], None, true, now));
    let member: CompanyMember = expect(&mods[0], Op::Create);
    (user, new_user, existing_member, member)
}

#[test]
fn company_member_can_update() {
    let now = now();
    let agreement = "https://mydoc.com/work_agreement_1".to_string();
    let (user, new_user, mut existing_member, member) = company_member_fixture(&now);

    // fails because existing_member doesn't have update perm
    let now2 = later();
    let new_occupation = OccupationID::create();
    let res = cm::update(&user, &existing_member, member.clone(), Some(new_occupation.clone()), None, None, &now2);
    assert_eq!(res, Err(Error::InsufficientPrivileges));

    existing_member.permissions = vec![CompanyPermission::MemberUpdate];
    let mods = mods_of(cm::update(&user, &existing_member, member.clone(), Some(new_occupation.clone()), Some(agreement.clone()), None, &now2));
    assert_eq!(mods.len(), 1);

    let member2: CompanyMember = expect(&mods[0], Op::Update);
    assert_eq!(member.id, member2.id);
    assert_eq!(member.created, member2.created);
    assert!(member.updated != member2.updated);
    assert_eq!(member2.updated, now2);
    assert!(member.agreement != member2.agreement);
    assert_eq!(member2.agreement, Some(agreement.clone()));
    assert_eq!(member2.active, true);
    assert_eq!(member2.occupation, new_occupation);

    let res = cm::update(&user, &member, member.clone(), Some(new_occupation.clone()), Some(agreement.clone()), None, &now2);
    assert_eq!(res, Err(Error::InsufficientPrivileges));

    let res = cm::update(&new_user, &existing_member, member.clone(), Some(new_occupation.clone()), Some(agreement.clone()), None, &now2);
    assert_eq!(res, Err(Error::InsufficientPrivileges));
}

#[test]
fn company_member_can_set_permissions() {
    let now = now();
    let (user, _new_user, mut existing_member, member) = company_member_fixture(&now);

    let now2 = later();
    let res = cm::set_permissions(&user, &existing_member, member.clone(), vec![CompanyPermission::ResourceSpecCreate], &now2);
    assert_eq!(res, Err(Error::InsufficientPrivileges));

    existing_member.permissions = vec![CompanyPermission::MemberSetPermissions];
    let mods = mods_of(cm::set_permissions(&user, &existing_member, member.clone(), vec![CompanyPermission::ResourceSpecCreate], &now2));
    assert_eq!(mods.len(), 1);
    let member2: CompanyMember = expect(&mods[0], Op::Update);
    assert_eq!(member2.permissions, vec![CompanyPermission::ResourceSpecCreate]);
    assert!(!member.can(&CompanyPermission::ResourceSpecCreate));
    assert!(member2.can(&CompanyPermission::ResourceSpecCreate));
    assert_eq!(member2.updated, now2);

    let mut user2 = user.clone();
    user2.roles = vec![];
    let res = cm::set_permissions(&user2, &existing_member, member.clone(), vec![CompanyPermission::ResourceSpecCreate], &now2);
    assert_eq!(res, Err(Error::InsufficientPrivileges));
}

#[test]
fn company_member_can_set_compensation() {
    let now = now();
    let (user, _new_user, mut existing_member, member) = company_member_fixture(&now);

    let compensation = Compensation::new_hourly(whole(32), AccountID::create());
    let now2 = later();
    let res = cm::set_compensation(&user, &existing_member, member.clone(), compensation.clone(), &now2);
    assert_eq!(res, Err(Error::InsufficientPrivileges));

    existing_member.permissions = vec![CompanyPermission::MemberSetCompensation];
    let mods = mods_of(cm::set_compensation(&user, &existing_member, member.clone(), compensation.clone(), &now2));
    assert_eq!(mods.len(), 1);
    let member2: CompanyMember = expect(&mods[0], Op::Update);
    assert_eq!(member.compensation, None);
    assert_eq!(member2.compensation.as_ref().unwrap().wage, Measure::new(whole(32), MeasureUnit::hour()));
    assert_eq!(member2.compensation.as_ref().unwrap(), &compensation);
    assert_eq!(member2.updated, now2);

    let mut user2 = user.clone();
    user2.roles = vec![];
    let res = cm::set_compensation(&user2, &existing_member, member.clone(), compensation.clone(), &now2);
    assert_eq!(res, Err(Error::InsufficientPrivileges));
}

#[test]
fn company_member_can_delete() {
    let now = now();
    let (user, _new_user, mut existing_member, member) = company_member_fixture(&now);

    let now2 = later();
    let res = cm::delete(&user, &existing_member, member.clone(), &now2);
    assert_eq!(res, Err(Error::InsufficientPrivileges));

    existing_member.permissions = vec![CompanyPermission::MemberDelete];
    let mods = mods_of(cm::delete(&user, &existing_member, member.clone(), &now2));
    assert_eq!(mods.len(), 1);

    let member2: CompanyMember = expect(&mods[0], Op::Delete);
    assert_eq!(member2.deleted, Some(now2.clone()));
    assert!(member2.is_deleted());
    assert!(member2.active);
    assert!(!member2.is_active());

    let mut user2 = user.clone();
    user2.roles = vec![];
    let res = cm::delete(&user2, &existing_member, member.clone(), &now2);
    assert_eq!(res, Err(Error::InsufficientPrivileges));
}
