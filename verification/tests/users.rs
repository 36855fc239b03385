// ---- fixtures shared by the tests in this file ----

use basis_core::access::Role;
use basis_core::costs::Costs;
use basis_core::error::Error;
use basis_core::measure::{Measure, Unit};
use basis_core::models::account::Account;
use basis_core::models::agreement::Agreement;
use basis_core::models::company::{Company, Permission as CompanyPermission};
use basis_core::models::ids::{
    AccountID, AgreementID, CompanyID, EventID, MemberID, OccupationID, ProcessID, ResourceID,
    ResourceSpecID, UserID,
};
use basis_core::models::lib::agent::AgentID;
use basis_core::models::member::{Member, MemberClass, MemberWorker};
use basis_core::models::process::Process;
use basis_core::models::resource::Resource;
use basis_core::models::user::User;
use basis_core::models::vf;
use basis_core::models::{FromModel, Modification, Modifications, Op};
use basis_core::num::Num;
use basis_core::time::Timestamp;
use rust_decimal::Decimal;
use std::str::FromStr;

#[allow(dead_code)]
fn num(s: &str) -> Num {
    let d = Decimal::from_str(s).unwrap();
    Num::from_i128_with_scale(d.mantissa(), d.scale())
}

#[allow(dead_code)]
fn whole(n: i64) -> Num {
    Num::from_i64(n)
}

#[allow(dead_code)]
fn now() -> Timestamp {
    Timestamp::new(1_600_000_000, 1_000_000)
}

#[allow(dead_code)]
fn later() -> Timestamp {
    Timestamp::new(1_600_000_600, 2_000_000)
}

#[allow(dead_code)]
fn labor(id: &str, v: i64) -> Costs {
    Costs::new_with_labor(&OccupationID::new(id), whole(v)).unwrap()
}

#[allow(dead_code)]
fn same(a: &Costs, b: &Costs) -> bool {
    a.same_as(b)
}

#[allow(dead_code)]
fn meas(v: i64, unit: &str) -> Measure {
    Measure::new(whole(v), Unit::new(unit))
}

#[allow(dead_code)]
fn expect<T: FromModel>(m: &Modification, op: Op) -> T {
    m.clone().expect_op::<T>(op).unwrap()
}

#[allow(dead_code)]
fn mods_of(r: Result<Modifications, Error>) -> Vec<Modification> {
    r.unwrap().into_vec()
}

#[allow(dead_code)]
fn make_user(id: &UserID, roles: Option<Vec<Role>>, now: &Timestamp) -> User {
    User {
        id: id.clone(),
        roles: roles.unwrap_or(vec![Role::User]),
        email: "surely@hotmail.com".to_string(),
        name: "buzzin' frog".to_string(),
        active: true,
        created: now.clone(),
        updated: now.clone(),
        deleted: None,
    }
}

#[allow(dead_code)]
fn make_company(id: &CompanyID, name: &str, now: &Timestamp) -> Company {
    Company {
        id: id.clone(),
        inner: vf::Agent { name: name.to_string(), note: None },
        email: "jerry@widgets.biz".to_string(),
        max_costs: whole(9999999),
        total_costs: Costs::new(),
        active: true,
        created: now.clone(),
        updated: now.clone(),
        deleted: None,
    }
}

#[allow(dead_code)]
fn make_member_worker(
    id: &MemberID,
    user_id: &UserID,
    company_id: &CompanyID,
    occupation_id: &OccupationID,
    permissions: Vec<CompanyPermission>,
    now: &Timestamp,
) -> Member {
    Member {
        id: id.clone(),
        inner: vf::AgentRelationship {
            subject: AgentID::UserID(user_id.clone()),
            object: AgentID::CompanyID(company_id.clone()),
            note: None,
        },
        class: MemberClass::Worker(MemberWorker::new(occupation_id.clone(), None)),
        permissions,
        agreement: None,
        active: true,
        created: now.clone(),
        updated: now.clone(),
        deleted: None,
    }
}

#[allow(dead_code)]
fn make_process(id: &ProcessID, company_id: &CompanyID, name: &str, costs: &Costs, now: &Timestamp) -> Process {
    Process {
        id: id.clone(),
        inner: vf::Process {
            name: name.to_string(),
            note: None,
            based_on: None,
            has_beginning: None,
            has_end: None,
            finished: None,
        },
        company_id: company_id.clone(),
        costs: costs.clone(),
        active: true,
        created: now.clone(),
        updated: now.clone(),
        deleted: None,
    }
}

#[allow(dead_code)]
fn make_resource(id: &ResourceID, company_id: &CompanyID, measure: &Measure, costs: &Costs, now: &Timestamp) -> Resource {
    Resource {
        id: id.clone(),
        inner: vf::EconomicResource {
            accounting_quantity: Some(measure.clone()),
            onhand_quantity: Some(measure.clone()),
            primary_accountable: Some(AgentID::CompanyID(company_id.clone())),
            conforms_to: ResourceSpecID::new("6969"),
            current_location: None,
            lot: None,
            name: None,
            note: None,
            tracking_identifier: None,
            unit_of_effort: None,
        },
        classified_as: vec![],
        in_custody_of: AgentID::CompanyID(company_id.clone()),
        costs: costs.clone(),
        active: true,
        created: now.clone(),
        updated: now.clone(),
        deleted: None,
    }
}

#[allow(dead_code)]
fn make_agreement(id: &AgreementID, participants: &Vec<AgentID>, name: &str, note: &str, now: &Timestamp) -> Agreement {
    Agreement {
        id: id.clone(),
        inner: vf::Agreement { name: Some(name.to_string()), note: Some(note.to_string()), created: Some(now.clone()) },
        participants: participants.clone(),
        active: true,
        created: now.clone(),
        updated: now.clone(),
        deleted: None,
    }
}

#[allow(dead_code)]
fn make_account(id: &AccountID, user_id: &UserID, balance: Num, name: &str, now: &Timestamp) -> Account {
    Account {
        id: id.clone(),
        user_ids: vec![user_id.clone()],
        multisig: vec![],
        name: name.to_string(),
        description: "this is my account".to_string(),
        balance,
        ubi: None,
        active: true,
        created: now.clone(),
        updated: now.clone(),
        deleted: None,
    }
}

/// A user, a company and a worker of that company with the given
/// permissions.
#[allow(dead_code)]
#[derive(Clone)]
struct TestState {
    user: User,
    member: Member,
    company: Company,
}

#[allow(dead_code)]
impl TestState {
    fn standard(permissions: Vec<CompanyPermission>, now: &Timestamp) -> TestState {
        let user = make_user(&UserID::create(), None, now);
        let company = make_company(&CompanyID::create(), "jerry's widgets", now);
        let member = make_member_worker(&MemberID::create(), &user.id, &company.id, &OccupationID::new("machinist"), permissions, now);
        TestState { user, member, company }
    }
}

/// The checks every company-scoped transaction makes: a user whose roles do
/// not allow it, a member whose permissions do not allow it, and a deleted
/// company are all turned away.
#[allow(dead_code)]
fn standard_transaction_tests<F>(state: &TestState, testfn: &F)
where
    F: Fn(&TestState) -> Result<Modifications, Error>,
{
    let mut s1 = state.clone();
    s1.user.roles = vec![];
    assert_eq!(testfn(&s1).err(), Some(Error::InsufficientPrivileges));

    let mut s2 = state.clone();
    s2.member.permissions = vec![];
    assert_eq!(testfn(&s2).err(), Some(Error::InsufficientPrivileges));

    let mut s3 = state.clone();
    s3.company.deleted = Some(now());
    assert_eq!(testfn(&s3).err(), Some(Error::ObjectIsInactive("company".to_string())));
}

/// The checks of a transaction scoped to the user alone: without a role
/// that allows it, or inactive, the user is turned away.
#[allow(dead_code)]
fn user_transaction_tests<F>(state: &TestState, testfn: &F)
where
    F: Fn(&TestState) -> Result<Modifications, Error>,
{
    let mut s1 = state.clone();
    s1.user.roles = vec![];
    assert_eq!(testfn(&s1).err(), Some(Error::InsufficientPrivileges));

    let mut s2 = state.clone();
    s2.user.active = false;
    assert_eq!(testfn(&s2).err(), Some(Error::InsufficientPrivileges));
}


#[allow(dead_code)]
fn ts(s: &str) -> Timestamp {
    let dt = chrono::DateTime::parse_from_rfc3339(s).unwrap();
    Timestamp::new(dt.timestamp(), dt.timestamp_subsec_nanos())
}

// ---- tests ----
use basis_core::access::{guest_check, Permission};
use basis_core::transactions::user::{create, create_permissioned, delete, set_roles, update};

#[test]
fn permissions_work() {
    let super_admin = Role::SuperAdmin;
    assert!(super_admin.can(&Permission::All));
    assert!(super_admin.can(&Permission::UserCreate));
    assert!(super_admin.can(&Permission::UserUpdate));
    assert!(super_admin.can(&Permission::UserAdminUpdate));
    assert!(super_admin.can(&Permission::UserDelete));
    assert!(super_admin.can(&Permission::CompanyCreate));
    assert!(super_admin.can(&Permission::CompanyAdminUpdate));
    assert!(super_admin.can(&Permission::CompanyAdminDelete));

    let comp_admin = Role::CompanyAdmin;
    assert!(!comp_admin.can(&Permission::UserCreate));
    assert!(!comp_admin.can(&Permission::UserUpdate));
    assert!(!comp_admin.can(&Permission::UserAdminUpdate));
    assert!(!comp_admin.can(&Permission::UserDelete));
    assert!(!comp_admin.can(&Permission::CompanyCreate));
    assert!(comp_admin.can(&Permission::CompanyAdminUpdate));
    assert!(comp_admin.can(&Permission::CompanyAdminDelete));
}

#[test]
fn permissions() {
    let now = now();
    let user = make_user(&UserID::create(), None, &now);
    assert!(user.can(&Permission::UserDelete));
    assert!(user.access_check(Permission::UserDelete).is_ok());
    assert!(user.access_check(Permission::CompanyAdminDelete).is_err());

    let user2 = make_user(&UserID::create(), Some(vec![Role::User, Role::CompanyAdmin]), &now);
    assert!(user2.can(&Permission::UserDelete));
    assert!(user2.access_check(Permission::UserDelete).is_ok());
    assert!(user2.access_check(Permission::CompanyAdminDelete).is_ok());

    let user3 = make_user(&UserID::create(), Some(vec![]), &now);
    assert!(!user3.can(&Permission::UserDelete));
    assert!(user3.access_check(Permission::UserDelete).is_err());
    assert!(user3.access_check(Permission::CompanyAdminDelete).is_err());

    let mut user4 = user2.clone();
    user4.set_deleted(Some(now.clone()));
    assert!(!user4.can(&Permission::UserDelete));
    assert!(user4.access_check(Permission::UserDelete).is_err());
    assert!(user4.access_check(Permission::CompanyAdminDelete).is_err());

    let mut user5 = user2.clone();
    user5.set_active(false);
    assert!(!user5.can(&Permission::UserDelete));
    assert!(user5.access_check(Permission::UserDelete).is_err());
    assert!(user5.access_check(Permission::CompanyAdminDelete).is_err());
}

#[test]
fn user_can_create() {
    let id = UserID::create();
    let now = now();
    let mods = mods_of(create(id.clone(), "zing@lyonbros.com".into(), "leonard".into(), true, &now));
    assert_eq!(mods.len(), 1);

    let model: User = expect(&mods[0], Op::Create);
    assert_eq!(model.id, id);
    assert_eq!(model.email, "zing@lyonbros.com");
    assert_eq!(model.name, "leonard");
    assert_eq!(model.active, true);
}

#[test]
fn can_create_permissioned() {
    let id = UserID::create();
    let now = now();
    let mut state = TestState::standard(vec![], &now);
    state.user = make_user(&id, Some(vec![Role::IdentityAdmin]), &now);

    let testfn = |state: &TestState| {
        create_permissioned(&state.user, id.clone(), vec![Role::User], "zing@lyonbros.com".into(), "leonard".into(), true, &now)
    };

    let mods = mods_of(testfn(&state));
    assert_eq!(mods.len(), 1);
    let model: User = expect(&mods[0], Op::Create);
    assert_eq!(model.id, id);
    assert_eq!(model.email, "zing@lyonbros.com");
    assert_eq!(model.name, "leonard");
    assert_eq!(model.active, true);
    assert_eq!(model.roles, vec![Role::User]);

    let mut state2 = state.clone();
    state2.user.roles = vec![Role::User];
    let res = testfn(&state2);
    assert_eq!(res, Err(Error::InsufficientPrivileges));
}

#[test]
fn user_can_update() {
    let id = UserID::create();
    let now = now();
    let user = make_user(&id, Some(vec![Role::IdentityAdmin]), &now);
    let mods = mods_of(create_permissioned(&user, id.clone(), vec![Role::User], "zing@lyonbros.com".into(), "leonard".into(), true, &now));
    let new_user: User = expect(&mods[0], Op::Create);
    let caller = user;
    let model = new_user;

    let now2 = later();
    let testfn_inner = |caller: &User, model: &User, active: Option<bool>| {
        update(caller, model.clone(), Some("obvious_day@camp.stupid".into()), None, active, &now2)
    };

    let mods = mods_of(testfn_inner(&caller, &model, None));
    let user2: User = expect(&mods[0], Op::Update);
    assert_eq!(user2.email, "obvious_day@camp.stupid");
    assert_eq!(user2.name, "leonard");
    assert_eq!(user2.active, true);
    assert_eq!(user2.updated, now2);

    let mods = mods_of(testfn_inner(&user2, &user2, Some(false)));
    let user3: User = expect(&mods[0], Op::Update);
    assert_eq!(user3.email, "obvious_day@camp.stupid");
    assert_eq!(user3.name, "leonard");
    assert_eq!(user3.active, false);
    assert_eq!(user3.updated, now2);

    let res = testfn_inner(&user3, &model, None);
    assert_eq!(res, Err(Error::InsufficientPrivileges));
}

#[test]
fn can_set_roles() {
    let id = UserID::create();
    let now = now();
    let user = make_user(&id, Some(vec![Role::IdentityAdmin]), &now);

    let now2 = later();
    let testfn = |caller: &User, model: &User| set_roles(caller, model.clone(), vec![Role::User], &now2);

    let mods = mods_of(testfn(&user, &user));
    assert_eq!(mods.len(), 1);

    let user2: User = expect(&mods[0], Op::Update);
    assert_eq!(user2.id, id);
    assert_eq!(user2.roles, vec![Role::User]);
    assert_eq!(user2.updated, now2);

    // the user gave up the role that sets roles: setting them again fails
    let res = testfn(&user2, &user2);
    assert_eq!(res, Err(Error::InsufficientPrivileges));

    // inactive users should not be able to run mods
    let mut user3 = user.clone();
    user3.set_active(false);
    let res = testfn(&user3, &user);
    assert_eq!(res, Err(Error::InsufficientPrivileges));
}

#[test]
fn user_can_delete() {
    let id = UserID::create();
    let now = now();
    let user = make_user(&id, Some(vec![Role::IdentityAdmin]), &now);

    let testfn = |caller: &User, model: &User| delete(caller, model.clone(), &now);

    // deleting what is deleted already fails
    let mut deleted_user = user.clone();
    deleted_user.set_deleted(Some(now.clone()));
    assert_eq!(testfn(&user, &deleted_user), Err(Error::ObjectIsDeleted("user".into())));

    let mods = mods_of(testfn(&user, &user));
    assert_eq!(mods.len(), 1);
    let user2: User = expect(&mods[0], Op::Delete);
    assert_eq!(user2.deleted, Some(now.clone()));

    let res = testfn(&user2, &user2);
    assert_eq!(res, Err(Error::InsufficientPrivileges));
}

// -- the access rules as laws, on concrete values --

#[test]
fn roles_add_up() {
    let now = now();
    let only_user = make_user(&UserID::create(), Some(vec![Role::User]), &now);
    let both = make_user(&UserID::create(), Some(vec![Role::User, Role::CompanyAdmin]), &now);
    for p in [Permission::UserDelete, Permission::CompanyAdminDelete, Permission::UserCreate] {
        let either = only_user.can(&p) || Role::CompanyAdmin.can(&p);
        assert_eq!(both.can(&p), either);
    }
}

#[test]
fn no_roles_no_permissions() {
    let user = make_user(&UserID::create(), Some(vec![]), &now());
    assert!(!user.can(&Permission::All));
    assert!(!user.can(&Permission::UserUpdate));
}

#[test]
fn guests_can_only_sign_up() {
    assert!(guest_check(Permission::UserCreate).is_ok());
    assert_eq!(guest_check(Permission::UserUpdate), Err(Error::InsufficientPrivileges));
    assert_eq!(guest_check(Permission::CompanyCreate), Err(Error::InsufficientPrivileges));
}

#[test]
fn super_admin_can_do_anything() {
    for p in [Permission::All, Permission::UserSetRoles, Permission::RegionDelete, Permission::CurrencyCreate] {
        assert!(Role::SuperAdmin.can(&p));
    }
}
