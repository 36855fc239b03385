//! Companies: creating them (with their founding member), updating them,
//! running payroll, and deleting them.

use crate::access::Permission;
use crate::costs::{Costs, CostsView};
use crate::error::Error;
use crate::models::account::{spec_adjust_balance, Account, AccountView};
use crate::models::company::{spec_increase_costs, Company, CompanyID, CompanyView, Permission as CompanyPermission};
use crate::models::event::{Event, EventView};
use crate::models::process::{Process, ProcessID, ProcessView};
use crate::models::lib::agent::AgentID;
use crate::models::member::{Member, MemberClass, MemberID, MemberView};
use crate::models::user::{user_can, User};
use crate::models::vf;
use crate::models::{Model, ModelView, ModificationView, Modifications, Op};
use crate::num::Num;
use crate::time::Timestamp;
use crate::transactions::{deleted, inactive, is_deleted_err, is_inactive_err, pick, single};
use vstd::prelude::*;

verus! {

/// The member that founds a company.
#[derive(Debug, PartialEq)]
pub struct Founder {
    /// The founding member's id
    pub id: MemberID,
    /// The founding member's class
    pub class: MemberClass,
    /// Whether the founding member is active
    pub active: bool,
}

impl Founder {
    /// Describe a company's founding member.
    pub fn new(founder_id: MemberID, founder_class: MemberClass, active: bool) -> (r: Founder)
        ensures
            r == (Founder { id: founder_id, class: founder_class, active }),
    {
        Founder { id: founder_id, class: founder_class, active }
    }
}

/// The company a create makes: no costs, and a maximum of zero.
pub open spec fn created_company(
    id: CompanyID,
    name: String,
    email: String,
    active: bool,
    now: Timestamp,
) -> CompanyView {
    CompanyView {
        id,
        inner: vf::Agent { name, note: None },
        email,
        max_costs: Num::spec_zero(),
        total_costs: CostsView::empty(),
        active,
        created: now,
        updated: now,
        deleted: None,
    }
}

/// The founding member: the caller, a member of the company with every
/// permission.
pub open spec fn founding_member(caller: User, id: CompanyID, founder: Founder, now: Timestamp) -> MemberView {
    MemberView {
        id: founder.id,
        inner: vf::AgentRelationship {
            subject: AgentID::UserID(caller.id),
            object: AgentID::CompanyID(id),
            note: None,
        },
        class: founder.class,
        permissions: seq![CompanyPermission::All],
        agreement: None,
        active: founder.active,
        created: now,
        updated: now,
        deleted: None,
    }
}

/// Create a company, and make the caller its founding member.
pub fn create(
    caller: &User,
    id: CompanyID,
    company_name: String,
    company_email: String,
    company_active: bool,
    founder: Founder,
    now: &Timestamp,
) -> (r: Result<Modifications, Error>)
    ensures
        r is Ok <==> user_can(*caller, Permission::CompanyCreate),
        r is Err ==> r == Err::<Modifications, Error>(Error::InsufficientPrivileges),
        r matches Ok(m) ==> m@ == seq![
            ModificationView {
                op: Op::Create,
                model: ModelView::Company(
                    created_company(id, company_name, company_email, company_active, *now),
                ),
            },
            ModificationView {
                op: Op::Create,
                model: ModelView::Member(founding_member(*caller, id, founder, *now)),
            },
        ],
{
    match caller.access_check(Permission::CompanyCreate) {
        Ok(()) => {},
        Err(e) => {
            return Err(e);
        },
    }
    let company = Company {
        id: id.clone(),
        inner: vf::Agent { name: company_name, note: None },
        email: company_email,
        max_costs: Num::zero(),
        total_costs: Costs::new(),
        active: company_active,
        created: *now,
        updated: *now,
        deleted: None,
    };
    let Founder { id: founder_id, class: founder_class, active: founder_active } = founder;
    let mut permissions: Vec<CompanyPermission> = Vec::new();
    permissions.push(CompanyPermission::All);
    assert(permissions@ =~= seq![CompanyPermission::All]);
    let member = Member {
        id: founder_id,
        inner: vf::AgentRelationship {
            subject: AgentID::UserID(caller.id.clone()),
            object: AgentID::CompanyID(id),
            note: None,
        },
        class: founder_class,
        permissions,
        agreement: None,
        active: founder_active,
        created: *now,
        updated: *now,
        deleted: None,
    };
    let mut mods = Modifications::new();
    mods.push(Op::Create, Model::Company(company));
    mods.push(Op::Create, Model::Member(member));
    Ok(mods)
}

/// Whether the caller may do `p` (system) and `cp` (as a member) to the
/// company.
pub open spec fn may(caller: User, member: Member, subject: Company, p: Permission, cp: CompanyPermission) -> bool {
    user_can(caller, p) && crate::models::member::member_allows(member, caller.id, subject.id, cp)
}

fn check(caller: &User, member: &Member, subject: &Company, p: Permission, cp: CompanyPermission) -> (r:
    Result<(), Error>)
    ensures
        r is Ok <==> may(*caller, *member, *subject, p, cp),
        r is Err ==> r == Err::<(), Error>(Error::InsufficientPrivileges),
{
    match caller.access_check(p) {
        Ok(()) => {},
        Err(e) => {
            return Err(e);
        },
    }
    member.access_check(&caller.id, &subject.id, cp)
}

/// Update a company's name, email or active flag (those given). A deleted
/// company cannot be updated.
pub fn update(
    caller: &User,
    member: &Member,
    subject: Company,
    name: Option<String>,
    email: Option<String>,
    active: Option<bool>,
    now: &Timestamp,
) -> (r: Result<Modifications, Error>)
    ensures
        !may(*caller, *member, subject, Permission::CompanyUpdate, CompanyPermission::CompanyUpdate)
            ==> r == Err::<Modifications, Error>(Error::InsufficientPrivileges),
        may(*caller, *member, subject, Permission::CompanyUpdate, CompanyPermission::CompanyUpdate)
            && subject.spec_is_deleted() ==> (r matches Err(e) && is_inactive_err(e, "company"@)),
        r is Ok <==> may(
            *caller,
            *member,
            subject,
            Permission::CompanyUpdate,
            CompanyPermission::CompanyUpdate,
        ) && !subject.spec_is_deleted(),
        r matches Ok(m) ==> m@ == single(
            Op::Update,
            ModelView::Company(
                CompanyView {
                    inner: vf::Agent { name: pick(name, subject.inner.name), ..subject.inner },
                    email: pick(email, subject.email),
                    active: pick(active, subject.active),
                    updated: *now,
                    ..subject@
                },
            ),
        ),
{
    match check(caller, member, &subject, Permission::CompanyUpdate, CompanyPermission::CompanyUpdate) {
        Ok(()) => {},
        Err(e) => {
            return Err(e);
        },
    }
    if subject.is_deleted() {
        return Err(inactive("company"));
    }
    let mut subject = subject;
    if let Some(name) = name {
        subject.inner.name = name;
    }
    if let Some(email) = email {
        subject.email = email;
    }
    if let Some(active) = active {
        subject.active = active;
    }
    subject.updated = *now;
    Ok(Modifications::new_single(Op::Update, Model::Company(subject)))
}

/// Delete a company: it cannot be deleted already, and it cannot hold costs
/// (that would erase them).
pub fn delete(caller: &User, member: &Member, subject: Company, now: &Timestamp) -> (r: Result<
    Modifications,
    Error,
>)
    ensures
        !may(*caller, *member, subject, Permission::CompanyDelete, CompanyPermission::CompanyDelete)
            ==> r == Err::<Modifications, Error>(Error::InsufficientPrivileges),
        may(*caller, *member, subject, Permission::CompanyDelete, CompanyPermission::CompanyDelete)
            && subject.spec_is_deleted() ==> (r matches Err(e) && is_deleted_err(e, "company"@)),
        may(*caller, *member, subject, Permission::CompanyDelete, CompanyPermission::CompanyDelete)
            && !subject.spec_is_deleted() && subject.total_costs@.is_gt_0() ==> r == Err::<
            Modifications,
            Error,
        >(Error::CannotEraseCosts),
        r is Ok <==> may(
            *caller,
            *member,
            subject,
            Permission::CompanyDelete,
            CompanyPermission::CompanyDelete,
        ) && !subject.spec_is_deleted() && !subject.total_costs@.is_gt_0(),
        r matches Ok(m) ==> m@ == single(
            Op::Delete,
            ModelView::Company(CompanyView { deleted: Some(*now), ..subject@ }),
        ),
{
    match check(caller, member, &subject, Permission::CompanyDelete, CompanyPermission::CompanyDelete) {
        Ok(()) => {},
        Err(e) => {
            return Err(e);
        },
    }
    if subject.is_deleted() {
        return Err(deleted("company"));
    }
    if subject.total_costs.is_gt_0() {
        return Err(Error::CannotEraseCosts);
    }
    let mut subject = subject;
    subject.set_deleted(Some(*now));
    Ok(Modifications::new_single(Op::Delete, Model::Company(subject)))
}

/// Why a payroll fails: a missing field (named), or another error.
pub enum PayrollFailure {
    /// A field is missing (`MissingFields` with that one field)
    Missing(Seq<char>),
    /// Another error
    Fail(Error),
}

/// Whether `e` is the error a failure describes.
pub open spec fn is_failure(e: Error, f: PayrollFailure) -> bool {
    match f {
        PayrollFailure::Missing(s) => e matches Error::MissingFields(v) && v@.len() == 1 && v@[0]@ == s,
        PayrollFailure::Fail(x) => e == x,
    }
}

/// The index of a key in a list of keys, or -1.
pub open spec fn key_index(keys: Seq<Seq<char>>, k: Seq<char>) -> int {
    if exists|i: int| 0 <= i < keys.len() && keys[i] == k {
        choose|i: int| 0 <= i < keys.len() && keys[i] == k
    } else {
        -1
    }
}

/// No key appears twice.
pub open spec fn distinct(keys: Seq<Seq<char>>) -> bool {
    forall|i: int, j: int| 0 <= i < keys.len() && 0 <= j < keys.len() && i != j ==> keys[i] != keys[j]
}

/// Where a payroll stands: the company, accounts and processes as changed so
/// far, which accounts and processes were paid into, and whether the company
/// changed.
pub struct PayrollState {
    pub company: CompanyView,
    pub accounts: Seq<AccountView>,
    pub processes: Seq<ProcessView>,
    pub paid: Seq<bool>,
    pub charged: Seq<bool>,
    pub company_changed: bool,
}

/// Paying one work event: its costs are added to the company's costs (within
/// its maximum) and to the process it went into, and their credit value to
/// the worker's account. Events with no costs are skipped.
pub open spec fn pay_step(
    st: PayrollState,
    ev: EventView,
    akeys: Seq<Seq<char>>,
    pkeys: Seq<Seq<char>>,
    now: Timestamp,
) -> Result<PayrollState, PayrollFailure> {
    match ev.move_costs {
        None => Err(PayrollFailure::Missing("move_costs"@)),
        Some(c) => if c.is_zero() {
            Ok(st)
        } else {
            match ev.inner.provider {
                AgentID::MemberID(mid) => match ev.inner.input_of {
                    None => Err(PayrollFailure::Missing("process.inner.input_of"@)),
                    Some(pid) => {
                        let ai = key_index(akeys, mid@);
                        let pi = key_index(pkeys, pid@);
                        if ai < 0 {
                            Err(PayrollFailure::Missing("accounts::"@ + mid@))
                        } else if pi < 0 {
                            Err(PayrollFailure::Missing("processes::"@ + pid@))
                        } else {
                            match spec_increase_costs(
                                st.company.total_costs,
                                st.company.max_costs,
                                c,
                            ) {
                                Err(e) => Err(PayrollFailure::Fail(e)),
                                Ok(t) => match spec_adjust_balance(st.accounts[ai].balance, c.credits) {
                                    Err(e) => Err(PayrollFailure::Fail(e)),
                                    Ok(b) => match st.processes[pi].costs.plus(c) {
                                        None => Err(PayrollFailure::Fail(Error::NumericOverflow)),
                                        Some(pc) => Ok(
                                            PayrollState {
                                                company: CompanyView {
                                                    total_costs: t,
                                                    updated: now,
                                                    ..st.company
                                                },
                                                accounts: st.accounts.update(
                                                    ai,
                                                    AccountView {
                                                        balance: b,
                                                        updated: now,
                                                        ..st.accounts[ai]
                                                    },
                                                ),
                                                processes: st.processes.update(
                                                    pi,
                                                    ProcessView {
                                                        costs: pc,
                                                        updated: now,
                                                        ..st.processes[pi]
                                                    },
                                                ),
                                                paid: st.paid.update(ai, true),
                                                charged: st.charged.update(pi, true),
                                                company_changed: true,
                                            },
                                        ),
                                    },
                                },
                            }
                        }
                    },
                },
                _ => Err(PayrollFailure::Fail(Error::WrongAgentIDType)),
            }
        },
    }
}

/// Paying a list of work events, in order.
pub open spec fn pay_all(
    evs: Seq<EventView>,
    st: PayrollState,
    akeys: Seq<Seq<char>>,
    pkeys: Seq<Seq<char>>,
    now: Timestamp,
) -> Result<PayrollState, PayrollFailure>
    decreases evs.len(),
{
    if evs.len() == 0 {
        Ok(st)
    } else {
        match pay_all(evs.drop_last(), st, akeys, pkeys, now) {
            Err(f) => Err(f),
            Ok(s) => pay_step(s, evs.last(), akeys, pkeys, now),
        }
    }
}

/// What has been saved so far: the modifications, and which accounts and
/// processes are in them.
pub struct Collected {
    pub mods: Seq<ModificationView>,
    pub saved_accounts: Seq<bool>,
    pub saved_processes: Seq<bool>,
}

/// Saving what one work event paid into: its worker's account and its
/// process, each the first time it comes up.
pub open spec fn collect_step(
    st: PayrollState,
    acc: Collected,
    ev: EventView,
    akeys: Seq<Seq<char>>,
    pkeys: Seq<Seq<char>>,
) -> Result<Collected, PayrollFailure> {
    match ev.inner.provider {
        AgentID::MemberID(mid) => match ev.inner.input_of {
            None => Err(PayrollFailure::Missing("process.inner.input_of"@)),
            Some(pid) => {
                let ai = key_index(akeys, mid@);
                let pi = key_index(pkeys, pid@);
                let a1 = if ai >= 0 && st.paid[ai] && !acc.saved_accounts[ai] {
                    Collected {
                        mods: acc.mods.push(
                            ModificationView {
                                op: Op::Update,
                                model: ModelView::Account(st.accounts[ai]),
                            },
                        ),
                        saved_accounts: acc.saved_accounts.update(ai, true),
                        ..acc
                    }
                } else {
                    acc
                };
                Ok(
                    if pi >= 0 && st.charged[pi] && !a1.saved_processes[pi] {
                        Collected {
                            mods: a1.mods.push(
                                ModificationView {
                                    op: Op::Update,
                                    model: ModelView::Process(st.processes[pi]),
                                },
                            ),
                            saved_processes: a1.saved_processes.update(pi, true),
                            ..a1
                        }
                    } else {
                        a1
                    },
                )
            },
        },
        _ => Err(PayrollFailure::Fail(Error::WrongAgentIDType)),
    }
}

/// Saving what a list of work events paid into, in order.
pub open spec fn collect_all(
    evs: Seq<EventView>,
    st: PayrollState,
    acc: Collected,
    akeys: Seq<Seq<char>>,
    pkeys: Seq<Seq<char>>,
) -> Result<Collected, PayrollFailure>
    decreases evs.len(),
{
    if evs.len() == 0 {
        Ok(acc)
    } else {
        match collect_all(evs.drop_last(), st, acc, akeys, pkeys) {
            Err(f) => Err(f),
            Ok(a) => collect_step(st, a, evs.last(), akeys, pkeys),
        }
    }
}

/// The views of a list of events.
pub open spec fn event_views(evs: Seq<Event>) -> Seq<EventView> {
    evs.map_values(|e: Event| e@)
}

/// The keys (as views) of a list of accounts by member.
pub open spec fn account_keys(v: Seq<(MemberID, Account)>) -> Seq<Seq<char>> {
    v.map_values(|p: (MemberID, Account)| p.0@)
}

/// The keys (as views) of a list of processes by id.
pub open spec fn process_keys(v: Seq<(ProcessID, Process)>) -> Seq<Seq<char>> {
    v.map_values(|p: (ProcessID, Process)| p.0@)
}

/// The accounts (as views) of a list of accounts by member.
pub open spec fn account_values(v: Seq<(MemberID, Account)>) -> Seq<AccountView> {
    v.map_values(|p: (MemberID, Account)| p.1@)
}

/// The processes (as views) of a list of processes by id.
pub open spec fn process_values(v: Seq<(ProcessID, Process)>) -> Seq<ProcessView> {
    v.map_values(|p: (ProcessID, Process)| p.1@)
}

/// The views of member ids.
pub open spec fn member_ids(v: Seq<MemberID>) -> Seq<Seq<char>> {
    v.map_values(|k: MemberID| k@)
}

/// The views of process ids.
pub open spec fn process_ids(v: Seq<ProcessID>) -> Seq<Seq<char>> {
    v.map_values(|k: ProcessID| k@)
}

/// The views of accounts.
pub open spec fn account_views(v: Seq<Account>) -> Seq<AccountView> {
    v.map_values(|a: Account| a@)
}

/// The views of processes.
pub open spec fn process_views(v: Seq<Process>) -> Seq<ProcessView> {
    v.map_values(|p: Process| p@)
}

/// Where a payroll starts: nothing paid.
pub open spec fn payroll_start(
    subject: Company,
    accounts: Seq<(MemberID, Account)>,
    processes: Seq<(ProcessID, Process)>,
) -> PayrollState {
    PayrollState {
        company: subject@,
        accounts: account_values(accounts),
        processes: process_values(processes),
        paid: Seq::new(accounts.len(), |i: int| false),
        charged: Seq::new(processes.len(), |i: int| false),
        company_changed: false,
    }
}

/// Where saving starts: the company, if it changed, and nothing else saved.
pub open spec fn collect_start(st: PayrollState, na: nat, np: nat) -> Collected {
    Collected {
        mods: if st.company_changed {
            seq![ModificationView { op: Op::Update, model: ModelView::Company(st.company) }]
        } else {
            Seq::empty()
        },
        saved_accounts: Seq::new(na, |i: int| false),
        saved_processes: Seq::new(np, |i: int| false),
    }
}

/// What a payroll gives: the company (if it changed), then each account and
/// process paid into, in the order the work events first name them; or why
/// it fails.
pub open spec fn spec_payroll(
    subject: Company,
    accounts: Seq<(MemberID, Account)>,
    processes: Seq<(ProcessID, Process)>,
    evs: Seq<EventView>,
    now: Timestamp,
) -> Result<Seq<ModificationView>, PayrollFailure> {
    let akeys = account_keys(accounts);
    let pkeys = process_keys(processes);
    match pay_all(evs, payroll_start(subject, accounts, processes), akeys, pkeys, now) {
        Err(f) => Err(f),
        Ok(st) => match collect_all(
            evs,
            st,
            collect_start(st, accounts.len(), processes.len()),
            akeys,
            pkeys,
        ) {
            Err(f) => Err(f),
            Ok(a) => Ok(a.mods),
        },
    }
}

/// The error for a missing field.
fn missing(name: String) -> (e: Error)
    ensures
        is_failure(e, PayrollFailure::Missing(name@)),
{
    let mut v: Vec<String> = Vec::new();
    v.push(name);
    Error::MissingFields(v)
}

/// The keys and the accounts, apart.
fn split_accounts(v: Vec<(MemberID, Account)>) -> (r: (Vec<MemberID>, Vec<Account>))
    ensures
        member_ids(r.0@) == account_keys(v@),
        account_views(r.1@) == account_values(v@),
        r.0@.len() == v@.len(),
        r.1@.len() == v@.len(),
{
    let ghost whole = v@;
    let mut rest = v;
    let mut keys: Vec<MemberID> = Vec::new();
    let mut vals: Vec<Account> = Vec::new();
    while rest.len() > 0
        invariant
            keys@.len() + rest@.len() == whole.len(),
            vals@.len() == keys@.len(),
            rest@ == whole.subrange(keys@.len() as int, whole.len() as int),
            forall|j: int| 0 <= j < keys@.len() ==> keys@[j] == whole[j].0,
            forall|j: int| 0 <= j < vals@.len() ==> vals@[j]@ == whole[j].1@,
        decreases rest.len(),
    {
        let ghost n: int = keys@.len() as int;
        let pair = rest.remove(0);
        assert(pair == whole[n]);
        let (k, a) = pair;
        keys.push(k);
        vals.push(a);
        assert(rest@ =~= whole.subrange(n + 1, whole.len() as int));
    }
    assert(member_ids(keys@) =~= account_keys(whole));
    assert(account_views(vals@) =~= account_values(whole));
    (keys, vals)
}

/// The ids and the processes, apart.
fn split_processes(v: Vec<(ProcessID, Process)>) -> (r: (Vec<ProcessID>, Vec<Process>))
    ensures
        process_ids(r.0@) == process_keys(v@),
        process_views(r.1@) == process_values(v@),
        r.0@.len() == v@.len(),
        r.1@.len() == v@.len(),
{
    let ghost whole = v@;
    let mut rest = v;
    let mut keys: Vec<ProcessID> = Vec::new();
    let mut vals: Vec<Process> = Vec::new();
    while rest.len() > 0
        invariant
            keys@.len() + rest@.len() == whole.len(),
            vals@.len() == keys@.len(),
            rest@ == whole.subrange(keys@.len() as int, whole.len() as int),
            forall|j: int| 0 <= j < keys@.len() ==> keys@[j] == whole[j].0,
            forall|j: int| 0 <= j < vals@.len() ==> vals@[j]@ == whole[j].1@,
        decreases rest.len(),
    {
        let ghost n: int = keys@.len() as int;
        let pair = rest.remove(0);
        assert(pair == whole[n]);
        let (k, a) = pair;
        keys.push(k);
        vals.push(a);
        assert(rest@ =~= whole.subrange(n + 1, whole.len() as int));
    }
    assert(process_ids(keys@) =~= process_keys(whole));
    assert(process_views(vals@) =~= process_values(whole));
    (keys, vals)
}

/// The key's index among distinct keys is the one it is found at.
proof fn lemma_key_index(keys: Seq<Seq<char>>, k: Seq<char>, i: int)
    requires
        distinct(keys),
        0 <= i < keys.len(),
        keys[i] == k,
    ensures
        key_index(keys, k) == i,
{
}

/// Where a member's account is.
fn find_member(keys: &Vec<MemberID>, k: &MemberID) -> (r: Option<usize>)
    requires
        distinct(member_ids(keys@)),
    ensures
        match r {
            Some(i) => i < keys@.len() && i == key_index(member_ids(keys@), k@),
            None => key_index(member_ids(keys@), k@) == -1,
        },
{
    let ghost ks = member_ids(keys@);
    let mut i: usize = 0;
    while i < keys.len()
        invariant
            i <= keys@.len(),
            ks == member_ids(keys@),
            distinct(ks),
            forall|j: int| 0 <= j < i ==> ks[j] != k@,
        decreases keys.len() - i,
    {
        if keys[i] == *k {
            proof {
                lemma_key_index(ks, k@, i as int);
            }
            return Some(i);
        }
        i = i + 1;
    }
    None
}

/// Where a process is.
fn find_process(keys: &Vec<ProcessID>, k: &ProcessID) -> (r: Option<usize>)
    requires
        distinct(process_ids(keys@)),
    ensures
        match r {
            Some(i) => i < keys@.len() && i == key_index(process_ids(keys@), k@),
            None => key_index(process_ids(keys@), k@) == -1,
        },
{
    let ghost ks = process_ids(keys@);
    let mut i: usize = 0;
    while i < keys.len()
        invariant
            i <= keys@.len(),
            ks == process_ids(keys@),
            distinct(ks),
            forall|j: int| 0 <= j < i ==> ks[j] != k@,
        decreases keys.len() - i,
    {
        if keys[i] == *k {
            proof {
                lemma_key_index(ks, k@, i as int);
            }
            return Some(i);
        }
        i = i + 1;
    }
    None
}

/// A list of `n` falses.
fn falses(n: usize) -> (r: Vec<bool>)
    ensures
        r@ == Seq::new(n as nat, |i: int| false),
{
    let mut r: Vec<bool> = Vec::new();
    let mut i: usize = 0;
    while i < n
        invariant
            i <= n,
            r@ == Seq::new(i as nat, |j: int| false),
        decreases n - i,
    {
        r.push(false);
        i = i + 1;
        assert(r@ =~= Seq::new(i as nat, |j: int| false));
    }
    r
}

/// Run payroll: pay each work event's worker (into the account given for
/// them) the credit value of its costs, and add the costs to the company and
/// to the process the work went into. Returns the company, accounts and
/// processes changed. The lists of accounts and processes hold each key
/// once.
pub fn payroll(
    caller: &User,
    member: &Member,
    subject: Company,
    accounts: Vec<(MemberID, Account)>,
    processes: Vec<(ProcessID, Process)>,
    work_events: &Vec<Event>,
    now: &Timestamp,
) -> (r: Result<Modifications, Error>)
    requires
        distinct(account_keys(accounts@)),
        distinct(process_keys(processes@)),
    ensures
        !may(*caller, *member, subject, Permission::CompanyPayroll, CompanyPermission::Payroll) ==> r
            == Err::<Modifications, Error>(Error::InsufficientPrivileges),
        may(*caller, *member, subject, Permission::CompanyPayroll, CompanyPermission::Payroll)
            && subject.spec_is_deleted() ==> (r matches Err(e) && is_deleted_err(e, "company"@)),
        may(*caller, *member, subject, Permission::CompanyPayroll, CompanyPermission::Payroll)
            && !subject.spec_is_deleted() ==> match spec_payroll(
            subject,
            accounts@,
            processes@,
            event_views(work_events@),
            *now,
        ) {
            Ok(m) => r matches Ok(x) && x@ == m,
            Err(f) => r matches Err(e) && is_failure(e, f),
        },
{
    match check(caller, member, &subject, Permission::CompanyPayroll, CompanyPermission::Payroll) {
        Ok(()) => {},
        Err(e) => {
            return Err(e);
        },
    }
    if subject.is_deleted() {
        return Err(deleted("company"));
    }
    let ghost evs = event_views(work_events@);
    let ghost ak = account_keys(accounts@);
    let ghost pk = process_keys(processes@);
    let ghost st0 = payroll_start(subject, accounts@, processes@);
    let ghost spec_r = spec_payroll(subject, accounts@, processes@, evs, *now);
    let ghost na = accounts@.len();
    let ghost np = processes@.len();
    let (akeys, mut avals) = split_accounts(accounts);
    let (pkeys, mut pvals) = split_processes(processes);
    let mut paid = falses(avals.len());
    let mut charged = falses(pvals.len());
    let mut company = subject;
    let mut company_changed = false;
    let mut i: usize = 0;
    assert(evs.subrange(0, 0) =~= Seq::<EventView>::empty());
    while i < work_events.len()
        invariant
            i <= work_events@.len(),
            evs == event_views(work_events@),
            may(*caller, *member, subject, Permission::CompanyPayroll, CompanyPermission::Payroll),
            !subject.spec_is_deleted(),
            spec_r == spec_payroll(subject, accounts@, processes@, evs, *now),
            spec_r == match pay_all(evs, st0, ak, pk, *now) {
                Err(f) => Err(f),
                Ok(st) => match collect_all(evs, st, collect_start(st, na, np), ak, pk) {
                    Err(f) => Err(f),
                    Ok(a) => Ok(a.mods),
                },
            },
            member_ids(akeys@) == ak,
            process_ids(pkeys@) == pk,
            distinct(ak),
            distinct(pk),
            avals@.len() == ak.len(),
            pvals@.len() == pk.len(),
            paid@.len() == ak.len(),
            charged@.len() == pk.len(),
            pay_all(evs.subrange(0, i as int), st0, ak, pk, *now) == Ok::<
                PayrollState,
                PayrollFailure,
            >(
                PayrollState {
                    company: company@,
                    accounts: account_views(avals@),
                    processes: process_views(pvals@),
                    paid: paid@,
                    charged: charged@,
                    company_changed,
                },
            ),
        decreases work_events.len() - i,
    {
        let ghost before = PayrollState {
            company: company@,
            accounts: account_views(avals@),
            processes: process_views(pvals@),
            paid: paid@,
            charged: charged@,
            company_changed,
        };
        let ev = &work_events[i];
        assert(evs.subrange(0, i + 1).drop_last() =~= evs.subrange(0, i as int));
        assert(evs.subrange(0, i + 1).last() == ev@);
        let costs = match &ev.move_costs {
            Some(c) => c,
            None => {
                proof {
                    lemma_pay_fails_stays(evs, st0, ak, pk, *now, i as int + 1);
                }
                return Err(missing(String::from_str("move_costs")));
            },
        };
        if !costs.is_zero() {
            let mid = match &ev.inner.provider {
                AgentID::MemberID(m) => m,
                _ => {
                    proof {
                        lemma_pay_fails_stays(evs, st0, ak, pk, *now, i as int + 1);
                    }
                    return Err(Error::WrongAgentIDType);
                },
            };
            let pid = match &ev.inner.input_of {
                Some(p) => p,
                None => {
                    proof {
                        lemma_pay_fails_stays(evs, st0, ak, pk, *now, i as int + 1);
                    }
                    return Err(missing(String::from_str("process.inner.input_of")));
                },
            };
            let ai = match find_member(&akeys, mid) {
                Some(x) => x,
                None => {
                    proof {
                        lemma_pay_fails_stays(evs, st0, ak, pk, *now, i as int + 1);
                    }
                    return Err(missing(String::from_str("accounts::").concat(mid.as_str())));
                },
            };
            let pi = match find_process(&pkeys, pid) {
                Some(x) => x,
                None => {
                    proof {
                        lemma_pay_fails_stays(evs, st0, ak, pk, *now, i as int + 1);
                    }
                    return Err(missing(String::from_str("processes::").concat(pid.as_str())));
                },
            };
            match company.increase_costs(costs.clone()) {
                Ok(_) => {},
                Err(e) => {
                    proof {
                        lemma_pay_fails_stays(evs, st0, ak, pk, *now, i as int + 1);
                    }
                    return Err(e);
                },
            }
            let mut account = avals[ai].clone();
            match account.adjust_balance(costs.credits()) {
                Ok(_) => {},
                Err(e) => {
                    proof {
                        lemma_pay_fails_stays(evs, st0, ak, pk, *now, i as int + 1);
                    }
                    return Err(e);
                },
            }
            let mut process = pvals[pi].clone();
            match process.costs.clone().add(costs.clone()) {
                Some(c) => {
                    process.costs = c;
                },
                None => {
                    proof {
                        lemma_pay_fails_stays(evs, st0, ak, pk, *now, i as int + 1);
                    }
                    return Err(Error::NumericOverflow);
                },
            }
            company.updated = *now;
            account.updated = *now;
            process.updated = *now;
            avals.set(ai, account);
            pvals.set(pi, process);
            paid.set(ai, true);
            charged.set(pi, true);
            company_changed = true;
            assert(account_views(avals@) =~= before.accounts.update(
                ai as int,
                avals@[ai as int]@,
            ));
            assert(process_views(pvals@) =~= before.processes.update(
                pi as int,
                pvals@[pi as int]@,
            ));
        }
        i = i + 1;
    }
    assert(evs.subrange(0, i as int) =~= evs);
    let ghost st = PayrollState {
        company: company@,
        accounts: account_views(avals@),
        processes: process_views(pvals@),
        paid: paid@,
        charged: charged@,
        company_changed,
    };
    let mut mods = Modifications::new();
    if company_changed {
        mods.push(Op::Update, Model::Company(company));
    }
    let ghost acc0 = collect_start(st, na, np);
    assert(mods@ =~= acc0.mods);
    let mut saved_accounts = falses(avals.len());
    let mut saved_processes = falses(pvals.len());
    let mut j: usize = 0;
    assert(evs.subrange(0, 0) =~= Seq::<EventView>::empty());
    while j < work_events.len()
        invariant
            j <= work_events@.len(),
            evs == event_views(work_events@),
            may(*caller, *member, subject, Permission::CompanyPayroll, CompanyPermission::Payroll),
            !subject.spec_is_deleted(),
            spec_r == spec_payroll(subject, accounts@, processes@, evs, *now),
            spec_r == match collect_all(evs, st, acc0, ak, pk) {
                Err(f) => Err(f),
                Ok(a) => Ok(a.mods),
            },
            member_ids(akeys@) == ak,
            process_ids(pkeys@) == pk,
            distinct(ak),
            distinct(pk),
            st.accounts == account_views(avals@),
            st.processes == process_views(pvals@),
            st.paid == paid@,
            st.charged == charged@,
            avals@.len() == ak.len(),
            pvals@.len() == pk.len(),
            paid@.len() == ak.len(),
            charged@.len() == pk.len(),
            saved_accounts@.len() == ak.len(),
            saved_processes@.len() == pk.len(),
            collect_all(evs.subrange(0, j as int), st, acc0, ak, pk) == Ok::<
                Collected,
                PayrollFailure,
            >(
                Collected {
                    mods: mods@,
                    saved_accounts: saved_accounts@,
                    saved_processes: saved_processes@,
                },
            ),
        decreases work_events.len() - j,
    {
        let ev = &work_events[j];
        assert(evs.subrange(0, j + 1).drop_last() =~= evs.subrange(0, j as int));
        assert(evs.subrange(0, j + 1).last() == ev@);
        let mid = match &ev.inner.provider {
            AgentID::MemberID(m) => m,
            _ => {
                proof {
                    lemma_collect_fails_stays(evs, st, acc0, ak, pk, j as int + 1);
                }
                return Err(Error::WrongAgentIDType);
            },
        };
        let pid = match &ev.inner.input_of {
            Some(p) => p,
            None => {
                proof {
                    lemma_collect_fails_stays(evs, st, acc0, ak, pk, j as int + 1);
                }
                return Err(missing(String::from_str("process.inner.input_of")));
            },
        };
        if let Some(ai) = find_member(&akeys, mid) {
            if paid[ai] && !saved_accounts[ai] {
                mods.push(Op::Update, Model::Account(avals[ai].clone()));
                saved_accounts.set(ai, true);
            }
        }
        if let Some(pi) = find_process(&pkeys, pid) {
            if charged[pi] && !saved_processes[pi] {
                mods.push(Op::Update, Model::Process(pvals[pi].clone()));
                saved_processes.set(pi, true);
            }
        }
        j = j + 1;
    }
    assert(evs.subrange(0, j as int) =~= evs);
    Ok(mods)
}

/// Once paying a prefix of the events fails, paying them all fails the same
/// way.
proof fn lemma_pay_fails_stays(
    evs: Seq<EventView>,
    st0: PayrollState,
    ak: Seq<Seq<char>>,
    pk: Seq<Seq<char>>,
    now: Timestamp,
    n: int,
)
    requires
        0 <= n <= evs.len(),
        pay_all(evs.subrange(0, n), st0, ak, pk, now) is Err,
    ensures
        pay_all(evs, st0, ak, pk, now) == pay_all(evs.subrange(0, n), st0, ak, pk, now),
    decreases evs.len() - n,
{
    if n < evs.len() {
        assert(evs.subrange(0, n + 1).drop_last() =~= evs.subrange(0, n));
        lemma_pay_fails_stays(evs, st0, ak, pk, now, n + 1);
    } else {
        assert(evs.subrange(0, n) =~= evs);
    }
}

/// Once collecting over a prefix of the events fails, collecting over them
/// all fails the same way.
proof fn lemma_collect_fails_stays(
    evs: Seq<EventView>,
    st: PayrollState,
    acc0: Collected,
    ak: Seq<Seq<char>>,
    pk: Seq<Seq<char>>,
    n: int,
)
    requires
        0 <= n <= evs.len(),
        collect_all(evs.subrange(0, n), st, acc0, ak, pk) is Err,
    ensures
        collect_all(evs, st, acc0, ak, pk) == collect_all(evs.subrange(0, n), st, acc0, ak, pk),
    decreases evs.len() - n,
{
    if n < evs.len() {
        assert(evs.subrange(0, n + 1).drop_last() =~= evs.subrange(0, n));
        lemma_collect_fails_stays(evs, st, acc0, ak, pk, n + 1);
    } else {
        assert(evs.subrange(0, n) =~= evs);
    }
}

} // verus!
