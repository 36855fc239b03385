//! What holds of the library as a whole: the access system, memberships,
//! the arithmetic of costs, and event processing.

use crate::access::{role_can, role_permissions, Permission, Role};
use crate::error::Error;
use crate::models::company::Permission as CompanyPermission;
use crate::cost_map::{any_negative, lookup, lemma_merged_commutes, lemma_merged_exact, lemma_merged_undone, sums_exactly};
use crate::costs::{spec_is_sub_lt_0, costs_conserved, lemma_move_conserves, move_exact, spec_receive, spec_release, CostsView};
use crate::measure::{spec_dec, spec_inc, MeasureView};
use crate::transactions::intent::spec_order_action;
use crate::transactions::OrderAction;
use crate::num::{Num, spec_difference, spec_sum, canonical, lemma_canonical, lemma_canonical_value};
use crate::models::event::{
    quantity, spec_adjust_primary,
    process_changed, resource_changed, spec_finish, spec_mods, spec_move, spec_quantities,
    spec_select, process_update, resource_update, MoveType, is_pending, spec_check_ids, spec_process, EventProcessStateView, EventView, SelectionView,
};
use crate::models::vf::{self, InputOutput, ResourceEffect};
use crate::models::member::permits;
use crate::models::user::{roles_can, user_can, User};
use crate::models::process::ProcessView;
use crate::models::resource::ResourceView;
use crate::models::{ModelView, ModificationView, Op};
use crate::time::Timestamp;
use vstd::prelude::*;

verus! {

/// Permissions are additive: a user holding one more role can do everything
/// it could do before, and what the new role allows.
pub proof fn law_roles_are_additive(roles: Seq<Role>, role: Role, p: Permission)
    ensures
        roles_can(roles.push(role), p) <==> (roles_can(roles, p) || role_can(role, p)),
{
    let rs = roles.push(role);
    if roles_can(roles, p) {
        let i = choose|i: int| 0 <= i < roles.len() && role_can(#[trigger] roles[i], p);
        assert(rs[i] == roles[i]);
    }
    if role_can(role, p) {
        assert(rs[roles.len() as int] == role);
    }
    if roles_can(rs, p) {
        let i = choose|i: int| 0 <= i < rs.len() && role_can(#[trigger] rs[i], p);
        if i < roles.len() {
            assert(rs[i] == roles[i]);
        }
    }
}

/// Everyone starts with no permissions: a user with no roles can do nothing.
pub proof fn law_no_roles_no_permissions(p: Permission)
    ensures
        !roles_can(Seq::<Role>::empty(), p),
{
}

/// An inactive (or deleted) user can do nothing, whatever its roles.
pub proof fn law_inactive_user_cannot(u: User, p: Permission)
    requires
        !u.spec_is_active(),
    ensures
        !user_can(u, p),
{
}

/// A super admin can do everything.
pub proof fn law_super_admin_can_do_anything(p: Permission)
    ensures
        role_can(Role::SuperAdmin, p),
{
    assert(role_permissions(Role::SuperAdmin)[0] == Permission::All);
}

/// A guest can only create users (sign up).
pub proof fn law_guest_can_only_sign_up(p: Permission)
    ensures
        role_can(Role::Guest, p) <==> p == Permission::UserCreate,
{
    assert(role_permissions(Role::Guest)[0] == Permission::UserCreate);
    if role_can(Role::Guest, p) {
        let perms = role_permissions(Role::Guest);
        if perms.contains(Permission::All) {
            let i = choose|i: int| 0 <= i < perms.len() && perms[i] == Permission::All;
            assert(false);
        }
    }
}

/// The bank can create, update and delete currencies, and nothing else.
pub proof fn law_bank_manages_currencies(p: Permission)
    ensures
        role_can(Role::Bank, p) <==> (p == Permission::CurrencyCreate || p == Permission::CurrencyUpdate || p == Permission::CurrencyDelete),
{
    let perms = role_permissions(Role::Bank);
    assert(perms.len() == 3);
    assert(perms[0] == Permission::CurrencyCreate);
    assert(perms[1] == Permission::CurrencyUpdate);
    assert(perms[2] == Permission::CurrencyDelete);
    if perms.contains(Permission::All) {
        let i = choose|i: int| 0 <= i < perms.len() && perms[i] == Permission::All;
        assert(i == 0 || i == 1 || i == 2);
        assert(false);
    }
    if perms.contains(p) {
        let i = choose|i: int| 0 <= i < perms.len() && perms[i] == p;
        assert(i == 0 || i == 1 || i == 2);
    }
}

/// An identity admin can update, set the roles of, create and update (as an
/// admin) and delete users, and nothing else.
pub proof fn law_identity_admin_manages_users(p: Permission)
    ensures
        role_can(Role::IdentityAdmin, p) <==> (p == Permission::UserUpdate || p == Permission::UserSetRoles || p == Permission::UserAdminCreate || p == Permission::UserAdminUpdate || p == Permission::UserDelete),
{
    let perms = role_permissions(Role::IdentityAdmin);
    assert(perms.len() == 5);
    assert(perms[0] == Permission::UserUpdate);
    assert(perms[1] == Permission::UserSetRoles);
    assert(perms[2] == Permission::UserAdminCreate);
    assert(perms[3] == Permission::UserAdminUpdate);
    assert(perms[4] == Permission::UserDelete);
    if perms.contains(Permission::All) {
        let i = choose|i: int| 0 <= i < perms.len() && perms[i] == Permission::All;
        assert(i == 0 || i == 1 || i == 2 || i == 3 || i == 4);
        assert(false);
    }
    if perms.contains(p) {
        let i = choose|i: int| 0 <= i < perms.len() && perms[i] == p;
        assert(i == 0 || i == 1 || i == 2 || i == 3 || i == 4);
    }
}

/// A company admin can update and delete companies as an admin, and nothing
/// else.
pub proof fn law_company_admin_manages_companies(p: Permission)
    ensures
        role_can(Role::CompanyAdmin, p) <==> (p == Permission::CompanyAdminUpdate || p == Permission::CompanyAdminDelete),
{
    let perms = role_permissions(Role::CompanyAdmin);
    assert(perms.len() == 2);
    assert(perms[0] == Permission::CompanyAdminUpdate);
    assert(perms[1] == Permission::CompanyAdminDelete);
    if perms.contains(Permission::All) {
        let i = choose|i: int| 0 <= i < perms.len() && perms[i] == Permission::All;
        assert(i == 0 || i == 1);
        assert(false);
    }
    if perms.contains(p) {
        let i = choose|i: int| 0 <= i < perms.len() && perms[i] == p;
        assert(i == 0 || i == 1);
    }
}

/// A user can update and delete themselves, create, run and update the
/// parts of companies, manage resource specs and accounts, and create and
/// update events; nothing else (no admin, currency or sign-up permission).
pub proof fn law_user_permissions(p: Permission)
    ensures
        role_can(Role::User, p) <==> (p == Permission::UserUpdate || p == Permission::UserDelete || p == Permission::CompanyCreate || p == Permission::CompanyDelete || p == Permission::CompanyPayroll || p == Permission::CompanyUpdate || p == Permission::CompanyUpdateAgreements || p == Permission::CompanyUpdateCommitments || p == Permission::CompanyUpdateIntents || p == Permission::CompanyUpdateMembers || p == Permission::CompanyUpdateResourceSpecs || p == Permission::CompanyUpdateResources || p == Permission::CompanyUpdateProcessSpecs || p == Permission::CompanyUpdateProcesses || p == Permission::ResourceSpecCreate || p == Permission::ResourceSpecUpdate || p == Permission::ResourceSpecDelete || p == Permission::AccountCreate || p == Permission::AccountUpdate || p == Permission::AccountSetOwners || p == Permission::AccountTransfer || p == Permission::AccountDelete || p == Permission::EventCreate || p == Permission::EventUpdate),
{
    let perms = role_permissions(Role::User);
    assert(perms.len() == 24);
    assert(perms[0] == Permission::UserUpdate);
    assert(perms[1] == Permission::UserDelete);
    assert(perms[2] == Permission::CompanyCreate);
    assert(perms[3] == Permission::CompanyDelete);
    assert(perms[4] == Permission::CompanyPayroll);
    assert(perms[5] == Permission::CompanyUpdate);
    assert(perms[6] == Permission::CompanyUpdateAgreements);
    assert(perms[7] == Permission::CompanyUpdateCommitments);
    assert(perms[8] == Permission::CompanyUpdateIntents);
    assert(perms[9] == Permission::CompanyUpdateMembers);
    assert(perms[10] == Permission::CompanyUpdateResourceSpecs);
    assert(perms[11] == Permission::CompanyUpdateResources);
    assert(perms[12] == Permission::CompanyUpdateProcessSpecs);
    assert(perms[13] == Permission::CompanyUpdateProcesses);
    assert(perms[14] == Permission::ResourceSpecCreate);
    assert(perms[15] == Permission::ResourceSpecUpdate);
    assert(perms[16] == Permission::ResourceSpecDelete);
    assert(perms[17] == Permission::AccountCreate);
    assert(perms[18] == Permission::AccountUpdate);
    assert(perms[19] == Permission::AccountSetOwners);
    assert(perms[20] == Permission::AccountTransfer);
    assert(perms[21] == Permission::AccountDelete);
    assert(perms[22] == Permission::EventCreate);
    assert(perms[23] == Permission::EventUpdate);
    if perms.contains(Permission::All) {
        let i = choose|i: int| 0 <= i < perms.len() && perms[i] == Permission::All;
        assert(i == 0 || i == 1 || i == 2 || i == 3 || i == 4 || i == 5 || i == 6 || i == 7 || i == 8 || i == 9 || i == 10 || i == 11 || i == 12 || i == 13 || i == 14 || i == 15 || i == 16 || i == 17 || i == 18 || i == 19 || i == 20 || i == 21 || i == 22 || i == 23);
        assert(false);
    }
    if perms.contains(p) {
        let i = choose|i: int| 0 <= i < perms.len() && perms[i] == p;
        assert(i == 0 || i == 1 || i == 2 || i == 3 || i == 4 || i == 5 || i == 6 || i == 7 || i == 8 || i == 9 || i == 10 || i == 11 || i == 12 || i == 13 || i == 14 || i == 15 || i == 16 || i == 17 || i == 18 || i == 19 || i == 20 || i == 21 || i == 22 || i == 23);
    }
}

/// A member holding `All` holds every company permission.
pub proof fn law_all_permits_everything(permissions: Seq<CompanyPermission>, p: CompanyPermission)
    requires
        permissions.contains(CompanyPermission::All),
    ensures
        permits(permissions, p),
{
}

/// An event that has begun but not ended is pending: once the objects it is
/// handed match it, processing it changes nothing.
pub proof fn law_pending_event_changes_nothing(
    ev: EventView,
    st: EventProcessStateView,
    now: Timestamp,
)
    requires
        spec_check_ids(ev, st) is None,
        is_pending(ev),
    ensures
        spec_process(ev, st, now) == Ok::<Seq<ModificationView>, Error>(Seq::empty()),
{
}

/// The costs an event moves between two of the objects it selected, before
/// or after the move: from the first process to the second, from the first
/// resource to the second, or between a resource and a process (into the
/// process for an input, out of it for an output).
pub open spec fn moved_pair(ev: EventView, sel: SelectionView) -> Option<(CostsView, CostsView)> {
    match (sel.process, sel.process2) {
        (Some(p1), Some(p2)) => Some((p1.costs, p2.costs)),
        _ => match (sel.resource, sel.resource2) {
            (Some(r1), Some(r2)) => Some((r1.costs, r2.costs)),
            _ => match (sel.resource, sel.process) {
                (Some(r), Some(p)) => match vf::spec_input_output(ev.inner.action) {
                    Some(InputOutput::Input) => Some((r.costs, p.costs)),
                    Some(InputOutput::Output) => Some((p.costs, r.costs)),
                    None => None,
                },
                _ => None,
            },
        },
    }
}

/// Events move costs; they never make or lose them. Where an event moves
/// costs that are not all zero between two objects, and `rust_decimal` adds
/// and subtracts them exactly, the two objects hold together afterwards, in
/// credits and in every bucket, what they held before.
pub proof fn law_events_move_costs(ev: EventView, sel: SelectionView)
    requires
        spec_move(ev, sel) is Ok,
        sel.move_costs is Some,
        !sel.move_costs->0.is_zero(),
        moved_pair(ev, sel) matches Some(p) && move_exact(p.0, p.1, sel.move_costs->0)
            && p.0.combine_exact(sel.move_costs->0, true) && p.1.combine_exact(
            sel.move_costs->0,
            false,
        ),
    ensures
        moved_pair(ev, sel) matches Some(p) && moved_pair(ev, spec_move(ev, sel)->Ok_0) matches Some(
            q,
        ) && costs_conserved(p.0, p.1, q.0, q.1),
{
    let c = sel.move_costs->0;
    let p = moved_pair(ev, sel)->0;
    lemma_move_conserves(p.0, p.1, c);
}

/// Costs add and subtract like numbers, key by key: where `rust_decimal`
/// carries every value out exactly, each value of `a + b` (or `a - b`) is the
/// sum (or difference) of the values of `a` and `b` for the same key, and so
/// is the credit total.
pub proof fn law_costs_combine_by_key(a: CostsView, b: CostsView, negate: bool)
    requires
        a.well_formed(),
        b.well_formed(),
        a.combine_ok(b, negate),
        a.combine_exact(b, negate),
        a.all_exact(b, negate),
    ensures
        a.combined(b, negate).credits.value() == (if negate {
            a.credits.value() - b.credits.value()
        } else {
            a.credits.value() + b.credits.value()
        }),
        sums_exactly(a.resource, b.resource, a.combined(b, negate).resource, negate),
        sums_exactly(a.labor, b.labor, a.combined(b, negate).labor, negate),
        sums_exactly(a.labor_hours, b.labor_hours, a.combined(b, negate).labor_hours, negate),
        sums_exactly(a.currency, b.currency, a.combined(b, negate).currency, negate),
{
    lemma_canonical_value(a.credit_combination(b, negate).unwrap());
    lemma_merged_exact(a.resource, b.resource, negate);
    lemma_merged_exact(a.labor, b.labor, negate);
    lemma_merged_exact(a.labor_hours, b.labor_hours, negate);
    lemma_merged_exact(a.currency, b.currency, negate);
}

/// Adding costs commutes: where both orders are carried out exactly,
/// `a + b` and `b + a` are the same costs.
pub proof fn law_costs_add_commutes(a: CostsView, b: CostsView)
    requires
        a.well_formed(),
        b.well_formed(),
        a.plus(b) is Some,
        b.plus(a) is Some,
        a.combine_exact(b, false),
        b.combine_exact(a, false),
        a.all_exact(b, false),
        b.all_exact(a, false),
    ensures
        a.plus(b) == b.plus(a),
{
    let x = a.credit_combination(b, false).unwrap();
    let y = b.credit_combination(a, false).unwrap();
    lemma_canonical_value(y);
    lemma_canonical(x, canonical(y));
    lemma_merged_commutes(a.resource, b.resource);
    lemma_merged_commutes(a.labor, b.labor);
    lemma_merged_commutes(a.labor_hours, b.labor_hours);
    lemma_merged_commutes(a.currency, b.currency);
}

/// Subtracting undoes adding, and adding undoes subtracting: where both
/// steps are carried out exactly, `(a + b) - b` (or `(a - b) + b`) holds the
/// same values as `a` and the same credit value.
pub proof fn law_costs_combine_undone(a: CostsView, b: CostsView, negate: bool)
    requires
        a.well_formed(),
        b.well_formed(),
        a.combine_ok(b, negate),
        a.combine_exact(b, negate),
        a.all_exact(b, negate),
        a.combined(b, negate).combine_ok(b, !negate),
        a.combined(b, negate).combine_exact(b, !negate),
        a.combined(b, negate).all_exact(b, !negate),
    ensures
        a.combined(b, negate).combined(b, !negate).same(a),
{
    let s = a.combined(b, negate);
    lemma_canonical_value(a.credit_combination(b, negate).unwrap());
    lemma_canonical_value(s.credit_combination(b, !negate).unwrap());
    lemma_merged_undone(a.resource, b.resource, negate);
    lemma_merged_undone(a.labor, b.labor, negate);
    lemma_merged_undone(a.labor_hours, b.labor_hours, negate);
    lemma_merged_undone(a.currency, b.currency, negate);
}

/// The updates a move of costs between two processes lists: the output
/// process, then the input process, each stamped `now`, each only where its
/// costs changed.
pub open spec fn moved_process_mods(
    p1: ProcessView,
    c1: CostsView,
    p2: ProcessView,
    c2: CostsView,
    now: Timestamp,
) -> Seq<ModificationView> {
    let first = if !p1.costs.same(c1) {
        seq![process_update(ProcessView { costs: c1, ..p1 }, now)]
    } else {
        Seq::empty()
    };
    if !p2.costs.same(c2) {
        first.push(process_update(ProcessView { costs: c2, ..p2 }, now))
    } else {
        first
    }
}

/// Moving costs between two processes: where such an event is processed,
/// its costs leave the output process (which is not left below zero) and
/// arrive at the input process, and the modifications are the updates of
/// those two processes, in that order, each listed only where its costs
/// changed; nothing else is touched.
pub proof fn law_process_costs_move(
    ev: EventView,
    st: EventProcessStateView,
    now: Timestamp,
    m: Seq<ModificationView>,
)
    requires
        ev.inner.action == vf::Action::Move,
        ev.move_type == Some(MoveType::ProcessCosts),
        !is_pending(ev),
        spec_process(ev, st, now) == Ok::<Seq<ModificationView>, Error>(m),
    ensures
        ev.move_costs matches Some(c) && st.output_of matches Some(p1) && st.input_of matches Some(p2)
            && spec_release(p1.costs, c) matches Ok(x) && spec_receive(p2.costs, c) matches Ok(y)
            && !x.is_lt_0() && m == moved_process_mods(p1, x, p2, y.1, now),
{
}

/// `b` is the process `a` with at most its costs and time stamp changed.
pub open spec fn process_kept(a: ProcessView, b: ProcessView) -> bool {
    b == ProcessView { costs: b.costs, updated: b.updated, ..a }
}

/// `b` is the resource `a` with at most its costs, quantities, owner,
/// custodian, location and time stamp changed.
pub open spec fn resource_kept(a: ResourceView, b: ResourceView) -> bool {
    b == ResourceView {
        costs: b.costs,
        in_custody_of: b.in_custody_of,
        updated: b.updated,
        inner: vf::EconomicResource {
            accounting_quantity: b.inner.accounting_quantity,
            onhand_quantity: b.inner.onhand_quantity,
            primary_accountable: b.inner.primary_accountable,
            current_location: b.inner.current_location,
            ..a.inner
        },
        ..a
    }
}

/// Both absent, or both present with the second kept from the first.
pub open spec fn opt_process_kept(a: Option<ProcessView>, b: Option<ProcessView>) -> bool {
    match (a, b) {
        (Some(x), Some(y)) => process_kept(x, y),
        (None, None) => true,
        _ => false,
    }
}

/// Both absent, or both present with the second kept from the first.
pub open spec fn opt_resource_kept(a: Option<ResourceView>, b: Option<ResourceView>) -> bool {
    match (a, b) {
        (Some(x), Some(y)) => resource_kept(x, y),
        (None, None) => true,
        _ => false,
    }
}

/// Every selected object of `b` is kept from the same one of `a`.
pub open spec fn selection_kept(a: SelectionView, b: SelectionView) -> bool {
    &&& opt_process_kept(a.process, b.process)
    &&& opt_process_kept(a.process2, b.process2)
    &&& opt_resource_kept(a.resource, b.resource)
    &&& opt_resource_kept(a.resource2, b.resource2)
    &&& a.resource2_is_create == b.resource2_is_create
    &&& a.worked == b.worked
}

proof fn lemma_selection_kept_trans(a: SelectionView, b: SelectionView, c: SelectionView)
    requires
        selection_kept(a, b),
        selection_kept(b, c),
    ensures
        selection_kept(a, c),
{
}

proof fn lemma_steps_keep(ev: EventView, sel: SelectionView)
    requires
        spec_move(ev, sel) is Ok,
        spec_quantities(ev, spec_move(ev, sel)->Ok_0) is Ok,
    ensures
        selection_kept(
            sel,
            spec_finish(ev, spec_quantities(ev, spec_move(ev, sel)->Ok_0)->Ok_0),
        ),
{
    let moved = spec_move(ev, sel)->Ok_0;
    let q = spec_quantities(ev, moved)->Ok_0;
    let f = spec_finish(ev, q);
    assert(selection_kept(sel, moved));
    assert(selection_kept(moved, q));
    assert(selection_kept(q, f));
    lemma_selection_kept_trans(sel, moved, q);
    lemma_selection_kept_trans(sel, q, f);
}

/// What an event's modification may be: an update of one of the state's
/// processes or resources, stamped `now`, kept from it and listed because it
/// changed, or a new resource, stamped `now`.
pub open spec fn event_update_ok(st: EventProcessStateView, md: ModificationView, now: Timestamp) -> bool {
    match md.model {
        ModelView::Process(p) => {
            &&& md.op == Op::Update
            &&& p.updated == now
            &&& (st.output_of matches Some(q) && process_kept(q, p) && !q.costs.same(p.costs)) || (
            st.input_of matches Some(q) && process_kept(q, p) && !q.costs.same(p.costs))
        },
        ModelView::Resource(r) => {
            &&& r.updated == now
            &&& md.op == Op::Update ==> (st.resource matches Some(q) && resource_kept(q, r)
                && resource_changed(Some(q), Some(r))) || (st.to_resource matches Some(q)
                && resource_kept(q, r) && resource_changed(Some(q), Some(r)))
            &&& md.op == Op::Create ==> r.created == now
            &&& md.op == Op::Update || md.op == Op::Create
        },
        _ => false,
    }
}

/// Processing an event other than work changes only what it may: each
/// modification updates a process or resource of the state, stamped `now`,
/// that changed (a process only in its costs; a resource only in its costs,
/// quantities, owner, custodian or location), or creates the new resource a
/// transfer needs; objects that did not change are left out. The processes
/// come first, then the resources, a created resource last, and there are
/// at most four.
pub proof fn law_event_changes_only_what_it_may(
    ev: EventView,
    st: EventProcessStateView,
    now: Timestamp,
    m: Seq<ModificationView>,
)
    requires
        ev.inner.action != vf::Action::Work,
        spec_process(ev, st, now) == Ok::<Seq<ModificationView>, Error>(m),
    ensures
        forall|i: int| 0 <= i < m.len() ==> event_update_ok(st, #[trigger] m[i], now),
        m.len() <= 4,
        forall|i: int, j: int|
            0 <= i < j < m.len() && (#[trigger] m[j]).model is Process ==> (#[trigger] m[i]).model is Process,
        forall|i: int| 0 <= i < m.len() && (#[trigger] m[i]).op == Op::Create ==> i == m.len() - 1,
{
    if !is_pending(ev) {
        let sel = spec_select(ev, st)->Ok_0;
        let moved = spec_move(ev, sel)->Ok_0;
        let q = spec_quantities(ev, moved)->Ok_0;
        let after = spec_finish(ev, q);
        lemma_steps_keep(ev, sel);
        assert(sel.worked is None);
        assert(sel.process matches Some(p) ==> (st.output_of == Some(p) || st.input_of == Some(p)));
        assert(sel.process2 matches Some(p) ==> (st.output_of == Some(p) || st.input_of == Some(p)));
        assert(sel.resource matches Some(r) ==> st.resource == Some(r));
        assert(sel.resource2 matches Some(r) ==> (!sel.resource2_is_create ==> st.to_resource
            == Some(r)));
        assert(m == spec_mods(sel, after, now));
        let s0: Seq<ModificationView> = Seq::empty();
        let s1 = if process_changed(sel.process, after.process) {
            s0.push(process_update(after.process->0, now))
        } else {
            s0
        };
        let s2 = if process_changed(sel.process2, after.process2) {
            s1.push(process_update(after.process2->0, now))
        } else {
            s1
        };
        assert(forall|i: int| 0 <= i < s2.len() ==> event_update_ok(st, #[trigger] s2[i], now));
        let s3 = if resource_changed(sel.resource, after.resource) {
            s2.push(resource_update(after.resource->0, now))
        } else {
            s2
        };
        assert(forall|i: int| 0 <= i < s3.len() ==> event_update_ok(st, #[trigger] s3[i], now));
        assert(forall|i: int| 0 <= i < s2.len() ==> (#[trigger] s2[i]).model is Process && s2[i].op
            == Op::Update);
        assert(forall|i: int| 0 <= i < s3.len() ==> (#[trigger] s3[i]).op == Op::Update);
    }
}

/// Whether some key holds less in `a` than in `b`.
pub open spec fn some_key_below(a: Map<Seq<char>, Num>, b: Map<Seq<char>, Num>) -> bool {
    exists|k: Seq<char>| #[trigger] lookup(a, k).value() - lookup(b, k).value() < 0
}

proof fn lemma_negative_by_key(a: Map<Seq<char>, Num>, b: Map<Seq<char>, Num>, d: Map<Seq<char>, Num>)
    requires
        sums_exactly(a, b, d, true),
    ensures
        any_negative(d) <==> some_key_below(a, b),
{
    Num::lemma_zero();
    if any_negative(d) {
        let k = choose|k: Seq<char>| #[trigger] d.contains_key(k) && d[k].value() < 0;
        assert(lookup(d, k).value() == lookup(a, k).value() - lookup(b, k).value());
    }
    if some_key_below(a, b) {
        let k = choose|k: Seq<char>| #[trigger] lookup(a, k).value() - lookup(b, k).value() < 0;
        assert(lookup(d, k).value() == lookup(a, k).value() - lookup(b, k).value());
        assert(d.contains_key(k));
    }
}

/// Subtracting costs leaves a negative value exactly where some key, in some
/// bucket, holds less in the first costs than in the second (the credits
/// are not looked at), wherever `rust_decimal` subtracts exactly.
pub proof fn law_sub_lt_0_by_key(a: CostsView, b: CostsView)
    requires
        a.well_formed(),
        b.well_formed(),
        a.combine_ok(b, true),
        a.combine_exact(b, true),
        a.all_exact(b, true),
    ensures
        spec_is_sub_lt_0(a, b) == Some(
            some_key_below(a.resource, b.resource) || some_key_below(a.labor, b.labor)
                || some_key_below(a.labor_hours, b.labor_hours) || some_key_below(
                a.currency,
                b.currency,
            ),
        ),
{
    law_costs_combine_by_key(a, b, true);
    let d = a.combined(b, true);
    lemma_negative_by_key(a.resource, b.resource, d.resource);
    lemma_negative_by_key(a.labor, b.labor, d.labor);
    lemma_negative_by_key(a.labor_hours, b.labor_hours, d.labor_hours);
    lemma_negative_by_key(a.currency, b.currency, d.currency);
}

/// Each order action stands for the event action of the same name: an
/// order to deliver a service, to transfer a resource, or to transfer its
/// custody becomes an intent (or commitment) with exactly that action, and
/// different order actions never give the same action.
pub proof fn law_order_action_keeps_its_name(a: OrderAction, b: OrderAction)
    ensures
        a == OrderAction::DeliverService <==> spec_order_action(a) == vf::Action::DeliverService,
        a == OrderAction::Transfer <==> spec_order_action(a) == vf::Action::Transfer,
        a == OrderAction::TransferCustody <==> spec_order_action(a) == vf::Action::TransferCustody,
        spec_order_action(a) == spec_order_action(b) ==> a == b,
{
}

/// A measure changes only by measures of its own unit: increasing or
/// decreasing it by a measure in another unit fails with
/// `MeasureUnitsMismatched`; a change that succeeds keeps the unit, was made
/// by a measure of that unit, never leaves the value below zero, and takes
/// its value from `rust_decimal`'s sum (or difference) of the two values.
pub proof fn law_measures_change_in_their_own_unit(m: MeasureView, by: MeasureView)
    ensures
        m.unit != by.unit ==> spec_dec(m, by) == Err::<MeasureView, Error>(
            Error::MeasureUnitsMismatched,
        ),
        m.unit != by.unit ==> spec_inc(m, by) == Err::<MeasureView, Error>(
            Error::MeasureUnitsMismatched,
        ),
        spec_dec(m, by) matches Ok(r) ==> r.unit == m.unit && by.unit == m.unit && r.value.value()
            >= 0,
        spec_inc(m, by) matches Ok(r) ==> r.unit == m.unit && by.unit == m.unit && r.value.value()
            >= 0,
        spec_dec(m, by) matches Ok(r) ==> r.value == spec_difference(m.value, by.value)->0,
        spec_inc(m, by) matches Ok(r) ==> r.value == spec_sum(m.value, by.value)->0,
{
}

/// An event cannot take away from (or add to) a resource's quantity in
/// another unit than the quantity's own: where the resource holds a quantity
/// and the event's quantity is in a different unit, adjusting the primary
/// resource by an effect that changes it fails with
/// `MeasureUnitsMismatched`.
pub proof fn law_event_quantity_units_must_match(
    ev: EventView,
    eff: ResourceEffect,
    r: ResourceView,
    onhand: bool,
)
    requires
        eff == ResourceEffect::Decrement || eff == ResourceEffect::DecrementIncrement || eff
            == ResourceEffect::Increment,
        ev.inner.resource_quantity is Some,
        quantity(r, onhand) is Some,
        quantity(r, onhand)->0.has_unit@ != ev.inner.resource_quantity->0.has_unit@,
    ensures
        spec_adjust_primary(ev, Some(eff), Some(r), onhand) == Err::<Option<ResourceView>, Error>(
            Error::MeasureUnitsMismatched,
        ),
{
}

/// What each action does to a resource's accounting quantity: consuming
/// and lowering take from it, producing and raising add to it, moving and
/// transferring (with or without custody) take from one resource and add to
/// another, and every other action leaves it alone.
pub proof fn law_accounting_effects(a: vf::Action)
    ensures
        vf::spec_resource_effect(a) == ResourceEffect::Decrement <==> (a == vf::Action::Consume || a == vf::Action::Lower),
        vf::spec_resource_effect(a) == ResourceEffect::Increment <==> (a == vf::Action::Produce || a == vf::Action::Raise),
        vf::spec_resource_effect(a) == ResourceEffect::DecrementIncrement <==> (a == vf::Action::Move || a == vf::Action::Transfer || a == vf::Action::TransferAllRights),
{
}

/// What each action does to a resource's onhand quantity: accepting,
/// consuming and lowering take from it, modifying, producing and raising add
/// to it, moving and transferring (custody, or everything) take from one
/// resource and add to another, and every other action leaves it alone.
pub proof fn law_onhand_effects(a: vf::Action)
    ensures
        vf::spec_onhand_effect(a) == ResourceEffect::Decrement <==> (a == vf::Action::Accept || a == vf::Action::Consume || a == vf::Action::Lower),
        vf::spec_onhand_effect(a) == ResourceEffect::Increment <==> (a == vf::Action::Modify || a == vf::Action::Produce || a == vf::Action::Raise),
        vf::spec_onhand_effect(a) == ResourceEffect::DecrementIncrement <==> (a == vf::Action::Move || a == vf::Action::Transfer || a == vf::Action::TransferCustody),
{
}

/// Which actions feed a process and which come out of one: accepting,
/// citing, consuming, picking up, using and working are inputs; delivering
/// a service, dropping off, modifying and producing are outputs; the rest
/// (lowering, moving, raising, transfers) are neither.
pub proof fn law_process_inputs_and_outputs(a: vf::Action)
    ensures
        vf::spec_input_output(a) == Some(InputOutput::Input) <==> (a == vf::Action::Accept || a == vf::Action::Cite || a == vf::Action::Consume || a == vf::Action::Pickup || a == vf::Action::Use || a == vf::Action::Work),
        vf::spec_input_output(a) == Some(InputOutput::Output) <==> (a == vf::Action::DeliverService || a == vf::Action::Dropoff || a == vf::Action::Modify || a == vf::Action::Produce),
{
}

} // verus!
