//! Intents: creating, updating and deleting them.

use crate::access::Permission;
use crate::costs::{opt_costs_view, Costs};
use crate::error::Error;
use crate::measure::Measure;
use crate::models::company::{Company, Permission as CompanyPermission};
use crate::models::ids::{ResourceID, ResourceSpecID};
use crate::models::intent::{Intent, IntentID, IntentView};
use crate::models::lib::agent::{opt_agent_view, AgentID, AgentIDView};
use crate::models::member::Member;
use crate::models::user::User;
use crate::models::vf;
use crate::models::{Model, ModelView, Modifications, Op};
use crate::time::Timestamp;
use crate::transactions::{check_company, company_ok, company_rejects, deleted, is_deleted_err, pick, single, OrderAction};
use vstd::prelude::*;

verus! {

/// The event action an order action stands for.
pub open spec fn spec_order_action(a: OrderAction) -> vf::Action {
    match a {
        OrderAction::DeliverService => vf::Action::DeliverService,
        OrderAction::Transfer => vf::Action::Transfer,
        OrderAction::TransferCustody => vf::Action::TransferCustody,
    }
}

/// The event action an order action stands for.
pub fn order_action(a: OrderAction) -> (r: vf::Action)
    ensures
        r == spec_order_action(a),
{
    match a {
        OrderAction::DeliverService => vf::Action::DeliverService,
        OrderAction::Transfer => vf::Action::Transfer,
        OrderAction::TransferCustody => vf::Action::TransferCustody,
    }
}

/// Whether `e` says that the fields `a` and `b` are missing.
pub open spec fn is_missing_fields(e: Error, a: Seq<char>, b: Seq<char>) -> bool {
    e matches Error::MissingFields(v) && v@.len() == 2 && v@[0]@ == a && v@[1]@ == b
}

fn missing_provider_receiver() -> (e: Error)
    ensures
        is_missing_fields(e, "provider"@, "receiver"@),
{
    let mut v: Vec<String> = Vec::new();
    v.push("provider".to_string());
    v.push("receiver".to_string());
    Error::MissingFields(v)
}

/// Whether an agent given for one side of the intent is someone other than
/// the company.
pub open spec fn is_other(a: Option<AgentID>, company: Company) -> bool {
    a is Some && opt_agent_view(a) != Some(AgentIDView::Company(company.id@))
}

fn other_agent(a: &Option<AgentID>, company: &Company) -> (r: bool)
    ensures
        r == is_other(*a, *company),
{
    match a {
        Some(x) => *x != AgentID::CompanyID(company.id.clone()),
        None => false,
    }
}

/// Create an intent: the company is its provider or its receiver (or both;
/// one must be given).
pub fn create(
    caller: &User,
    member: &Member,
    company: &Company,
    id: IntentID,
    move_costs: Option<Costs>,
    action: OrderAction,
    agreed_in: Option<String>,
    at_location: Option<String>,
    available_quantity: Option<Measure>,
    due: Option<Timestamp>,
    effort_quantity: Option<Measure>,
    finished: Option<bool>,
    has_beginning: Option<Timestamp>,
    has_end: Option<Timestamp>,
    has_point_in_time: Option<Timestamp>,
    in_scope_of: Vec<AgentID>,
    name: Option<String>,
    note: Option<String>,
    provider: Option<AgentID>,
    receiver: Option<AgentID>,
    resource_conforms_to: Option<ResourceSpecID>,
    resource_inventoried_as: Option<ResourceID>,
    resource_quantity: Option<Measure>,
    active: bool,
    now: &Timestamp,
) -> (r: Result<Modifications, Error>)
    ensures
        company_rejects(
            r,
            *caller,
            *member,
            *company,
            Permission::CompanyUpdateIntents,
            CompanyPermission::IntentCreate,
        ),
        company_ok(
            *caller,
            *member,
            *company,
            Permission::CompanyUpdateIntents,
            CompanyPermission::IntentCreate,
        ) && provider is None && receiver is None ==> (r matches Err(e) && is_missing_fields(
            e,
            "provider"@,
            "receiver"@,
        )),
        company_ok(
            *caller,
            *member,
            *company,
            Permission::CompanyUpdateIntents,
            CompanyPermission::IntentCreate,
        ) && (provider is Some || receiver is Some) && (is_other(provider, *company) || is_other(
            receiver,
            *company,
        )) ==> r == Err::<Modifications, Error>(Error::InsufficientPrivileges),
        r is Ok <==> company_ok(
            *caller,
            *member,
            *company,
            Permission::CompanyUpdateIntents,
            CompanyPermission::IntentCreate,
        ) && (provider is Some || receiver is Some) && !is_other(provider, *company) && !is_other(
            receiver,
            *company,
        ),
        r matches Ok(m) ==> m@ == single(
            Op::Create,
            ModelView::Intent(
                IntentView {
                    id,
                    inner: vf::IntentView {
                        action: spec_order_action(action),
                        agreed_in,
                        at_location,
                        available_quantity,
                        due,
                        effort_quantity,
                        finished,
                        has_beginning,
                        has_end,
                        has_point_in_time,
                        in_scope_of: in_scope_of@,
                        name,
                        note,
                        provider,
                        receiver,
                        resource_conforms_to,
                        resource_inventoried_as,
                        resource_quantity,
                    },
                    move_costs: opt_costs_view(move_costs),
                    active,
                    created: *now,
                    updated: *now,
                    deleted: None,
                },
            ),
        ),
{
    match check_company(
        caller,
        member,
        company,
        Permission::CompanyUpdateIntents,
        CompanyPermission::IntentCreate,
    ) {
        Ok(()) => {},
        Err(e) => {
            return Err(e);
        },
    }
    if provider.is_none() && receiver.is_none() {
        return Err(missing_provider_receiver());
    }
    if other_agent(&provider, company) || other_agent(&receiver, company) {
        return Err(Error::InsufficientPrivileges);
    }
    let model = Intent {
        id,
        inner: vf::Intent {
            action: order_action(action),
            agreed_in,
            at_location,
            available_quantity,
            due,
            effort_quantity,
            finished,
            has_beginning,
            has_end,
            has_point_in_time,
            in_scope_of,
            name,
            note,
            provider,
            receiver,
            resource_conforms_to,
            resource_inventoried_as,
            resource_quantity,
        },
        move_costs,
        active,
        created: *now,
        updated: *now,
        deleted: None,
    };
    Ok(Modifications::new_single(Op::Create, Model::Intent(model)))
}

/// The intent after an update.
pub open spec fn updated_intent(
    subject: Intent,
    move_costs: Option<Option<Costs>>,
    action: Option<OrderAction>,
    agreed_in: Option<Option<String>>,
    at_location: Option<Option<String>>,
    available_quantity: Option<Option<Measure>>,
    due: Option<Option<Timestamp>>,
    effort_quantity: Option<Option<Measure>>,
    finished: Option<Option<bool>>,
    has_beginning: Option<Option<Timestamp>>,
    has_end: Option<Option<Timestamp>>,
    has_point_in_time: Option<Option<Timestamp>>,
    in_scope_of: Option<Vec<AgentID>>,
    name: Option<Option<String>>,
    note: Option<Option<String>>,
    provider: Option<Option<AgentID>>,
    receiver: Option<Option<AgentID>>,
    resource_conforms_to: Option<Option<ResourceSpecID>>,
    resource_inventoried_as: Option<Option<ResourceID>>,
    resource_quantity: Option<Option<Measure>>,
    active: Option<bool>,
    now: Timestamp,
) -> IntentView {
    IntentView {
                inner: vf::IntentView {
                    action: match action {
                        Some(a) => spec_order_action(a),
                        None => subject.inner.action,
                    },
                    agreed_in: pick(agreed_in, subject.inner.agreed_in),
                    at_location: pick(at_location, subject.inner.at_location),
                    available_quantity: pick(available_quantity, subject.inner.available_quantity),
                    due: pick(due, subject.inner.due),
                    effort_quantity: pick(effort_quantity, subject.inner.effort_quantity),
                    finished: pick(finished, subject.inner.finished),
                    has_beginning: pick(has_beginning, subject.inner.has_beginning),
                    has_end: pick(has_end, subject.inner.has_end),
                    has_point_in_time: pick(has_point_in_time, subject.inner.has_point_in_time),
                    in_scope_of: match in_scope_of {
                        Some(v) => v@,
                        None => subject.inner.in_scope_of@,
                    },
                    name: pick(name, subject.inner.name),
                    note: pick(note, subject.inner.note),
                    provider: pick(provider, subject.inner.provider),
                    receiver: pick(receiver, subject.inner.receiver),
                    resource_conforms_to: pick(
                        resource_conforms_to,
                        subject.inner.resource_conforms_to,
                    ),
                    resource_inventoried_as: pick(
                        resource_inventoried_as,
                        subject.inner.resource_inventoried_as,
                    ),
                    resource_quantity: pick(resource_quantity, subject.inner.resource_quantity),
                },
                move_costs: match move_costs {
                    Some(c) => opt_costs_view(c),
                    None => opt_costs_view(subject.move_costs),
                },
                active: pick(active, subject.active),
                updated: now,
                ..subject@
            }
}

/// The new value if one is given, else the old one.
fn or_old<T>(new: Option<T>, old: T) -> (r: T)
    ensures
        r == pick(new, old),
{
    match new {
        Some(x) => x,
        None => old,
    }
}

/// The intent after an update (the checks done).
fn build(
    subject: Intent,
    move_costs: Option<Option<Costs>>,
    action: Option<OrderAction>,
    agreed_in: Option<Option<String>>,
    at_location: Option<Option<String>>,
    available_quantity: Option<Option<Measure>>,
    due: Option<Option<Timestamp>>,
    effort_quantity: Option<Option<Measure>>,
    finished: Option<Option<bool>>,
    has_beginning: Option<Option<Timestamp>>,
    has_end: Option<Option<Timestamp>>,
    has_point_in_time: Option<Option<Timestamp>>,
    in_scope_of: Option<Vec<AgentID>>,
    name: Option<Option<String>>,
    note: Option<Option<String>>,
    provider: Option<Option<AgentID>>,
    receiver: Option<Option<AgentID>>,
    resource_conforms_to: Option<Option<ResourceSpecID>>,
    resource_inventoried_as: Option<Option<ResourceID>>,
    resource_quantity: Option<Option<Measure>>,
    active: Option<bool>,
    now: &Timestamp,
) -> (r: Intent)
    ensures
        r@ == updated_intent(
            subject,
            move_costs,
            action,
            agreed_in,
            at_location,
            available_quantity,
            due,
            effort_quantity,
            finished,
            has_beginning,
            has_end,
            has_point_in_time,
            in_scope_of,
            name,
            note,
            provider,
            receiver,
            resource_conforms_to,
            resource_inventoried_as,
            resource_quantity,
            active,
            *now,
        ),
{
    let Intent { id, inner, move_costs: old_costs, active: old_active, created, updated: _, deleted } =
        subject;
    let vf::Intent {
        action: a0,
        agreed_in: g0,
        at_location: l0,
        available_quantity: q0,
        due: d0,
        effort_quantity: e0,
        finished: f0,
        has_beginning: b0,
        has_end: h0,
        has_point_in_time: t0,
        in_scope_of: s0,
        name: n0,
        note: o0,
        provider: p0,
        receiver: r0,
        resource_conforms_to: c0,
        resource_inventoried_as: i0,
        resource_quantity: rq0,
    } = inner;
    let new_inner = vf::Intent {
        action: match action {
            Some(a) => order_action(a),
            None => a0,
        },
        agreed_in: or_old(agreed_in, g0),
        at_location: or_old(at_location, l0),
        available_quantity: or_old(available_quantity, q0),
        due: or_old(due, d0),
        effort_quantity: or_old(effort_quantity, e0),
        finished: or_old(finished, f0),
        has_beginning: or_old(has_beginning, b0),
        has_end: or_old(has_end, h0),
        has_point_in_time: or_old(has_point_in_time, t0),
        in_scope_of: or_old(in_scope_of, s0),
        name: or_old(name, n0),
        note: or_old(note, o0),
        provider: or_old(provider, p0),
        receiver: or_old(receiver, r0),
        resource_conforms_to: or_old(resource_conforms_to, c0),
        resource_inventoried_as: or_old(resource_inventoried_as, i0),
        resource_quantity: or_old(resource_quantity, rq0),
    };
    let subject = Intent {
        id,
        inner: new_inner,
        move_costs: or_old(move_costs, old_costs),
        active: or_old(active, old_active),
        created,
        updated: *now,
        deleted,
    };
    subject
}

/// Update an intent (the fields given; an inner `None` clears a field). The
/// provider and receiver cannot both be cleared, and can only be set to the
/// company.
pub fn update(
    caller: &User,
    member: &Member,
    company: &Company,
    subject: Intent,
    move_costs: Option<Option<Costs>>,
    action: Option<OrderAction>,
    agreed_in: Option<Option<String>>,
    at_location: Option<Option<String>>,
    available_quantity: Option<Option<Measure>>,
    due: Option<Option<Timestamp>>,
    effort_quantity: Option<Option<Measure>>,
    finished: Option<Option<bool>>,
    has_beginning: Option<Option<Timestamp>>,
    has_end: Option<Option<Timestamp>>,
    has_point_in_time: Option<Option<Timestamp>>,
    in_scope_of: Option<Vec<AgentID>>,
    name: Option<Option<String>>,
    note: Option<Option<String>>,
    provider: Option<Option<AgentID>>,
    receiver: Option<Option<AgentID>>,
    resource_conforms_to: Option<Option<ResourceSpecID>>,
    resource_inventoried_as: Option<Option<ResourceID>>,
    resource_quantity: Option<Option<Measure>>,
    active: Option<bool>,
    now: &Timestamp,
) -> (r: Result<Modifications, Error>)
    ensures
        company_rejects(
            r,
            *caller,
            *member,
            *company,
            Permission::CompanyUpdateIntents,
            CompanyPermission::IntentUpdate,
        ),
        company_ok(
            *caller,
            *member,
            *company,
            Permission::CompanyUpdateIntents,
            CompanyPermission::IntentUpdate,
        ) && provider == Some(None::<AgentID>) && receiver == Some(None::<AgentID>) ==> (r matches Err(
            e,
        ) && is_missing_fields(e, "provider"@, "receiver"@)),
        company_ok(
            *caller,
            *member,
            *company,
            Permission::CompanyUpdateIntents,
            CompanyPermission::IntentUpdate,
        ) && !(provider == Some(None::<AgentID>) && receiver == Some(None::<AgentID>)) && ((
        provider matches Some(p) && is_other(p, *company)) || (receiver matches Some(x) && is_other(
            x,
            *company,
        ))) ==> r == Err::<Modifications, Error>(Error::InsufficientPrivileges),
        r is Ok <==> company_ok(
            *caller,
            *member,
            *company,
            Permission::CompanyUpdateIntents,
            CompanyPermission::IntentUpdate,
        ) && !(provider == Some(None::<AgentID>) && receiver == Some(None::<AgentID>)) && !(
        provider matches Some(p) && is_other(p, *company)) && !(receiver matches Some(x) && is_other(
            x,
            *company,
        )),
        r matches Ok(m) ==> m@ == single(
            Op::Update,
            ModelView::Intent(
                updated_intent(
                    subject,
                    move_costs,
                    action,
                    agreed_in,
                    at_location,
                    available_quantity,
                    due,
                    effort_quantity,
                    finished,
                    has_beginning,
                    has_end,
                    has_point_in_time,
                    in_scope_of,
                    name,
                    note,
                    provider,
                    receiver,
                    resource_conforms_to,
                    resource_inventoried_as,
                    resource_quantity,
                    active,
                    *now,
                ),
            ),
        ),
{
    match check_company(
        caller,
        member,
        company,
        Permission::CompanyUpdateIntents,
        CompanyPermission::IntentUpdate,
    ) {
        Ok(()) => {},
        Err(e) => {
            return Err(e);
        },
    }
    let provider_cleared = match &provider {
        Some(None) => true,
        _ => false,
    };
    let receiver_cleared = match &receiver {
        Some(None) => true,
        _ => false,
    };
    if provider_cleared && receiver_cleared {
        return Err(missing_provider_receiver());
    }
    if let Some(p) = &provider {
        if other_agent(p, company) {
            return Err(Error::InsufficientPrivileges);
        }
    }
    if let Some(x) = &receiver {
        if other_agent(x, company) {
            return Err(Error::InsufficientPrivileges);
        }
    }
    let subject = build(
        subject,
        move_costs,
        action,
        agreed_in,
        at_location,
        available_quantity,
        due,
        effort_quantity,
        finished,
        has_beginning,
        has_end,
        has_point_in_time,
        in_scope_of,
        name,
        note,
        provider,
        receiver,
        resource_conforms_to,
        resource_inventoried_as,
        resource_quantity,
        active,
        now,
    );
    Ok(Modifications::new_single(Op::Update, Model::Intent(subject)))
}

/// Delete an intent (one not deleted already).
pub fn delete(caller: &User, member: &Member, company: &Company, subject: Intent, now: &Timestamp) -> (r:
    Result<Modifications, Error>)
    ensures
        company_rejects(
            r,
            *caller,
            *member,
            *company,
            Permission::CompanyUpdateIntents,
            CompanyPermission::IntentDelete,
        ),
        company_ok(
            *caller,
            *member,
            *company,
            Permission::CompanyUpdateIntents,
            CompanyPermission::IntentDelete,
        ) && subject.spec_is_deleted() ==> (r matches Err(e) && is_deleted_err(e, "intent"@)),
        r is Ok <==> company_ok(
            *caller,
            *member,
            *company,
            Permission::CompanyUpdateIntents,
            CompanyPermission::IntentDelete,
        ) && !subject.spec_is_deleted(),
        r matches Ok(m) ==> m@ == single(
            Op::Delete,
            ModelView::Intent(IntentView { deleted: Some(*now), ..subject@ }),
        ),
{
    match check_company(
        caller,
        member,
        company,
        Permission::CompanyUpdateIntents,
        CompanyPermission::IntentDelete,
    ) {
        Ok(()) => {},
        Err(e) => {
            return Err(e);
        },
    }
    if subject.is_deleted() {
        return Err(deleted("intent"));
    }
    let mut subject = subject;
    subject.set_deleted(Some(*now));
    Ok(Modifications::new_single(Op::Delete, Model::Intent(subject)))
}

} // verus!
