//! The `Event` model is *the* core piece of the system that ties the room
//! together. Processing events is what moves `Costs` through the system.
//!
//! Observation and analysis happen at the same time: when an event is
//! processed, the processes and resources it touches are updated right away.
//!
//! - An `Intent` represents "we want something to happen"
//! - A `Commitment` represents "we agree that something will happen"
//! - An `Event` represents "something did happen"

use crate::costs::{clone_opt_costs, opt_costs_view, receive_costs, spec_receive, spec_release, Costs, CostsView};
use crate::cost_map::lookup;
use crate::error::Error;
use crate::measure::{dec_measure, inc_measure, opt_measure_same, opt_measure_same_as, opt_measure_view, spec_dec_measure, spec_inc_measure, spec_unwrap_or_zero, unwrap_or_zero, Measure, Unit};
use crate::models::company::CompanyID;
use crate::models::lib::agent::{opt_agent_eq, opt_agent_view, AgentID, AgentIDView};
use crate::models::member::{MemberClass, MemberView};
use crate::models::process::{ProcessID, ProcessView};
use crate::models::resource::{opt_zeroed, ResourceID, ResourceView};
use crate::models::vf::{InputOutput, ResourceEffect};
use crate::models::ModelView;
use crate::num::Num;
pub use crate::error::EventError;
pub use crate::models::ids::EventID;
use crate::models::member::Member;
use crate::models::process::Process;
use crate::models::resource::Resource;
use crate::models::vf;
use crate::models::{Model, Modifications, ModificationView, Op};
use crate::time::Timestamp;
use vstd::prelude::*;

verus! {

/// When moving, whether the event moves costs internally between two
/// processes, or a resource between agents.
#[derive(Clone, Copy, Debug, PartialEq, Eq, Structural)]
pub enum MoveType {
    /// An internal cost transfer *between two processes*.
    ProcessCosts,
    /// Moves a resource internally in the company.
    Resource,
}
/// The event model, which is the glue that moves costs between objects. It
/// describes things that have already happened in the economic network.
#[derive(Debug, PartialEq)]
pub struct Event {
    /// The event's ID
    pub id: EventID,
    /// The event's core VF type
    pub inner: vf::EconomicEvent,
    /// If this event is an input/output of a process or resource, move this
    /// fixed amount of costs between the two objects
    pub move_costs: Option<Costs>,
    /// The type of move (for `Action::Move`): costs between processes, or a
    /// resource
    pub move_type: Option<MoveType>,
    /// Whether the model can be used or altered (see `is_active`).
    pub active: bool,
    /// When the model was created.
    pub created: Timestamp,
    /// When the model was last updated.
    pub updated: Timestamp,
    /// When the model was deleted (deletion is permanent).
    pub deleted: Option<Timestamp>,
}

/// What a event holds, with its costs and lists as values.
pub struct EventView {
    pub id: EventID,
    pub inner: vf::EconomicEvent,
    pub move_costs: Option<CostsView>,
    pub move_type: Option<MoveType>,
    pub active: bool,
    pub created: Timestamp,
    pub updated: Timestamp,
    pub deleted: Option<Timestamp>,
}

impl View for Event {
    type V = EventView;

    open spec fn view(&self) -> EventView {
        EventView {
            id: self.id,
            inner: self.inner,
            move_costs: opt_costs_view(self.move_costs),
            move_type: self.move_type,
            active: self.active,
            created: self.created,
            updated: self.updated,
            deleted: self.deleted,
        }
    }
}

impl Clone for Event {
    fn clone(&self) -> (r: Event)
        ensures
            r@ == self@,
    {
        Event {
            id: self.id.clone(),
            inner: self.inner.clone(),
            move_costs: clone_opt_costs(&self.move_costs),
            move_type: self.move_type,
            active: self.active,
            created: self.created,
            updated: self.updated,
            deleted: self.deleted,
        }
    }
}

impl Event {
    /// Whether the event has been deleted.
    pub open spec fn spec_is_deleted(&self) -> bool {
        self.deleted is Some
    }

    /// Whether the event is active: marked active and not deleted.
    pub open spec fn spec_is_active(&self) -> bool {
        self.active && !self.spec_is_deleted()
    }

    /// Whether the event has been deleted.
    pub fn is_deleted(&self) -> (r: bool)
        ensures
            r == self.spec_is_deleted(),
    {
        self.deleted.is_some()
    }

    /// Whether the event is active: marked active and not deleted.
    pub fn is_active(&self) -> (r: bool)
        ensures
            r == self.spec_is_active(),
    {
        self.active && !self.is_deleted()
    }

    /// Set when the event was deleted.
    pub fn set_deleted(&mut self, deleted: Option<Timestamp>)
        ensures
            *final(self) == (Event { deleted, ..*old(self) }),
    {
        self.deleted = deleted;
    }

    /// Set whether the event is active.
    pub fn set_active(&mut self, active: bool)
        ensures
            *final(self) == (Event { active, ..*old(self) }),
    {
        self.active = active;
    }

    /// Set when the event was last updated.
    pub fn set_updated(&mut self, updated: Timestamp)
        ensures
            *final(self) == (Event { updated, ..*old(self) }),
    {
        self.updated = updated;
    }
}

/// The objects an event operates on, that the event only refers to by id.
#[derive(Debug)]
pub struct EventProcessState {
    /// The process this event is an input of
    pub input_of: Option<Process>,
    /// The process this event is an output of
    pub output_of: Option<Process>,
    /// The provider (if a member) performing an action (generally `Work`)
    pub provider: Option<Member>,
    /// The resource this event operates on (Consume/Produce/etc)
    pub resource: Option<Resource>,
    /// The secondary resource we're operating on (Transfer/Move/etc)
    pub to_resource: Option<Resource>,
}

impl EventProcessState {
    /// An empty state, to fill in with the setters below.
    pub fn builder() -> (r: EventProcessState)
        ensures
            r.input_of is None,
            r.output_of is None,
            r.provider is None,
            r.resource is None,
            r.to_resource is None,
    {
        EventProcessState {
            input_of: None,
            output_of: None,
            provider: None,
            resource: None,
            to_resource: None,
        }
    }

    /// Set the process the event is an input of.
    pub fn input_of(self, process: Process) -> (r: EventProcessState)
        ensures
            r == (EventProcessState { input_of: Some(process), ..self }),
    {
        EventProcessState { input_of: Some(process), ..self }
    }

    /// Set the process the event is an output of.
    pub fn output_of(self, process: Process) -> (r: EventProcessState)
        ensures
            r == (EventProcessState { output_of: Some(process), ..self }),
    {
        EventProcessState { output_of: Some(process), ..self }
    }

    /// Set the member providing the event.
    pub fn provider(self, member: Member) -> (r: EventProcessState)
        ensures
            r == (EventProcessState { provider: Some(member), ..self }),
    {
        EventProcessState { provider: Some(member), ..self }
    }

    /// Set the resource the event operates on.
    pub fn resource(self, resource: Resource) -> (r: EventProcessState)
        ensures
            r == (EventProcessState { resource: Some(resource), ..self }),
    {
        EventProcessState { resource: Some(resource), ..self }
    }

    /// Set the secondary resource the event operates on.
    pub fn to_resource(self, resource: Resource) -> (r: EventProcessState)
        ensures
            r == (EventProcessState { to_resource: Some(resource), ..self }),
    {
        EventProcessState { to_resource: Some(resource), ..self }
    }
}

/// The result an event's processing builds up: the models to save.
#[derive(Debug)]
pub struct EventProcessResult {
    /// The ID of the event we're processing the result for
    pub event_id: EventID,
    /// The time we're processing the event
    pub process_time: Timestamp,
    /// The models we're saving/updating as a result of processing the event
    pub modifications: Modifications,
}

impl EventProcessResult {
    /// Create a new, empty result.
    pub fn new(event_id: &EventID, process_time: &Timestamp) -> (r: EventProcessResult)
        ensures
            r.event_id == *event_id,
            r.process_time == *process_time,
            r.modifications@ == Seq::<ModificationView>::empty(),
    {
        EventProcessResult {
            event_id: event_id.clone(),
            process_time: *process_time,
            modifications: Modifications::new(),
        }
    }

    /// The list of modifications.
    pub fn into_modifications(self) -> (r: Modifications)
        ensures
            r@ == self.modifications@,
    {
        self.modifications
    }

    /// Add a resource to create, stamped with the processing time.
    pub fn create_resource(&mut self, resource: Resource)
        ensures
            final(self).modifications@ == old(self).modifications@.push(
                ModificationView {
                    op: Op::Create,
                    model: crate::models::ModelView::Resource(
                        (Resource { created: old(self).process_time, updated: old(self).process_time, ..resource })@,
                    ),
                },
            ),
            final(self).event_id == old(self).event_id,
            final(self).process_time == old(self).process_time,
    {
        let mut resource = resource;
        resource.created = self.process_time;
        resource.updated = self.process_time;
        self.modifications.push(Op::Create, Model::Resource(resource));
    }

    /// Add a process to update, stamped with the processing time.
    pub fn modify_process(&mut self, process: Process)
        ensures
            final(self).modifications@ == old(self).modifications@.push(
                ModificationView {
                    op: Op::Update,
                    model: crate::models::ModelView::Process(
                        (Process { updated: old(self).process_time, ..process })@,
                    ),
                },
            ),
            final(self).event_id == old(self).event_id,
            final(self).process_time == old(self).process_time,
    {
        let mut process = process;
        process.updated = self.process_time;
        self.modifications.push(Op::Update, Model::Process(process));
    }

    /// Add a resource to update, stamped with the processing time.
    pub fn modify_resource(&mut self, resource: Resource)
        ensures
            final(self).modifications@ == old(self).modifications@.push(
                ModificationView {
                    op: Op::Update,
                    model: crate::models::ModelView::Resource(
                        (Resource { updated: old(self).process_time, ..resource })@,
                    ),
                },
            ),
            final(self).event_id == old(self).event_id,
            final(self).process_time == old(self).process_time,
    {
        let mut resource = resource;
        resource.updated = self.process_time;
        self.modifications.push(Op::Update, Model::Resource(resource));
    }
}

/// The view of an optional process.
pub open spec fn opt_process_view(p: Option<Process>) -> Option<ProcessView> {
    match p {
        Some(x) => Some(x@),
        None => None,
    }
}

/// The view of an optional resource.
pub open spec fn opt_resource_view(r: Option<Resource>) -> Option<ResourceView> {
    match r {
        Some(x) => Some(x@),
        None => None,
    }
}

/// The view of an optional member.
pub open spec fn opt_member_view(m: Option<Member>) -> Option<MemberView> {
    match m {
        Some(x) => Some(x@),
        None => None,
    }
}

/// The view of an optional string.
pub open spec fn opt_str_view(s: Option<String>) -> Option<Seq<char>> {
    match s {
        Some(x) => Some(x@),
        None => None,
    }
}

/// What the processing state holds.
pub struct EventProcessStateView {
    pub input_of: Option<ProcessView>,
    pub output_of: Option<ProcessView>,
    pub provider: Option<MemberView>,
    pub resource: Option<ResourceView>,
    pub to_resource: Option<ResourceView>,
}

impl View for EventProcessState {
    type V = EventProcessStateView;

    open spec fn view(&self) -> EventProcessStateView {
        EventProcessStateView {
            input_of: opt_process_view(self.input_of),
            output_of: opt_process_view(self.output_of),
            provider: opt_member_view(self.provider),
            resource: opt_resource_view(self.resource),
            to_resource: opt_resource_view(self.to_resource),
        }
    }
}

/// An event processing error.
pub open spec fn ev_err(e: EventError) -> Error {
    Error::Event(e)
}

/// A company, as an agent.
pub open spec fn company_agent(id: CompanyID) -> AgentIDView {
    AgentIDView::Company(id@)
}

/// Whether an event's process reference names the given process.
pub open spec fn is_named_process(id: Option<ProcessID>, p: ProcessView) -> bool {
    id matches Some(i) && i@ == p.id@
}

/// Whether an event's resource reference names the given resource.
pub open spec fn is_named_resource(id: Option<ResourceID>, r: ResourceView) -> bool {
    id matches Some(i) && i@ == r.id@
}

/// The first problem with the objects handed to an event (one that is not
/// the one the event refers to) or with its dates.
pub open spec fn spec_check_ids(ev: EventView, st: EventProcessStateView) -> Option<Error> {
    if st.output_of matches Some(p) && !is_named_process(ev.inner.output_of, p) {
        Some(ev_err(EventError::MismatchedOutputProcessID))
    } else if st.input_of matches Some(p) && !is_named_process(ev.inner.input_of, p) {
        Some(ev_err(EventError::MismatchedInputProcessID))
    } else if st.resource matches Some(r) && !is_named_resource(ev.inner.resource_inventoried_as, r) {
        Some(ev_err(EventError::MismatchedResourceID))
    } else if st.to_resource matches Some(r) && !is_named_resource(
        ev.inner.to_resource_inventoried_as,
        r,
    ) {
        Some(ev_err(EventError::MismatchedResourceToID))
    } else if st.provider matches Some(m) && ev.inner.provider@ != AgentIDView::Member(m.id@) {
        Some(ev_err(EventError::MismatchedProviderID))
    } else if ev.inner.has_beginning is None && ev.inner.has_end is Some {
        Some(ev_err(EventError::DateEndMustHaveBegin))
    } else if ev.inner.has_beginning matches Some(b) && ev.inner.has_end matches Some(e)
        && e.spec_before(b) {
        Some(ev_err(EventError::DateEndBeforeBegin))
    } else {
        None
    }
}

/// An event that has begun but not ended is pending: it is not applied yet.
pub open spec fn is_pending(ev: EventView) -> bool {
    ev.inner.has_beginning is Some && ev.inner.has_end is None
}

/// An effect, where it is one.
pub open spec fn some_effect(e: ResourceEffect) -> Option<ResourceEffect> {
    if e == ResourceEffect::NoEffect {
        None
    } else {
        Some(e)
    }
}

/// The action's effect on the accounting quantity, where it has one.
pub open spec fn accounting_effect(a: vf::Action) -> Option<ResourceEffect> {
    some_effect(vf::spec_resource_effect(a))
}

/// The action's effect on the onhand quantity, where it has one.
pub open spec fn onhand_effect(a: vf::Action) -> Option<ResourceEffect> {
    some_effect(vf::spec_onhand_effect(a))
}

/// The action's effect on resources: the accounting effect, else the onhand
/// one (the two always go together).
pub open spec fn bundle_effect(a: vf::Action) -> Option<ResourceEffect> {
    match accounting_effect(a) {
        Some(e) => Some(e),
        None => onhand_effect(a),
    }
}

/// The process the action is an input to or an output of, which the
/// receiver (for inputs) or the provider (for outputs) must own.
pub open spec fn spec_primary_process(ev: EventView, st: EventProcessStateView) -> Result<
    Option<ProcessView>,
    Error,
> {
    match vf::spec_input_output(ev.inner.action) {
        Some(InputOutput::Input) => match st.input_of {
            None => Err(ev_err(EventError::MissingInputProcess)),
            Some(p) => if ev.inner.receiver@ != company_agent(p.company_id) {
                Err(ev_err(EventError::ProcessOwnerMismatch))
            } else {
                Ok(Some(p))
            },
        },
        Some(InputOutput::Output) => match st.output_of {
            None => Err(ev_err(EventError::MissingOutputProcess)),
            Some(p) => if ev.inner.provider@ != company_agent(p.company_id) {
                Err(ev_err(EventError::ProcessOwnerMismatch))
            } else {
                Ok(Some(p))
            },
        },
        None => Ok(None),
    }
}

/// The objects an event works on, once picked from the state.
pub struct SelectionView {
    pub process: Option<ProcessView>,
    pub process2: Option<ProcessView>,
    pub resource: Option<ResourceView>,
    pub resource2: Option<ResourceView>,
    pub resource2_is_create: bool,
    pub owner_must_match: bool,
    pub move_costs: Option<CostsView>,
    pub worked: Option<ProcessView>,
}

/// A selection of just the primary process.
pub open spec fn base_selection(process: Option<ProcessView>) -> SelectionView {
    SelectionView {
        process,
        process2: None,
        resource: None,
        resource2: None,
        resource2_is_create: false,
        owner_must_match: true,
        move_costs: None,
        worked: None,
    }
}

/// The event's costs to move (`MissingCosts` if it has none).
pub open spec fn need_costs(ev: EventView) -> Result<CostsView, Error> {
    match ev.move_costs {
        Some(c) => Ok(c),
        None => Err(ev_err(EventError::MissingCosts)),
    }
}

/// A new resource made from `p`: the given id, no costs, quantities zeroed.
pub open spec fn copied_resource(p: ResourceView, id: ResourceID) -> ResourceView {
    ResourceView {
        id,
        costs: CostsView::empty(),
        inner: vf::EconomicResource {
            accounting_quantity: opt_zeroed(p.inner.accounting_quantity),
            onhand_quantity: opt_zeroed(p.inner.onhand_quantity),
            ..p.inner
        },
        ..p
    }
}

/// The resources an action's effects call for: the state's resource where
/// the action has an effect, and for a decrement-increment a second
/// resource, the state's or, where the event names one the state does not
/// hold, a new one copied from the first (the `bool`).
pub open spec fn spec_default_resources(ev: EventView, st: EventProcessStateView) -> Result<
    (Option<ResourceView>, Option<ResourceView>, bool),
    Error,
> {
    let bundle = bundle_effect(ev.inner.action);
    let r1: Result<Option<ResourceView>, Error> = if bundle is Some {
        match st.resource {
            Some(r) => Ok(Some(r)),
            None => Err(ev_err(EventError::MissingResource)),
        }
    } else {
        Ok(None)
    };
    match r1 {
        Err(e) => Err(e),
        Ok(r1) => if bundle == Some(ResourceEffect::DecrementIncrement) {
            match st.to_resource {
                Some(r2) => Ok((r1, Some(r2), false)),
                None => match (r1, ev.inner.to_resource_inventoried_as) {
                    (Some(p), Some(id)) => Ok((r1, Some(copied_resource(p, id)), true)),
                    _ => Err(ev_err(EventError::MissingResourceTo)),
                },
            }
        } else {
            Ok((r1, None, false))
        },
    }
}

/// The costs the event moves, where the action moves any (inputs, outputs
/// and decrement-increments).
pub open spec fn spec_default_move_costs(ev: EventView) -> Result<Option<CostsView>, Error> {
    if vf::spec_input_output(ev.inner.action) is Some || bundle_effect(ev.inner.action) == Some(
        ResourceEffect::DecrementIncrement,
    ) {
        match need_costs(ev) {
            Ok(c) => Ok(Some(c)),
            Err(e) => Err(e),
        }
    } else {
        Ok(None)
    }
}

/// The hours of a labor event's effort (which must be in hours).
pub open spec fn effort_hours(ev: EventView) -> Result<Num, Error> {
    match ev.inner.effort_quantity {
        None => Err(ev_err(EventError::MissingEffortQuantity)),
        Some(m) => if m.has_unit@ == Unit::hour_name() {
            Ok(m.has_numerical_value)
        } else {
            Err(ev_err(EventError::LaborMustBeHours))
        },
    }
}

/// A work event's costs, where it is ready to track them: the wages of the
/// worker's occupation taken from the event's costs, and the hours worked.
pub open spec fn work_costs(ev: EventView, provider: Option<MemberView>) -> Result<CostsView, Error> {
    match provider {
        None => Err(ev_err(EventError::MissingProvider)),
        Some(m) => match m.class {
            MemberClass::Worker(w) => match need_costs(ev) {
                Err(e) => Err(e),
                Ok(c) => match effort_hours(ev) {
                    Err(e) => Err(e),
                    Ok(h) => match CostsView::empty().with_labor(
                        w.occupation@,
                        lookup(c.labor, w.occupation@),
                    ) {
                        None => Err(Error::NumericOverflow),
                        Some(c1) => match c1.with_labor_hours(w.occupation@, h) {
                            None => Err(Error::NumericOverflow),
                            Some(c2) => Ok(c2),
                        },
                    },
                },
            },
            _ => Err(Error::MemberMustBeWorker),
        },
    }
}

/// Whether a work event would track a negative wage or negative hours.
pub open spec fn work_amounts_negative(ev: EventView, provider: Option<MemberView>) -> bool {
    provider matches Some(m) && m.class matches MemberClass::Worker(w)
        && ev.move_costs matches Some(c) && effort_hours(ev) matches Ok(h) && (lookup(
        c.labor,
        w.occupation@,
    ).value() < 0 || h.value() < 0)
}

/// The process after a work event: it receives the work's costs.
pub open spec fn spec_work(ev: EventView, provider: Option<MemberView>, p: ProcessView) -> Result<
    ProcessView,
    Error,
> {
    match work_costs(ev, provider) {
        Err(e) => Err(e),
        Ok(c) => match spec_receive(p.costs, c) {
            Err(e) => Err(e),
            Ok(x) => Ok(ProcessView { costs: x.1, ..p }),
        },
    }
}

/// The objects the event works on: the primary process, and what the
/// action calls for.
pub open spec fn spec_select(ev: EventView, st: EventProcessStateView) -> Result<
    SelectionView,
    Error,
> {
    match spec_primary_process(ev, st) {
        Err(e) => Err(e),
        Ok(process) => {
            let base = base_selection(process);
            match ev.inner.action {
                vf::Action::Cite | vf::Action::Use => match need_costs(ev) {
                    Err(e) => Err(e),
                    Ok(c) => match st.resource {
                        None => Err(ev_err(EventError::MissingResource)),
                        Some(r) => Ok(SelectionView { move_costs: Some(c), resource: Some(r), ..base }),
                    },
                },
                vf::Action::Dropoff | vf::Action::Pickup => match need_costs(ev) {
                    Err(e) => Err(e),
                    Ok(c) => match st.resource {
                        None => Err(ev_err(EventError::MissingResource)),
                        Some(r) => Ok(
                            SelectionView {
                                move_costs: Some(c),
                                resource: Some(r),
                                owner_must_match: false,
                                ..base
                            },
                        ),
                    },
                },
                vf::Action::DeliverService => match need_costs(ev) {
                    Err(e) => Err(e),
                    Ok(c) => match st.input_of {
                        None => Err(ev_err(EventError::MissingInputProcess)),
                        Some(p2) => Ok(SelectionView { move_costs: Some(c), process2: Some(p2), ..base }),
                    },
                },
                vf::Action::Move => match need_costs(ev) {
                    Err(e) => Err(e),
                    Ok(c) => match ev.move_type {
                        Some(MoveType::ProcessCosts) => match st.output_of {
                            None => Err(ev_err(EventError::MissingOutputProcess)),
                            Some(p) => match st.input_of {
                                None => Err(ev_err(EventError::MissingInputProcess)),
                                Some(p2) => Ok(
                                    SelectionView {
                                        move_costs: Some(c),
                                        process: Some(p),
                                        process2: Some(p2),
                                        ..base
                                    },
                                ),
                            },
                        },
                        Some(MoveType::Resource) => match spec_default_resources(ev, st) {
                            Err(e) => Err(e),
                            Ok(rs) => Ok(
                                SelectionView {
                                    move_costs: Some(c),
                                    resource: rs.0,
                                    resource2: rs.1,
                                    resource2_is_create: rs.2,
                                    ..base
                                },
                            ),
                        },
                        None => Err(ev_err(EventError::MissingMoveType)),
                    },
                },
                vf::Action::Work => match process {
                    Some(p) => match spec_work(ev, st.provider, p) {
                        Err(e) => Err(e),
                        Ok(w) => Ok(SelectionView { worked: Some(w), ..base }),
                    },
                    None => Ok(base),
                },
                _ => match spec_default_resources(ev, st) {
                    Err(e) => Err(e),
                    Ok(rs) => match spec_default_move_costs(ev) {
                        Err(e) => Err(e),
                        Ok(c) => Ok(
                            SelectionView {
                                resource: rs.0,
                                resource2: rs.1,
                                resource2_is_create: rs.2,
                                move_costs: c,
                                ..base
                            },
                        ),
                    },
                },
            }
        },
    }
}

/// Whether processing the event would track a negative wage or negative
/// hours for a work event.
pub open spec fn work_panics(ev: EventView, st: EventProcessStateView) -> bool {
    &&& spec_check_ids(ev, st) is None
    &&& !is_pending(ev)
    &&& ev.inner.action == vf::Action::Work
    &&& spec_primary_process(ev, st) is Ok
    &&& work_amounts_negative(ev, st.provider)
}

/// The first problem with who owns the selected processes: the provider must
/// own the process outputs come from, the receiver the one inputs go to, and
/// inputs cannot go to a deleted process.
pub open spec fn spec_check_processes(ev: EventView, sel: SelectionView) -> Option<Error> {
    let io = vf::spec_input_output(ev.inner.action);
    match (sel.process, sel.process2) {
        (Some(p1), Some(p2)) => if ev.inner.provider@ != company_agent(p1.company_id) {
            Some(ev_err(EventError::ProcessOwnerMismatch))
        } else if ev.inner.receiver@ != company_agent(p2.company_id) {
            Some(ev_err(EventError::ProcessOwnerMismatch))
        } else if p2.deleted is Some {
            Some(ev_err(EventError::InputOnDeletedProcess))
        } else {
            None
        },
        (Some(p), None) => if io == Some(InputOutput::Output) && ev.inner.provider@ != company_agent(
            p.company_id,
        ) {
            Some(ev_err(EventError::ProcessOwnerMismatch))
        } else if io == Some(InputOutput::Input) && ev.inner.receiver@ != company_agent(
            p.company_id,
        ) {
            Some(ev_err(EventError::ProcessOwnerMismatch))
        } else if io == Some(InputOutput::Input) && p.deleted is Some {
            Some(ev_err(EventError::InputOnDeletedProcess))
        } else {
            None
        },
        _ => None,
    }
}

/// Whether an effect decrements.
pub open spec fn decrements(e: Option<ResourceEffect>) -> bool {
    e == Some(ResourceEffect::Decrement) || e == Some(ResourceEffect::DecrementIncrement)
}

/// The first problem with who owns and holds the selected resources: a
/// resource is decremented by its owner (custodian), incremented for its
/// owner (custodian), and the secondary resource belongs to and is held by
/// the receiver. A resource accepted (for repair, say) need not belong to the
/// one who accepts it.
pub open spec fn spec_check_resources(ev: EventView, sel: SelectionView) -> Option<Error> {
    let acct = accounting_effect(ev.inner.action);
    let onhand = onhand_effect(ev.inner.action);
    let prov = ev.inner.provider@;
    let recv = ev.inner.receiver@;
    let first: Option<Error> = match sel.resource {
        Some(r) => {
            let pa = opt_agent_view(r.inner.primary_accountable);
            if decrements(acct) && pa != Some(prov) {
                Some(ev_err(EventError::ResourceOwnerMismatch))
            } else if acct == Some(ResourceEffect::Increment) && pa != Some(recv) {
                Some(ev_err(EventError::ResourceOwnerMismatch))
            } else if prov == recv && pa != Some(prov) && sel.owner_must_match && ev.inner.action
                != vf::Action::Accept {
                Some(ev_err(EventError::ResourceOwnerMismatch))
            } else if decrements(onhand) && r.in_custody_of@ != prov {
                Some(ev_err(EventError::ResourceCustodyMismatch))
            } else if onhand == Some(ResourceEffect::Increment) && r.in_custody_of@ != recv {
                Some(ev_err(EventError::ResourceCustodyMismatch))
            } else if prov == recv && r.in_custody_of@ != prov {
                Some(ev_err(EventError::ResourceCustodyMismatch))
            } else {
                None
            }
        },
        None => None,
    };
    match first {
        Some(e) => Some(e),
        None => if sel.resource2_is_create {
            None
        } else {
            match sel.resource2 {
                Some(r2) => if opt_agent_view(r2.inner.primary_accountable) != Some(recv) {
                    Some(ev_err(EventError::ResourceOwnerMismatch))
                } else if r2.in_custody_of@ != recv {
                    Some(ev_err(EventError::ResourceCustodyMismatch))
                } else {
                    None
                },
                None => None,
            }
        },
    }
}

/// Moving `amount` of costs from `from` to `to`: what each holds after.
pub open spec fn spec_transfer(from: CostsView, to: CostsView, amount: CostsView) -> Result<
    (CostsView, CostsView),
    Error,
> {
    match spec_release(from, amount) {
        Err(e) => Err(e),
        Ok(f) => match spec_receive(to, amount) {
            Err(e) => Err(e),
            Ok(t) => Ok((f, t.1)),
        },
    }
}

/// The event's costs moved between the selected objects: from the first
/// process to the second, from the first resource to the second, or between
/// a resource and a process (into the process for inputs, out of it for
/// outputs).
pub open spec fn spec_move(ev: EventView, sel: SelectionView) -> Result<SelectionView, Error> {
    match (sel.process, sel.process2) {
        (Some(p1), Some(p2)) => match sel.move_costs {
            None => Err(ev_err(EventError::MissingCosts)),
            Some(c) => match spec_transfer(p1.costs, p2.costs, c) {
                Err(e) => Err(e),
                Ok(t) => Ok(
                    SelectionView {
                        process: Some(ProcessView { costs: t.0, ..p1 }),
                        process2: Some(ProcessView { costs: t.1, ..p2 }),
                        ..sel
                    },
                ),
            },
        },
        _ => match (sel.resource, sel.resource2) {
            (Some(r1), Some(r2)) => match sel.move_costs {
                None => Err(ev_err(EventError::MissingCosts)),
                Some(c) => match spec_transfer(r1.costs, r2.costs, c) {
                    Err(e) => Err(e),
                    Ok(t) => Ok(
                        SelectionView {
                            resource: Some(ResourceView { costs: t.0, ..r1 }),
                            resource2: Some(ResourceView { costs: t.1, ..r2 }),
                            ..sel
                        },
                    ),
                },
            },
            _ => match (sel.resource, sel.process) {
                (Some(r), Some(p)) => match sel.move_costs {
                    None => Err(ev_err(EventError::MissingCosts)),
                    Some(c) => match vf::spec_input_output(ev.inner.action) {
                        Some(InputOutput::Input) => match spec_transfer(r.costs, p.costs, c) {
                            Err(e) => Err(e),
                            Ok(t) => Ok(
                                SelectionView {
                                    resource: Some(ResourceView { costs: t.0, ..r }),
                                    process: Some(ProcessView { costs: t.1, ..p }),
                                    ..sel
                                },
                            ),
                        },
                        Some(InputOutput::Output) => match spec_transfer(p.costs, r.costs, c) {
                            Err(e) => Err(e),
                            Ok(t) => Ok(
                                SelectionView {
                                    process: Some(ProcessView { costs: t.0, ..p }),
                                    resource: Some(ResourceView { costs: t.1, ..r }),
                                    ..sel
                                },
                            ),
                        },
                        None => Err(ev_err(EventError::InvalidInputOutput)),
                    },
                },
                _ => Ok(sel),
            },
        },
    }
}

/// A resource's accounting (or, with `onhand`, onhand) quantity.
pub open spec fn quantity(r: ResourceView, onhand: bool) -> Option<Measure> {
    if onhand {
        r.inner.onhand_quantity
    } else {
        r.inner.accounting_quantity
    }
}

/// A resource with its accounting (or onhand) quantity set to `m`.
pub open spec fn with_quantity(r: ResourceView, onhand: bool, m: Measure) -> ResourceView {
    if onhand {
        ResourceView { inner: vf::EconomicResource { onhand_quantity: Some(m), ..r.inner }, ..r }
    } else {
        ResourceView { inner: vf::EconomicResource { accounting_quantity: Some(m), ..r.inner }, ..r }
    }
}

/// The primary resource's quantity after the effect: decremented (it cannot
/// reach zero in accounting while the resource still holds costs) or
/// incremented by the event's quantity.
pub open spec fn spec_adjust_primary(
    ev: EventView,
    eff: Option<ResourceEffect>,
    res: Option<ResourceView>,
    onhand: bool,
) -> Result<Option<ResourceView>, Error> {
    match (eff, res) {
        (Some(e), Some(r)) => match ev.inner.resource_quantity {
            None => Err(ev_err(EventError::MissingEventMeasure)),
            Some(em) => {
                let m = spec_unwrap_or_zero(quantity(r, onhand), em);
                if decrements(eff) {
                    match spec_dec_measure(m, em) {
                        Err(x) => Err(x),
                        Ok(m2) => if !onhand && m2.has_numerical_value.value() == 0 && r.costs.is_gt_0() {
                            Err(ev_err(EventError::ResourceCostQuantityMismatch))
                        } else {
                            Ok(Some(with_quantity(r, onhand, m2)))
                        },
                    }
                } else if e == ResourceEffect::Increment {
                    match spec_inc_measure(m, em) {
                        Err(x) => Err(x),
                        Ok(m2) => Ok(Some(with_quantity(r, onhand, m2))),
                    }
                } else {
                    Ok(res)
                }
            },
        },
        _ => Ok(res),
    }
}

/// The secondary resource's quantity after the effect: incremented by the
/// event's quantity for a decrement-increment.
pub open spec fn spec_adjust_secondary(
    ev: EventView,
    eff: Option<ResourceEffect>,
    res: Option<ResourceView>,
    onhand: bool,
) -> Result<Option<ResourceView>, Error> {
    match (eff, res) {
        (Some(e), Some(r)) => match ev.inner.resource_quantity {
            None => Err(ev_err(EventError::MissingEventMeasure)),
            Some(em) => if e == ResourceEffect::DecrementIncrement {
                match spec_inc_measure(spec_unwrap_or_zero(quantity(r, onhand), em), em) {
                    Err(x) => Err(x),
                    Ok(m2) => Ok(Some(with_quantity(r, onhand, m2))),
                }
            } else {
                Ok(res)
            },
        },
        _ => Ok(res),
    }
}

/// The selected resources' quantities after the action's effects: the
/// accounting quantities first, then the onhand ones.
pub open spec fn spec_quantities(ev: EventView, sel: SelectionView) -> Result<SelectionView, Error> {
    let acct = accounting_effect(ev.inner.action);
    let onhand = onhand_effect(ev.inner.action);
    match spec_adjust_primary(ev, acct, sel.resource, false) {
        Err(e) => Err(e),
        Ok(r1) => match spec_adjust_secondary(ev, acct, sel.resource2, false) {
            Err(e) => Err(e),
            Ok(r2) => match spec_adjust_primary(ev, onhand, r1, true) {
                Err(e) => Err(e),
                Ok(r1b) => match spec_adjust_secondary(ev, onhand, r2, true) {
                    Err(e) => Err(e),
                    Ok(r2b) => Ok(SelectionView { resource: r1b, resource2: r2b, ..sel }),
                },
            },
        },
    }
}

/// A resource, made the receiver's (with `owner`) and in the receiver's
/// custody (with `custody`).
pub open spec fn handed_over(r: ResourceView, owner: bool, custody: bool, recv: AgentID) -> ResourceView {
    let r1 = if owner {
        ResourceView {
            inner: vf::EconomicResource { primary_accountable: Some(recv), ..r.inner },
            ..r
        }
    } else {
        r
    };
    if custody {
        ResourceView { in_custody_of: recv, ..r1 }
    } else {
        r1
    }
}

/// A resource at a location.
pub open spec fn located(r: ResourceView, loc: String) -> ResourceView {
    ResourceView { inner: vf::EconomicResource { current_location: Some(loc), ..r.inner }, ..r }
}

/// The selected resources after ownership and custody change hands (an
/// increment gives the primary resource to the receiver, a
/// decrement-increment the secondary one), and after the event's location is
/// set on the secondary resource, or else on the primary one.
pub open spec fn spec_finish(ev: EventView, sel: SelectionView) -> SelectionView {
    let a = ev.inner.action;
    let recv = ev.inner.receiver;
    let r1 = match sel.resource {
        Some(r) => Some(
            handed_over(
                r,
                vf::spec_resource_effect(a) == ResourceEffect::Increment,
                vf::spec_onhand_effect(a) == ResourceEffect::Increment,
                recv,
            ),
        ),
        None => None,
    };
    let r2 = match sel.resource2 {
        Some(r) => Some(
            handed_over(
                r,
                vf::spec_resource_effect(a) == ResourceEffect::DecrementIncrement,
                vf::spec_onhand_effect(a) == ResourceEffect::DecrementIncrement,
                recv,
            ),
        ),
        None => None,
    };
    match ev.inner.at_location {
        Some(loc) => match r2 {
            Some(x) => SelectionView { resource: r1, resource2: Some(located(x, loc)), ..sel },
            None => match r1 {
                Some(x) => SelectionView { resource: Some(located(x, loc)), resource2: r2, ..sel },
                None => SelectionView { resource: r1, resource2: r2, ..sel },
            },
        },
        None => SelectionView { resource: r1, resource2: r2, ..sel },
    }
}

/// Whether a process changed: event processing only changes its costs.
pub open spec fn process_changed(a: Option<ProcessView>, b: Option<ProcessView>) -> bool {
    match (a, b) {
        (Some(x), Some(y)) => !x.costs.same(y.costs),
        _ => false,
    }
}

/// Whether a resource changed, in what event processing can change: its
/// costs, quantities, owner, custodian and location.
pub open spec fn resource_changed(a: Option<ResourceView>, b: Option<ResourceView>) -> bool {
    match (a, b) {
        (Some(x), Some(y)) => !(x.costs.same(y.costs) && opt_measure_same(
            opt_measure_view(x.inner.accounting_quantity),
            opt_measure_view(y.inner.accounting_quantity),
        ) && opt_measure_same(
            opt_measure_view(x.inner.onhand_quantity),
            opt_measure_view(y.inner.onhand_quantity),
        ) && opt_agent_view(x.inner.primary_accountable) == opt_agent_view(
            y.inner.primary_accountable,
        ) && x.in_custody_of@ == y.in_custody_of@ && opt_str_view(x.inner.current_location)
            == opt_str_view(y.inner.current_location)),
        _ => false,
    }
}

/// A process to update, stamped `now`.
pub open spec fn process_update(p: ProcessView, now: Timestamp) -> ModificationView {
    ModificationView { op: Op::Update, model: ModelView::Process(ProcessView { updated: now, ..p }) }
}

/// A resource to update, stamped `now`.
pub open spec fn resource_update(r: ResourceView, now: Timestamp) -> ModificationView {
    ModificationView {
        op: Op::Update,
        model: ModelView::Resource(ResourceView { updated: now, ..r }),
    }
}

/// A resource to create, stamped `now`.
pub open spec fn resource_create(r: ResourceView, now: Timestamp) -> ModificationView {
    ModificationView {
        op: Op::Create,
        model: ModelView::Resource(ResourceView { created: now, updated: now, ..r }),
    }
}

/// The modifications an event's processing results in: the process a work
/// event added costs to, then each selected object that changed, in order,
/// and a secondary resource to create where there is one.
pub open spec fn spec_mods(before: SelectionView, after: SelectionView, now: Timestamp) -> Seq<
    ModificationView,
> {
    let s0 = match after.worked {
        Some(w) => seq![process_update(w, now)],
        None => Seq::empty(),
    };
    let s1 = if process_changed(before.process, after.process) {
        s0.push(process_update(after.process->0, now))
    } else {
        s0
    };
    let s2 = if process_changed(before.process2, after.process2) {
        s1.push(process_update(after.process2->0, now))
    } else {
        s1
    };
    let s3 = if resource_changed(before.resource, after.resource) {
        s2.push(resource_update(after.resource->0, now))
    } else {
        s2
    };
    if after.resource2_is_create && after.resource2 is Some {
        s3.push(resource_create(after.resource2->0, now))
    } else if !after.resource2_is_create && resource_changed(before.resource2, after.resource2) {
        s3.push(resource_update(after.resource2->0, now))
    } else {
        s3
    }
}

/// What processing an event gives: the modifications to save, or the error.
pub open spec fn spec_process(ev: EventView, st: EventProcessStateView, now: Timestamp) -> Result<
    Seq<ModificationView>,
    Error,
> {
    match spec_check_ids(ev, st) {
        Some(e) => Err(e),
        None => if is_pending(ev) {
            Ok(Seq::empty())
        } else {
            match spec_select(ev, st) {
                Err(e) => Err(e),
                Ok(sel) => match spec_check_processes(ev, sel) {
                    Some(e) => Err(e),
                    None => match spec_check_resources(ev, sel) {
                        Some(e) => Err(e),
                        None => match spec_move(ev, sel) {
                            Err(e) => Err(e),
                            Ok(moved) => match spec_quantities(ev, moved) {
                                Err(e) => Err(e),
                                Ok(q) => Ok(spec_mods(sel, spec_finish(ev, q), now)),
                            },
                        },
                    },
                },
            }
        },
    }
}

/// The objects an event works on, once picked from the state.
#[derive(Debug)]
pub struct Selection {
    /// The primary process
    pub process: Option<Process>,
    /// The process costs move to from the primary one
    pub process2: Option<Process>,
    /// The primary resource
    pub resource: Option<Resource>,
    /// The secondary resource
    pub resource2: Option<Resource>,
    /// Whether the secondary resource is a new one
    pub resource2_is_create: bool,
    /// Whether a provider that is also the receiver must own the resource
    pub owner_must_match: bool,
    /// The costs to move
    pub move_costs: Option<Costs>,
    /// The process a work event added its costs to
    pub worked: Option<Process>,
}

impl View for Selection {
    type V = SelectionView;

    open spec fn view(&self) -> SelectionView {
        SelectionView {
            process: opt_process_view(self.process),
            process2: opt_process_view(self.process2),
            resource: opt_resource_view(self.resource),
            resource2: opt_resource_view(self.resource2),
            resource2_is_create: self.resource2_is_create,
            owner_must_match: self.owner_must_match,
            move_costs: opt_costs_view(self.move_costs),
            worked: opt_process_view(self.worked),
        }
    }
}

/// A copy of an optional process.
fn clone_opt_process(p: &Option<Process>) -> (r: Option<Process>)
    ensures
        opt_process_view(r) == opt_process_view(*p),
{
    match p {
        Some(x) => Some(x.clone()),
        None => None,
    }
}

/// A copy of an optional resource.
fn clone_opt_resource(p: &Option<Resource>) -> (r: Option<Resource>)
    ensures
        opt_resource_view(r) == opt_resource_view(*p),
{
    match p {
        Some(x) => Some(x.clone()),
        None => None,
    }
}

impl Clone for Selection {
    fn clone(&self) -> (r: Selection)
        ensures
            r@ == self@,
    {
        Selection {
            process: clone_opt_process(&self.process),
            process2: clone_opt_process(&self.process2),
            resource: clone_opt_resource(&self.resource),
            resource2: clone_opt_resource(&self.resource2),
            resource2_is_create: self.resource2_is_create,
            owner_must_match: self.owner_must_match,
            move_costs: clone_opt_costs(&self.move_costs),
            worked: clone_opt_process(&self.worked),
        }
    }
}

/// Whether an event's process reference names the given process.
fn names_process(id: &Option<ProcessID>, p: &Process) -> (r: bool)
    ensures
        r == is_named_process(*id, p@),
{
    match id {
        Some(i) => *i == p.id,
        None => false,
    }
}

/// Whether an event's resource reference names the given resource.
fn names_resource(id: &Option<ResourceID>, r: &Resource) -> (b: bool)
    ensures
        b == is_named_resource(*id, r@),
{
    match id {
        Some(i) => *i == r.id,
        None => false,
    }
}

/// The first problem with the objects handed to the event, or its dates.
fn check_ids(ev: &Event, st: &EventProcessState) -> (r: Option<Error>)
    ensures
        r == spec_check_ids(ev@, st@),
{
    if let Some(p) = &st.output_of {
        if !names_process(&ev.inner.output_of, p) {
            return Some(Error::Event(EventError::MismatchedOutputProcessID));
        }
    }
    if let Some(p) = &st.input_of {
        if !names_process(&ev.inner.input_of, p) {
            return Some(Error::Event(EventError::MismatchedInputProcessID));
        }
    }
    if let Some(r) = &st.resource {
        if !names_resource(&ev.inner.resource_inventoried_as, r) {
            return Some(Error::Event(EventError::MismatchedResourceID));
        }
    }
    if let Some(r) = &st.to_resource {
        if !names_resource(&ev.inner.to_resource_inventoried_as, r) {
            return Some(Error::Event(EventError::MismatchedResourceToID));
        }
    }
    if let Some(m) = &st.provider {
        if ev.inner.provider != AgentID::MemberID(m.id.clone()) {
            return Some(Error::Event(EventError::MismatchedProviderID));
        }
    }
    match (&ev.inner.has_beginning, &ev.inner.has_end) {
        (None, Some(_)) => Some(Error::Event(EventError::DateEndMustHaveBegin)),
        (Some(b), Some(e)) => if e.before(b) {
            Some(Error::Event(EventError::DateEndBeforeBegin))
        } else {
            None
        },
        _ => None,
    }
}

/// An effect, where it is one.
fn effect_of(e: ResourceEffect) -> (r: Option<ResourceEffect>)
    ensures
        r == some_effect(e),
{
    if e == ResourceEffect::NoEffect {
        None
    } else {
        Some(e)
    }
}

/// The event's costs to move.
fn event_costs(ev: &Event) -> (r: Result<Costs, Error>)
    ensures
        match need_costs(ev@) {
            Ok(c) => r matches Ok(x) && x@ == c,
            Err(e) => r == Err::<Costs, Error>(e),
        },
{
    match &ev.move_costs {
        Some(c) => Ok(c.clone()),
        None => Err(Error::Event(EventError::MissingCosts)),
    }
}

/// The resources the action's effects call for.
fn default_resources(ev: &Event, resource: Option<Resource>, to_resource: Option<Resource>) -> (r:
    Result<(Option<Resource>, Option<Resource>, bool), Error>)
    ensures
        ({
            let st = EventProcessStateView {
                input_of: None,
                output_of: None,
                provider: None,
                resource: opt_resource_view(resource),
                to_resource: opt_resource_view(to_resource),
            };
            match spec_default_resources(ev@, st) {
                Ok(x) => r matches Ok(y) && opt_resource_view(y.0) == x.0 && opt_resource_view(y.1)
                    == x.1 && y.2 == x.2,
                Err(e) => r == Err::<(Option<Resource>, Option<Resource>, bool), Error>(e),
            }
        }),
{
    let a = ev.inner.action;
    let acct = effect_of(a.resource_effect());
    let bundle = match acct {
        Some(e) => Some(e),
        None => effect_of(a.onhand_effect()),
    };
    let r1 = if bundle.is_some() {
        match resource {
            Some(r) => Some(r),
            None => {
                return Err(Error::Event(EventError::MissingResource));
            },
        }
    } else {
        None
    };
    if bundle == Some(ResourceEffect::DecrementIncrement) {
        match to_resource {
            Some(r2) => Ok((r1, Some(r2), false)),
            None => match (&r1, &ev.inner.to_resource_inventoried_as) {
                (Some(p), Some(id)) => {
                    let mut copy = p.clone();
                    copy.id = id.clone();
                    copy.costs = Costs::new();
                    copy.zero_measures();
                    Ok((r1, Some(copy), true))
                },
                _ => Err(Error::Event(EventError::MissingResourceTo)),
            },
        }
    } else {
        Ok((r1, None, false))
    }
}

/// The costs the event moves, where the action moves any.
fn default_move_costs(ev: &Event) -> (r: Result<Option<Costs>, Error>)
    ensures
        match spec_default_move_costs(ev@) {
            Ok(c) => r matches Ok(x) && opt_costs_view(x) == c,
            Err(e) => r == Err::<Option<Costs>, Error>(e),
        },
{
    let a = ev.inner.action;
    let acct = effect_of(a.resource_effect());
    let bundle = match acct {
        Some(e) => Some(e),
        None => effect_of(a.onhand_effect()),
    };
    if a.input_output().is_some() || bundle == Some(ResourceEffect::DecrementIncrement) {
        match event_costs(ev) {
            Ok(c) => Ok(Some(c)),
            Err(e) => Err(e),
        }
    } else {
        Ok(None)
    }
}

/// The process after a work event: it receives the wages of the worker's
/// occupation (taken from the event's costs) and the hours worked.
fn do_work(ev: &Event, provider: &Option<Member>, p: &Process) -> (r: Result<Process, Error>)
    requires
        !work_amounts_negative(ev@, opt_member_view(*provider)),
    ensures
        match spec_work(ev@, opt_member_view(*provider), p@) {
            Ok(w) => r matches Ok(x) && x@ == w,
            Err(e) => r == Err::<Process, Error>(e),
        },
{
    let member = match provider {
        Some(m) => m,
        None => {
            return Err(Error::Event(EventError::MissingProvider));
        },
    };
    let occupation_id = match member.occupation_id() {
        Some(o) => o,
        None => {
            return Err(Error::MemberMustBeWorker);
        },
    };
    let move_costs = match event_costs(ev) {
        Ok(c) => c,
        Err(e) => {
            return Err(e);
        },
    };
    let occupation_costs = move_costs.get_labor(occupation_id);
    let hours = match &ev.inner.effort_quantity {
        None => {
            return Err(Error::Event(EventError::MissingEffortQuantity));
        },
        Some(m) => if m.has_unit.is_hour() {
            m.has_numerical_value
        } else {
            return Err(Error::Event(EventError::LaborMustBeHours));
        },
    };
    let mut costs = Costs::new();
    match costs.track_labor(occupation_id, occupation_costs) {
        Ok(()) => {},
        Err(e) => {
            return Err(e);
        },
    }
    match costs.track_labor_hours(occupation_id, hours) {
        Ok(()) => {},
        Err(e) => {
            return Err(e);
        },
    }
    let mut input_process = p.clone();
    match receive_costs(&mut input_process.costs, &costs) {
        Ok(_) => Ok(input_process),
        Err(e) => Err(e),
    }
}

/// The objects the event works on.
fn select(ev: &Event, state: EventProcessState) -> (r: Result<Selection, Error>)
    requires
        !(ev.inner.action == vf::Action::Work && spec_primary_process(ev@, state@) is Ok
            && work_amounts_negative(ev@, state@.provider)),
    ensures
        match spec_select(ev@, state@) {
            Ok(s) => r matches Ok(x) && x@ == s,
            Err(e) => r == Err::<Selection, Error>(e),
        },
{
    let ghost st = state@;
    let EventProcessState { input_of, output_of, provider, resource, to_resource } = state;
    let mut input_of = input_of;
    let mut output_of = output_of;
    let a = ev.inner.action;
    let process = match a.input_output() {
        Some(InputOutput::Input) => match input_of.take() {
            None => {
                return Err(Error::Event(EventError::MissingInputProcess));
            },
            Some(p) => {
                if ev.inner.receiver != AgentID::CompanyID(p.company_id.clone()) {
                    return Err(Error::Event(EventError::ProcessOwnerMismatch));
                }
                Some(p)
            },
        },
        Some(InputOutput::Output) => match output_of.take() {
            None => {
                return Err(Error::Event(EventError::MissingOutputProcess));
            },
            Some(p) => {
                if ev.inner.provider != AgentID::CompanyID(p.company_id.clone()) {
                    return Err(Error::Event(EventError::ProcessOwnerMismatch));
                }
                Some(p)
            },
        },
        None => None,
    };
    assert(spec_primary_process(ev@, st) == Ok::<Option<ProcessView>, Error>(
        opt_process_view(process),
    ));
    let base = Selection {
        process,
        process2: None,
        resource: None,
        resource2: None,
        resource2_is_create: false,
        owner_must_match: true,
        move_costs: None,
        worked: None,
    };
    match a {
        vf::Action::Cite | vf::Action::Use | vf::Action::Dropoff | vf::Action::Pickup => {
            let c = match event_costs(ev) {
                Ok(c) => c,
                Err(e) => {
                    return Err(e);
                },
            };
            match resource {
                None => Err(Error::Event(EventError::MissingResource)),
                Some(r) => Ok(
                    Selection {
                        move_costs: Some(c),
                        resource: Some(r),
                        owner_must_match: !(a == vf::Action::Dropoff || a == vf::Action::Pickup),
                        ..base
                    },
                ),
            }
        },
        vf::Action::DeliverService => {
            let c = match event_costs(ev) {
                Ok(c) => c,
                Err(e) => {
                    return Err(e);
                },
            };
            match input_of {
                None => Err(Error::Event(EventError::MissingInputProcess)),
                Some(p2) => Ok(Selection { move_costs: Some(c), process2: Some(p2), ..base }),
            }
        },
        vf::Action::Move => {
            let c = match event_costs(ev) {
                Ok(c) => c,
                Err(e) => {
                    return Err(e);
                },
            };
            match ev.move_type {
                Some(MoveType::ProcessCosts) => match output_of {
                    None => Err(Error::Event(EventError::MissingOutputProcess)),
                    Some(p) => match input_of {
                        None => Err(Error::Event(EventError::MissingInputProcess)),
                        Some(p2) => Ok(
                            Selection {
                                move_costs: Some(c),
                                process: Some(p),
                                process2: Some(p2),
                                ..base
                            },
                        ),
                    },
                },
                Some(MoveType::Resource) => match default_resources(ev, resource, to_resource) {
                    Err(e) => Err(e),
                    Ok((r1, r2, create)) => Ok(
                        Selection {
                            move_costs: Some(c),
                            resource: r1,
                            resource2: r2,
                            resource2_is_create: create,
                            ..base
                        },
                    ),
                },
                None => Err(Error::Event(EventError::MissingMoveType)),
            }
        },
        vf::Action::Work => {
            match &base.process {
                Some(p) => match do_work(ev, &provider, p) {
                    Err(e) => Err(e),
                    Ok(w) => Ok(Selection { worked: Some(w), ..base }),
                },
                None => Ok(base),
            }
        },
        _ => match default_resources(ev, resource, to_resource) {
            Err(e) => Err(e),
            Ok((r1, r2, create)) => match default_move_costs(ev) {
                Err(e) => Err(e),
                Ok(c) => Ok(
                    Selection {
                        resource: r1,
                        resource2: r2,
                        resource2_is_create: create,
                        move_costs: c,
                        ..base
                    },
                ),
            },
        },
    }
}

/// The first problem with who owns the selected processes.
fn check_processes(ev: &Event, sel: &Selection) -> (r: Option<Error>)
    ensures
        r == spec_check_processes(ev@, sel@),
{
    let io = ev.inner.action.input_output();
    match (&sel.process, &sel.process2) {
        (Some(p1), Some(p2)) => if ev.inner.provider != AgentID::CompanyID(p1.company_id.clone()) {
            Some(Error::Event(EventError::ProcessOwnerMismatch))
        } else if ev.inner.receiver != AgentID::CompanyID(p2.company_id.clone()) {
            Some(Error::Event(EventError::ProcessOwnerMismatch))
        } else if p2.is_deleted() {
            Some(Error::Event(EventError::InputOnDeletedProcess))
        } else {
            None
        },
        (Some(p), None) => if io == Some(InputOutput::Output) && ev.inner.provider != AgentID::CompanyID(
            p.company_id.clone(),
        ) {
            Some(Error::Event(EventError::ProcessOwnerMismatch))
        } else if io == Some(InputOutput::Input) && ev.inner.receiver != AgentID::CompanyID(
            p.company_id.clone(),
        ) {
            Some(Error::Event(EventError::ProcessOwnerMismatch))
        } else if io == Some(InputOutput::Input) && p.is_deleted() {
            Some(Error::Event(EventError::InputOnDeletedProcess))
        } else {
            None
        },
        _ => None,
    }
}

/// Whether an optional agent id is the given agent.
fn is_agent(a: &Option<AgentID>, b: &AgentID) -> (r: bool)
    ensures
        r == (opt_agent_view(*a) == Some(b@)),
{
    match a {
        Some(x) => *x == *b,
        None => false,
    }
}

/// The first problem with who owns and holds the selected resources.
fn check_resources(ev: &Event, sel: &Selection) -> (r: Option<Error>)
    ensures
        r == spec_check_resources(ev@, sel@),
{
    let a = ev.inner.action;
    let acct = effect_of(a.resource_effect());
    let onhand = effect_of(a.onhand_effect());
    let prov = &ev.inner.provider;
    let recv = &ev.inner.receiver;
    let same_agent = *prov == *recv;
    if let Some(r) = &sel.resource {
        let pa = &r.inner.primary_accountable;
        let acct_dec = acct == Some(ResourceEffect::Decrement) || acct == Some(
            ResourceEffect::DecrementIncrement,
        );
        let onhand_dec = onhand == Some(ResourceEffect::Decrement) || onhand == Some(
            ResourceEffect::DecrementIncrement,
        );
        if acct_dec && !is_agent(pa, prov) {
            return Some(Error::Event(EventError::ResourceOwnerMismatch));
        }
        if acct == Some(ResourceEffect::Increment) && !is_agent(pa, recv) {
            return Some(Error::Event(EventError::ResourceOwnerMismatch));
        }
        if same_agent && !is_agent(pa, prov) && sel.owner_must_match && a != vf::Action::Accept {
            return Some(Error::Event(EventError::ResourceOwnerMismatch));
        }
        if onhand_dec && r.in_custody_of != *prov {
            return Some(Error::Event(EventError::ResourceCustodyMismatch));
        }
        if onhand == Some(ResourceEffect::Increment) && r.in_custody_of != *recv {
            return Some(Error::Event(EventError::ResourceCustodyMismatch));
        }
        if same_agent && r.in_custody_of != *prov {
            return Some(Error::Event(EventError::ResourceCustodyMismatch));
        }
    }
    if !sel.resource2_is_create {
        if let Some(r2) = &sel.resource2 {
            if !is_agent(&r2.inner.primary_accountable, recv) {
                return Some(Error::Event(EventError::ResourceOwnerMismatch));
            }
            if r2.in_custody_of != *recv {
                return Some(Error::Event(EventError::ResourceCustodyMismatch));
            }
        }
    }
    None
}

/// Move the event's costs between the selected objects.
fn move_selected(ev: &Event, sel: Selection) -> (r: Result<Selection, Error>)
    ensures
        match spec_move(ev@, sel@) {
            Ok(s) => r matches Ok(x) && x@ == s,
            Err(e) => r == Err::<Selection, Error>(e),
        },
{
    let Selection {
        process,
        process2,
        resource,
        resource2,
        resource2_is_create,
        owner_must_match,
        move_costs,
        worked,
    } = sel;
    match (process, process2) {
        (Some(mut p1), Some(mut p2)) => {
            let c = match move_costs {
                Some(c) => c,
                None => {
                    return Err(Error::Event(EventError::MissingCosts));
                },
            };
            match crate::costs::move_costs(&mut p1.costs, &mut p2.costs, &c) {
                Ok(_) => Ok(
                    Selection {
                        process: Some(p1),
                        process2: Some(p2),
                        resource,
                        resource2,
                        resource2_is_create,
                        owner_must_match,
                        move_costs: Some(c),
                        worked,
                    },
                ),
                Err(e) => Err(e),
            }
        },
        (process, process2) => match (resource, resource2) {
            (Some(mut r1), Some(mut r2)) => {
                let c = match move_costs {
                    Some(c) => c,
                    None => {
                        return Err(Error::Event(EventError::MissingCosts));
                    },
                };
                match crate::costs::move_costs(&mut r1.costs, &mut r2.costs, &c) {
                    Ok(_) => Ok(
                        Selection {
                            process,
                            process2,
                            resource: Some(r1),
                            resource2: Some(r2),
                            resource2_is_create,
                            owner_must_match,
                            move_costs: Some(c),
                            worked,
                        },
                    ),
                    Err(e) => Err(e),
                }
            },
            (resource, resource2) => match (resource, process) {
                (Some(mut r), Some(mut p)) => {
                    let c = match move_costs {
                        Some(c) => c,
                        None => {
                            return Err(Error::Event(EventError::MissingCosts));
                        },
                    };
                    let moved = match ev.inner.action.input_output() {
                        Some(InputOutput::Input) => crate::costs::move_costs(
                            &mut r.costs,
                            &mut p.costs,
                            &c,
                        ),
                        Some(InputOutput::Output) => crate::costs::move_costs(
                            &mut p.costs,
                            &mut r.costs,
                            &c,
                        ),
                        None => {
                            return Err(Error::Event(EventError::InvalidInputOutput));
                        },
                    };
                    match moved {
                        Ok(_) => Ok(
                            Selection {
                                process: Some(p),
                                process2,
                                resource: Some(r),
                                resource2,
                                resource2_is_create,
                                owner_must_match,
                                move_costs: Some(c),
                                worked,
                            },
                        ),
                        Err(e) => Err(e),
                    }
                },
                (resource, process) => Ok(
                    Selection {
                        process,
                        process2,
                        resource,
                        resource2,
                        resource2_is_create,
                        owner_must_match,
                        move_costs,
                        worked,
                    },
                ),
            },
        },
    }
}

/// Set a resource's accounting (or onhand) quantity.
fn set_quantity(r: &mut Resource, onhand: bool, m: Measure)
    ensures
        final(r)@ == with_quantity(old(r)@, onhand, m),
{
    if onhand {
        r.inner.onhand_quantity = Some(m);
    } else {
        r.inner.accounting_quantity = Some(m);
    }
}

/// The primary resource's quantity after the effect.
fn adjust_primary(ev: &Event, eff: Option<ResourceEffect>, res: Option<Resource>, onhand: bool) -> (r:
    Result<Option<Resource>, Error>)
    ensures
        match spec_adjust_primary(ev@, eff, opt_resource_view(res), onhand) {
            Ok(x) => r matches Ok(y) && opt_resource_view(y) == x,
            Err(e) => r == Err::<Option<Resource>, Error>(e),
        },
{
    match (eff, res) {
        (Some(e), Some(mut r)) => {
            let em = match &ev.inner.resource_quantity {
                Some(m) => m,
                None => {
                    return Err(Error::Event(EventError::MissingEventMeasure));
                },
            };
            let mut m = if onhand {
                unwrap_or_zero(&r.inner.onhand_quantity, em)
            } else {
                unwrap_or_zero(&r.inner.accounting_quantity, em)
            };
            if e == ResourceEffect::Decrement || e == ResourceEffect::DecrementIncrement {
                match dec_measure(&mut m, em) {
                    Ok(()) => {},
                    Err(x) => {
                        return Err(x);
                    },
                }
                if !onhand && m.has_numerical_value.is_zero() && r.costs.is_gt_0() {
                    return Err(Error::Event(EventError::ResourceCostQuantityMismatch));
                }
                set_quantity(&mut r, onhand, m);
                Ok(Some(r))
            } else if e == ResourceEffect::Increment {
                match inc_measure(&mut m, em) {
                    Ok(()) => {},
                    Err(x) => {
                        return Err(x);
                    },
                }
                set_quantity(&mut r, onhand, m);
                Ok(Some(r))
            } else {
                Ok(Some(r))
            }
        },
        (_, res) => Ok(res),
    }
}

/// The secondary resource's quantity after the effect.
fn adjust_secondary(ev: &Event, eff: Option<ResourceEffect>, res: Option<Resource>, onhand: bool) -> (r:
    Result<Option<Resource>, Error>)
    ensures
        match spec_adjust_secondary(ev@, eff, opt_resource_view(res), onhand) {
            Ok(x) => r matches Ok(y) && opt_resource_view(y) == x,
            Err(e) => r == Err::<Option<Resource>, Error>(e),
        },
{
    match (eff, res) {
        (Some(e), Some(mut r)) => {
            let em = match &ev.inner.resource_quantity {
                Some(m) => m,
                None => {
                    return Err(Error::Event(EventError::MissingEventMeasure));
                },
            };
            if e == ResourceEffect::DecrementIncrement {
                let mut m = if onhand {
                    unwrap_or_zero(&r.inner.onhand_quantity, em)
                } else {
                    unwrap_or_zero(&r.inner.accounting_quantity, em)
                };
                match inc_measure(&mut m, em) {
                    Ok(()) => {},
                    Err(x) => {
                        return Err(x);
                    },
                }
                set_quantity(&mut r, onhand, m);
            }
            Ok(Some(r))
        },
        (_, res) => Ok(res),
    }
}

/// The selected resources' quantities after the action's effects.
fn adjust_quantities(ev: &Event, sel: Selection) -> (r: Result<Selection, Error>)
    ensures
        match spec_quantities(ev@, sel@) {
            Ok(s) => r matches Ok(x) && x@ == s,
            Err(e) => r == Err::<Selection, Error>(e),
        },
{
    let a = ev.inner.action;
    let acct = effect_of(a.resource_effect());
    let onhand = effect_of(a.onhand_effect());
    let Selection {
        process,
        process2,
        resource,
        resource2,
        resource2_is_create,
        owner_must_match,
        move_costs,
        worked,
    } = sel;
    let r1 = match adjust_primary(ev, acct, resource, false) {
        Ok(r) => r,
        Err(e) => {
            return Err(e);
        },
    };
    let r2 = match adjust_secondary(ev, acct, resource2, false) {
        Ok(r) => r,
        Err(e) => {
            return Err(e);
        },
    };
    let r1 = match adjust_primary(ev, onhand, r1, true) {
        Ok(r) => r,
        Err(e) => {
            return Err(e);
        },
    };
    let r2 = match adjust_secondary(ev, onhand, r2, true) {
        Ok(r) => r,
        Err(e) => {
            return Err(e);
        },
    };
    Ok(
        Selection {
            process,
            process2,
            resource: r1,
            resource2: r2,
            resource2_is_create,
            owner_must_match,
            move_costs,
            worked,
        },
    )
}

/// Hand a resource over to the receiver: ownership (with `owner`) and
/// custody (with `custody`).
fn hand_over(r: &mut Resource, owner: bool, custody: bool, recv: &AgentID)
    ensures
        final(r)@ == handed_over(old(r)@, owner, custody, *recv),
{
    if owner {
        r.inner.primary_accountable = Some(recv.clone());
    }
    if custody {
        r.in_custody_of = recv.clone();
    }
}

/// Ownership, custody and location changes.
fn finish(ev: &Event, sel: Selection) -> (r: Selection)
    ensures
        r@ == spec_finish(ev@, sel@),
{
    let a = ev.inner.action;
    let recv = &ev.inner.receiver;
    let mut sel = sel;
    if let Some(r) = &mut sel.resource {
        hand_over(
            r,
            a.resource_effect() == ResourceEffect::Increment,
            a.onhand_effect() == ResourceEffect::Increment,
            recv,
        );
    }
    if let Some(r) = &mut sel.resource2 {
        hand_over(
            r,
            a.resource_effect() == ResourceEffect::DecrementIncrement,
            a.onhand_effect() == ResourceEffect::DecrementIncrement,
            recv,
        );
    }
    if let Some(loc) = &ev.inner.at_location {
        if let Some(r) = &mut sel.resource2 {
            r.inner.current_location = Some(loc.clone());
        } else if let Some(r) = &mut sel.resource {
            r.inner.current_location = Some(loc.clone());
        }
    }
    sel
}

/// Whether two optional strings are the same.
fn opt_str_eq(a: &Option<String>, b: &Option<String>) -> (r: bool)
    ensures
        r == (opt_str_view(*a) == opt_str_view(*b)),
{
    match (a, b) {
        (None, None) => true,
        (Some(x), Some(y)) => x.eq(y),
        _ => false,
    }
}

/// Whether a process changed (in its costs).
fn process_is_changed(a: &Option<Process>, b: &Option<Process>) -> (r: bool)
    ensures
        r == process_changed(opt_process_view(*a), opt_process_view(*b)),
{
    match (a, b) {
        (Some(x), Some(y)) => !x.costs.same_as(&y.costs),
        _ => false,
    }
}

/// Whether a resource changed, in what event processing can change.
fn resource_is_changed(a: &Option<Resource>, b: &Option<Resource>) -> (r: bool)
    ensures
        r == resource_changed(opt_resource_view(*a), opt_resource_view(*b)),
{
    match (a, b) {
        (Some(x), Some(y)) => !(x.costs.same_as(&y.costs) && opt_measure_same_as(
            &x.inner.accounting_quantity,
            &y.inner.accounting_quantity,
        ) && opt_measure_same_as(&x.inner.onhand_quantity, &y.inner.onhand_quantity)
            && opt_agent_eq(&x.inner.primary_accountable, &y.inner.primary_accountable)
            && x.in_custody_of == y.in_custody_of && opt_str_eq(
            &x.inner.current_location,
            &y.inner.current_location,
        )),
        _ => false,
    }
}

/// Save what changed to the result.
fn collect(res: &mut EventProcessResult, before: &Selection, after: Selection)
    ensures
        final(res).modifications@ == old(res).modifications@ + spec_mods(
            before@,
            after@,
            old(res).process_time,
        ),
        final(res).process_time == old(res).process_time,
{
    let ghost start = res.modifications@;
    let ghost now = res.process_time;
    let ghost b = before@;
    let ghost aft = after@;
    let changed1 = process_is_changed(&before.process, &after.process);
    let changed2 = process_is_changed(&before.process2, &after.process2);
    let changed3 = resource_is_changed(&before.resource, &after.resource);
    let changed4 = resource_is_changed(&before.resource2, &after.resource2);
    let Selection { process, process2, resource, resource2, resource2_is_create, worked, .. } =
        after;
    if let Some(w) = worked {
        res.modify_process(w);
    }
    assert(res.modifications@ =~= start + match aft.worked {
        Some(w) => seq![process_update(w, now)],
        None => Seq::<ModificationView>::empty(),
    });
    if changed1 {
        if let Some(p) = process {
            res.modify_process(p);
        }
    }
    if changed2 {
        if let Some(p) = process2 {
            res.modify_process(p);
        }
    }
    if changed3 {
        if let Some(r) = resource {
            res.modify_resource(r);
        }
    }
    if resource2_is_create {
        if let Some(r) = resource2 {
            res.create_resource(r);
        }
    } else if changed4 {
        if let Some(r) = resource2 {
            res.modify_resource(r);
        }
    }
    assert(res.modifications@ =~= start + spec_mods(b, aft, now));
}

impl Event {
    /// Our event processor: it moves costs between the processes and
    /// resources the event operates on, adjusts the resources' quantities,
    /// owner, custodian and location, and returns the processes and resources
    /// to update (or create) as a result.
    ///
    /// This *assumes the event is legitimate*: whether the event should exist
    /// is decided when it is created.
    pub fn process(&self, state: EventProcessState, now: &Timestamp) -> (r: Result<
        Modifications,
        Error,
    >)
        requires
            !work_panics(self@, state@),
        ensures
            match spec_process(self@, state@, *now) {
                Ok(m) => r matches Ok(x) && x@ == m,
                Err(e) => r == Err::<Modifications, Error>(e),
            },
    {
        match check_ids(self, &state) {
            Some(e) => {
                return Err(e);
            },
            None => {},
        }
        let mut res = EventProcessResult::new(&self.id, now);
        if self.inner.has_beginning.is_some() && self.inner.has_end.is_none() {
            return Ok(res.into_modifications());
        }
        let sel = match select(self, state) {
            Ok(s) => s,
            Err(e) => {
                return Err(e);
            },
        };
        match check_processes(self, &sel) {
            Some(e) => {
                return Err(e);
            },
            None => {},
        }
        match check_resources(self, &sel) {
            Some(e) => {
                return Err(e);
            },
            None => {},
        }
        let before = sel.clone();
        let moved = match move_selected(self, sel) {
            Ok(s) => s,
            Err(e) => {
                return Err(e);
            },
        };
        let adjusted = match adjust_quantities(self, moved) {
            Ok(s) => s,
            Err(e) => {
                return Err(e);
            },
        };
        let after = finish(self, adjusted);
        collect(&mut res, &before, after);
        proof {
            assert(res.modifications@ =~= spec_mods(before@, after@, *now));
        }
        Ok(res.into_modifications())
    }
}

} // verus!
