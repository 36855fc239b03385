//! The ValueFlows vocabulary the models are built on: the actions events
//! perform, with the effect each has on resources, and the records (agents,
//! processes, resources, events, ...) that the Basis models extend.
//!
//! The action table follows the ValueFlows definitions: for each action, its
//! effect on a resource's accounting quantity, on its onhand quantity, and
//! whether it is an input to or an output of a process.

use crate::measure::{Measure, Unit};
use crate::models::ids::{AgreementID, EventID, ProcessID, ProcessSpecID, ResourceID, ResourceSpecID};
use crate::models::lib::basis_model::clone_agent_vec;
use crate::models::lib::agent::{clone_opt_agent, AgentID};
use crate::time::Timestamp;
use vstd::prelude::*;

verus! {

/// What an event does.
#[derive(Clone, Copy, Debug, PartialEq, Eq, Structural)]
pub enum Action {
    Accept,
    Cite,
    Consume,
    DeliverService,
    Dropoff,
    Lower,
    Modify,
    Move,
    Pickup,
    Produce,
    Raise,
    Transfer,
    TransferAllRights,
    TransferCustody,
    Use,
    Work,
}

/// An action's effect on a resource quantity.
#[derive(Clone, Copy, Debug, PartialEq, Eq, Structural)]
pub enum ResourceEffect {
    Decrement,
    DecrementIncrement,
    Increment,
    NoEffect,
}

/// Whether an action is an input to or an output of a process.
#[derive(Clone, Copy, Debug, PartialEq, Eq, Structural)]
pub enum InputOutput {
    Input,
    Output,
}

/// The effect of each action on a resource's accounting quantity.
pub open spec fn spec_resource_effect(a: Action) -> ResourceEffect {
    match a {
        Action::Accept => ResourceEffect::NoEffect,
        Action::Cite => ResourceEffect::NoEffect,
        Action::Consume => ResourceEffect::Decrement,
        Action::DeliverService => ResourceEffect::NoEffect,
        Action::Dropoff => ResourceEffect::NoEffect,
        Action::Lower => ResourceEffect::Decrement,
        Action::Modify => ResourceEffect::NoEffect,
        Action::Move => ResourceEffect::DecrementIncrement,
        Action::Pickup => ResourceEffect::NoEffect,
        Action::Produce => ResourceEffect::Increment,
        Action::Raise => ResourceEffect::Increment,
        Action::Transfer => ResourceEffect::DecrementIncrement,
        Action::TransferAllRights => ResourceEffect::DecrementIncrement,
        Action::TransferCustody => ResourceEffect::NoEffect,
        Action::Use => ResourceEffect::NoEffect,
        Action::Work => ResourceEffect::NoEffect,
    }
}

/// The effect of each action on a resource's onhand quantity.
pub open spec fn spec_onhand_effect(a: Action) -> ResourceEffect {
    match a {
        Action::Accept => ResourceEffect::Decrement,
        Action::Cite => ResourceEffect::NoEffect,
        Action::Consume => ResourceEffect::Decrement,
        Action::DeliverService => ResourceEffect::NoEffect,
        Action::Dropoff => ResourceEffect::NoEffect,
        Action::Lower => ResourceEffect::Decrement,
        Action::Modify => ResourceEffect::Increment,
        Action::Move => ResourceEffect::DecrementIncrement,
        Action::Pickup => ResourceEffect::NoEffect,
        Action::Produce => ResourceEffect::Increment,
        Action::Raise => ResourceEffect::Increment,
        Action::Transfer => ResourceEffect::DecrementIncrement,
        Action::TransferAllRights => ResourceEffect::NoEffect,
        Action::TransferCustody => ResourceEffect::DecrementIncrement,
        Action::Use => ResourceEffect::NoEffect,
        Action::Work => ResourceEffect::NoEffect,
    }
}

/// Whether each action is an input to or an output of a process (or
/// neither).
pub open spec fn spec_input_output(a: Action) -> Option<InputOutput> {
    match a {
        Action::Accept => Some(InputOutput::Input),
        Action::Cite => Some(InputOutput::Input),
        Action::Consume => Some(InputOutput::Input),
        Action::DeliverService => Some(InputOutput::Output),
        Action::Dropoff => Some(InputOutput::Output),
        Action::Lower => None,
        Action::Modify => Some(InputOutput::Output),
        Action::Move => None,
        Action::Pickup => Some(InputOutput::Input),
        Action::Produce => Some(InputOutput::Output),
        Action::Raise => None,
        Action::Transfer => None,
        Action::TransferAllRights => None,
        Action::TransferCustody => None,
        Action::Use => Some(InputOutput::Input),
        Action::Work => Some(InputOutput::Input),
    }
}

impl Action {
    /// The action's effect on a resource's accounting quantity.
    pub fn resource_effect(&self) -> (r: ResourceEffect)
        ensures
            r == spec_resource_effect(*self),
    {
        match self {
            Action::Accept => ResourceEffect::NoEffect,
            Action::Cite => ResourceEffect::NoEffect,
            Action::Consume => ResourceEffect::Decrement,
            Action::DeliverService => ResourceEffect::NoEffect,
            Action::Dropoff => ResourceEffect::NoEffect,
            Action::Lower => ResourceEffect::Decrement,
            Action::Modify => ResourceEffect::NoEffect,
            Action::Move => ResourceEffect::DecrementIncrement,
            Action::Pickup => ResourceEffect::NoEffect,
            Action::Produce => ResourceEffect::Increment,
            Action::Raise => ResourceEffect::Increment,
            Action::Transfer => ResourceEffect::DecrementIncrement,
            Action::TransferAllRights => ResourceEffect::DecrementIncrement,
            Action::TransferCustody => ResourceEffect::NoEffect,
            Action::Use => ResourceEffect::NoEffect,
            Action::Work => ResourceEffect::NoEffect,
        }
    }

    /// The action's effect on a resource's onhand quantity.
    pub fn onhand_effect(&self) -> (r: ResourceEffect)
        ensures
            r == spec_onhand_effect(*self),
    {
        match self {
            Action::Accept => ResourceEffect::Decrement,
            Action::Cite => ResourceEffect::NoEffect,
            Action::Consume => ResourceEffect::Decrement,
            Action::DeliverService => ResourceEffect::NoEffect,
            Action::Dropoff => ResourceEffect::NoEffect,
            Action::Lower => ResourceEffect::Decrement,
            Action::Modify => ResourceEffect::Increment,
            Action::Move => ResourceEffect::DecrementIncrement,
            Action::Pickup => ResourceEffect::NoEffect,
            Action::Produce => ResourceEffect::Increment,
            Action::Raise => ResourceEffect::Increment,
            Action::Transfer => ResourceEffect::DecrementIncrement,
            Action::TransferAllRights => ResourceEffect::NoEffect,
            Action::TransferCustody => ResourceEffect::DecrementIncrement,
            Action::Use => ResourceEffect::NoEffect,
            Action::Work => ResourceEffect::NoEffect,
        }
    }

    /// Whether the action is an input to or an output of a process.
    pub fn input_output(&self) -> (r: Option<InputOutput>)
        ensures
            r == spec_input_output(*self),
    {
        match self {
            Action::Accept => Some(InputOutput::Input),
            Action::Cite => Some(InputOutput::Input),
            Action::Consume => Some(InputOutput::Input),
            Action::DeliverService => Some(InputOutput::Output),
            Action::Dropoff => Some(InputOutput::Output),
            Action::Lower => None,
            Action::Modify => Some(InputOutput::Output),
            Action::Move => None,
            Action::Pickup => Some(InputOutput::Input),
            Action::Produce => Some(InputOutput::Output),
            Action::Raise => None,
            Action::Transfer => None,
            Action::TransferAllRights => None,
            Action::TransferCustody => None,
            Action::Use => Some(InputOutput::Input),
            Action::Work => Some(InputOutput::Input),
        }
    }
}

/// A copy of an optional string.
pub fn clone_opt_string(s: &Option<String>) -> (r: Option<String>)
    ensures
        r == *s,
{
    match s {
        Some(x) => Some(x.clone()),
        None => None,
    }
}

/// A person or group or organization with economic agency.
#[derive(Debug, PartialEq)]
pub struct Agent {
    pub name: String,
    pub note: Option<String>,
}

/// The relationship between two agents (a member of a company).
#[derive(Debug, PartialEq)]
pub struct AgentRelationship {
    /// The agent in the relationship (the member)
    pub subject: AgentID,
    /// The other agent (the company)
    pub object: AgentID,
    pub note: Option<String>,
}

/// A role agents can have in a relationship (an occupation).
#[derive(Debug, PartialEq)]
pub struct AgentRelationshipRole {
    pub role_label: String,
    pub note: Option<String>,
}

/// A set of commitments agreed to by agents.
#[derive(Debug, PartialEq)]
pub struct Agreement {
    pub name: Option<String>,
    pub note: Option<String>,
    pub created: Option<Timestamp>,
}

/// An activity that changes inputs into outputs.
#[derive(Debug, PartialEq)]
pub struct Process {
    pub name: String,
    pub note: Option<String>,
    pub based_on: Option<ProcessSpecID>,
    pub has_beginning: Option<Timestamp>,
    pub has_end: Option<Timestamp>,
    pub finished: Option<bool>,
}

/// A kind of process.
#[derive(Debug, PartialEq)]
pub struct ProcessSpecification {
    pub name: String,
    pub note: Option<String>,
}

/// A kind of resource (a product definition).
#[derive(Debug, PartialEq)]
pub struct ResourceSpecification {
    pub name: String,
    pub note: Option<String>,
    pub default_unit_of_effort: Option<Unit>,
    pub default_unit_of_resource: Option<Unit>,
}

/// A resource: something that is useful to people or the ecosystem.
#[derive(Debug, PartialEq)]
pub struct EconomicResource {
    pub accounting_quantity: Option<Measure>,
    pub onhand_quantity: Option<Measure>,
    pub primary_accountable: Option<AgentID>,
    pub conforms_to: ResourceSpecID,
    pub current_location: Option<String>,
    pub lot: Option<String>,
    pub name: Option<String>,
    pub note: Option<String>,
    pub tracking_identifier: Option<String>,
    pub unit_of_effort: Option<Unit>,
}



/// An observed economic flow: something that happened.
#[derive(Debug, PartialEq)]
pub struct EconomicEvent {
    pub action: Action,
    pub agreed_in: Option<String>,
    pub at_location: Option<String>,
    pub effort_quantity: Option<Measure>,
    pub has_beginning: Option<Timestamp>,
    pub has_end: Option<Timestamp>,
    pub has_point_in_time: Option<Timestamp>,
    pub input_of: Option<ProcessID>,
    pub output_of: Option<ProcessID>,
    pub note: Option<String>,
    pub provider: AgentID,
    pub receiver: AgentID,
    pub realization_of: Option<AgreementID>,
    pub resource_conforms_to: Option<ResourceSpecID>,
    pub resource_inventoried_as: Option<ResourceID>,
    pub to_resource_inventoried_as: Option<ResourceID>,
    pub resource_quantity: Option<Measure>,
    pub triggered_by: Option<EventID>,
}

/// A planned economic flow that has been promised by an agent to another.
#[derive(Debug, PartialEq)]
pub struct Commitment {
    pub action: Action,
    pub agreed_in: Option<String>,
    pub at_location: Option<String>,
    pub clause_of: Option<AgreementID>,
    pub created: Option<Timestamp>,
    pub due: Option<Timestamp>,
    pub effort_quantity: Option<Measure>,
    pub finished: Option<bool>,
    pub has_beginning: Option<Timestamp>,
    pub has_end: Option<Timestamp>,
    pub has_point_in_time: Option<Timestamp>,
    pub input_of: Option<ProcessID>,
    pub note: Option<String>,
    pub output_of: Option<ProcessID>,
    pub provider: AgentID,
    pub receiver: AgentID,
    pub resource_conforms_to: Option<ResourceSpecID>,
    pub resource_inventoried_as: Option<ResourceID>,
    pub resource_quantity: Option<Measure>,
}

/// A planned economic flow which has not been committed to.
#[derive(Debug, PartialEq)]
pub struct Intent {
    pub action: Action,
    pub agreed_in: Option<String>,
    pub at_location: Option<String>,
    pub available_quantity: Option<Measure>,
    pub due: Option<Timestamp>,
    pub effort_quantity: Option<Measure>,
    pub finished: Option<bool>,
    pub has_beginning: Option<Timestamp>,
    pub has_end: Option<Timestamp>,
    pub has_point_in_time: Option<Timestamp>,
    pub in_scope_of: Vec<AgentID>,
    pub name: Option<String>,
    pub note: Option<String>,
    pub provider: Option<AgentID>,
    pub receiver: Option<AgentID>,
    pub resource_conforms_to: Option<ResourceSpecID>,
    pub resource_inventoried_as: Option<ResourceID>,
    pub resource_quantity: Option<Measure>,
}

impl Clone for Agent {
    fn clone(&self) -> (r: Agent)
        ensures
            r == *self,
    {
        Agent {
            name: self.name.clone(),
            note: match &self.note {
                Some(x) => Some(x.clone()),
                None => None,
            },
        }
    }
}

impl Clone for AgentRelationship {
    fn clone(&self) -> (r: AgentRelationship)
        ensures
            r == *self,
    {
        AgentRelationship {
            subject: self.subject.clone(),
            object: self.object.clone(),
            note: match &self.note {
                Some(x) => Some(x.clone()),
                None => None,
            },
        }
    }
}

impl Clone for AgentRelationshipRole {
    fn clone(&self) -> (r: AgentRelationshipRole)
        ensures
            r == *self,
    {
        AgentRelationshipRole {
            role_label: self.role_label.clone(),
            note: match &self.note {
                Some(x) => Some(x.clone()),
                None => None,
            },
        }
    }
}

impl Clone for Agreement {
    fn clone(&self) -> (r: Agreement)
        ensures
            r == *self,
    {
        Agreement {
            name: match &self.name {
                Some(x) => Some(x.clone()),
                None => None,
            },
            note: match &self.note {
                Some(x) => Some(x.clone()),
                None => None,
            },
            created: self.created,
        }
    }
}

impl Clone for Process {
    fn clone(&self) -> (r: Process)
        ensures
            r == *self,
    {
        Process {
            name: self.name.clone(),
            note: match &self.note {
                Some(x) => Some(x.clone()),
                None => None,
            },
            based_on: match &self.based_on {
                Some(x) => Some(x.clone()),
                None => None,
            },
            has_beginning: self.has_beginning,
            has_end: self.has_end,
            finished: self.finished,
        }
    }
}

impl Clone for ProcessSpecification {
    fn clone(&self) -> (r: ProcessSpecification)
        ensures
            r == *self,
    {
        ProcessSpecification {
            name: self.name.clone(),
            note: match &self.note {
                Some(x) => Some(x.clone()),
                None => None,
            },
        }
    }
}

impl Clone for ResourceSpecification {
    fn clone(&self) -> (r: ResourceSpecification)
        ensures
            r == *self,
    {
        ResourceSpecification {
            name: self.name.clone(),
            note: match &self.note {
                Some(x) => Some(x.clone()),
                None => None,
            },
            default_unit_of_effort: match &self.default_unit_of_effort {
                Some(x) => Some(x.clone()),
                None => None,
            },
            default_unit_of_resource: match &self.default_unit_of_resource {
                Some(x) => Some(x.clone()),
                None => None,
            },
        }
    }
}

impl Clone for EconomicEvent {
    fn clone(&self) -> (r: EconomicEvent)
        ensures
            r == *self,
    {
        EconomicEvent {
            action: self.action,
            agreed_in: match &self.agreed_in {
                Some(x) => Some(x.clone()),
                None => None,
            },
            at_location: match &self.at_location {
                Some(x) => Some(x.clone()),
                None => None,
            },
            effort_quantity: match &self.effort_quantity {
                Some(x) => Some(x.clone()),
                None => None,
            },
            has_beginning: self.has_beginning,
            has_end: self.has_end,
            has_point_in_time: self.has_point_in_time,
            input_of: match &self.input_of {
                Some(x) => Some(x.clone()),
                None => None,
            },
            output_of: match &self.output_of {
                Some(x) => Some(x.clone()),
                None => None,
            },
            note: match &self.note {
                Some(x) => Some(x.clone()),
                None => None,
            },
            provider: self.provider.clone(),
            receiver: self.receiver.clone(),
            realization_of: match &self.realization_of {
                Some(x) => Some(x.clone()),
                None => None,
            },
            resource_conforms_to: match &self.resource_conforms_to {
                Some(x) => Some(x.clone()),
                None => None,
            },
            resource_inventoried_as: match &self.resource_inventoried_as {
                Some(x) => Some(x.clone()),
                None => None,
            },
            to_resource_inventoried_as: match &self.to_resource_inventoried_as {
                Some(x) => Some(x.clone()),
                None => None,
            },
            resource_quantity: match &self.resource_quantity {
                Some(x) => Some(x.clone()),
                None => None,
            },
            triggered_by: match &self.triggered_by {
                Some(x) => Some(x.clone()),
                None => None,
            },
        }
    }
}

impl Clone for Commitment {
    fn clone(&self) -> (r: Commitment)
        ensures
            r == *self,
    {
        Commitment {
            action: self.action,
            agreed_in: match &self.agreed_in {
                Some(x) => Some(x.clone()),
                None => None,
            },
            at_location: match &self.at_location {
                Some(x) => Some(x.clone()),
                None => None,
            },
            clause_of: match &self.clause_of {
                Some(x) => Some(x.clone()),
                None => None,
            },
            created: self.created,
            due: self.due,
            effort_quantity: match &self.effort_quantity {
                Some(x) => Some(x.clone()),
                None => None,
            },
            finished: self.finished,
            has_beginning: self.has_beginning,
            has_end: self.has_end,
            has_point_in_time: self.has_point_in_time,
            input_of: match &self.input_of {
                Some(x) => Some(x.clone()),
                None => None,
            },
            note: match &self.note {
                Some(x) => Some(x.clone()),
                None => None,
            },
            output_of: match &self.output_of {
                Some(x) => Some(x.clone()),
                None => None,
            },
            provider: self.provider.clone(),
            receiver: self.receiver.clone(),
            resource_conforms_to: match &self.resource_conforms_to {
                Some(x) => Some(x.clone()),
                None => None,
            },
            resource_inventoried_as: match &self.resource_inventoried_as {
                Some(x) => Some(x.clone()),
                None => None,
            },
            resource_quantity: match &self.resource_quantity {
                Some(x) => Some(x.clone()),
                None => None,
            },
        }
    }
}

impl Clone for EconomicResource {
    fn clone(&self) -> (r: EconomicResource)
        ensures
            r == *self,
    {
        EconomicResource {
            accounting_quantity: match &self.accounting_quantity {
                Some(x) => Some(x.clone()),
                None => None,
            },
            onhand_quantity: match &self.onhand_quantity {
                Some(x) => Some(x.clone()),
                None => None,
            },
            primary_accountable: match &self.primary_accountable {
                Some(x) => Some(x.clone()),
                None => None,
            },
            conforms_to: self.conforms_to.clone(),
            current_location: match &self.current_location {
                Some(x) => Some(x.clone()),
                None => None,
            },
            lot: match &self.lot {
                Some(x) => Some(x.clone()),
                None => None,
            },
            name: match &self.name {
                Some(x) => Some(x.clone()),
                None => None,
            },
            note: match &self.note {
                Some(x) => Some(x.clone()),
                None => None,
            },
            tracking_identifier: match &self.tracking_identifier {
                Some(x) => Some(x.clone()),
                None => None,
            },
            unit_of_effort: match &self.unit_of_effort {
                Some(x) => Some(x.clone()),
                None => None,
            },
        }
    }
}

/// What an intent record holds, with its scope as a sequence.
pub struct IntentView {
    pub action: Action,
    pub agreed_in: Option<String>,
    pub at_location: Option<String>,
    pub available_quantity: Option<Measure>,
    pub due: Option<Timestamp>,
    pub effort_quantity: Option<Measure>,
    pub finished: Option<bool>,
    pub has_beginning: Option<Timestamp>,
    pub has_end: Option<Timestamp>,
    pub has_point_in_time: Option<Timestamp>,
    pub in_scope_of: Seq<AgentID>,
    pub name: Option<String>,
    pub note: Option<String>,
    pub provider: Option<AgentID>,
    pub receiver: Option<AgentID>,
    pub resource_conforms_to: Option<ResourceSpecID>,
    pub resource_inventoried_as: Option<ResourceID>,
    pub resource_quantity: Option<Measure>,
}

impl View for Intent {
    type V = IntentView;

    open spec fn view(&self) -> IntentView {
        IntentView {
            action: self.action,
            agreed_in: self.agreed_in,
            at_location: self.at_location,
            available_quantity: self.available_quantity,
            due: self.due,
            effort_quantity: self.effort_quantity,
            finished: self.finished,
            has_beginning: self.has_beginning,
            has_end: self.has_end,
            has_point_in_time: self.has_point_in_time,
            in_scope_of: self.in_scope_of@,
            name: self.name,
            note: self.note,
            provider: self.provider,
            receiver: self.receiver,
            resource_conforms_to: self.resource_conforms_to,
            resource_inventoried_as: self.resource_inventoried_as,
            resource_quantity: self.resource_quantity,
        }
    }
}

impl Clone for Intent {
    fn clone(&self) -> (r: Intent)
        ensures
            r@ == self@,
    {
        Intent {
            action: self.action,
            agreed_in: match &self.agreed_in {
                Some(x) => Some(x.clone()),
                None => None,
            },
            at_location: match &self.at_location {
                Some(x) => Some(x.clone()),
                None => None,
            },
            available_quantity: match &self.available_quantity {
                Some(x) => Some(x.clone()),
                None => None,
            },
            due: self.due,
            effort_quantity: match &self.effort_quantity {
                Some(x) => Some(x.clone()),
                None => None,
            },
            finished: self.finished,
            has_beginning: self.has_beginning,
            has_end: self.has_end,
            has_point_in_time: self.has_point_in_time,
            in_scope_of: clone_agent_vec(&self.in_scope_of),
            name: match &self.name {
                Some(x) => Some(x.clone()),
                None => None,
            },
            note: match &self.note {
                Some(x) => Some(x.clone()),
                None => None,
            },
            provider: match &self.provider {
                Some(x) => Some(x.clone()),
                None => None,
            },
            receiver: match &self.receiver {
                Some(x) => Some(x.clone()),
                None => None,
            },
            resource_conforms_to: match &self.resource_conforms_to {
                Some(x) => Some(x.clone()),
                None => None,
            },
            resource_inventoried_as: match &self.resource_inventoried_as {
                Some(x) => Some(x.clone()),
                None => None,
            },
            resource_quantity: match &self.resource_quantity {
                Some(x) => Some(x.clone()),
                None => None,
            },
        }
    }
}

} // verus!
