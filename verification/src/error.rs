//! The main error enum for the project, documenting the various conditions
//! that can arise while interacting with the system.

use vstd::prelude::*;

verus! {

/// An error type for when event processing goes awry.
#[derive(Clone, Copy, Debug, PartialEq, Eq)]
pub enum EventError {
    /// An event's end date must be after its begin date
    DateEndBeforeBegin,
    /// We're trying to set `has_end` with `has_beginning` being blank.
    DateEndMustHaveBegin,
    /// We're trying to add inputs to a deleted process.
    InputOnDeletedProcess,
    /// We expected an InputOutput value but didn't find one
    InvalidInputOutput,
    /// A labor event was recorded with some effort unit other than hours
    LaborMustBeHours,
    /// The given input_of process does not match the event's input process id
    MismatchedInputProcessID,
    /// The given `output_of` process does not match the event's output process id
    MismatchedOutputProcessID,
    /// The given provider does not match the event's provider id
    MismatchedProviderID,
    /// The given resource does not match the event's resource id
    MismatchedResourceID,
    /// The given to_resource does not match the event's to_resource id
    MismatchedResourceToID,
    /// The event is missing the `move_costs` field
    MissingCosts,
    /// The event is missing the `effort_quantity` field
    MissingEffortQuantity,
    /// The event is missing the `resource_quantity` field
    MissingEventMeasure,
    /// The event is missing the `input_of` object
    MissingInputProcess,
    /// The event is missing the `move_type` field
    MissingMoveType,
    /// The event is missing the `output_of` object
    MissingOutputProcess,
    /// The event is missing the `provider` object
    MissingProvider,
    /// The event is missing the `resource` object
    MissingResource,
    /// The event is missing the `resource_to` object
    MissingResourceTo,
    /// When we try to run an operation on a process we don't own
    ProcessOwnerMismatch,
    /// The resource's accounting quantity cannot be zero if the resource has
    /// non-zero `costs`
    ResourceCostQuantityMismatch,
    /// When performing an operation on a resource that isn't in your custody
    ResourceCustodyMismatch,
    /// When performing an operation on a resource that doesn't belong to you
    ResourceOwnerMismatch,
}

/// This is our error enum. It contains an entry for any part of the system in
/// which an expectation is not met or a problem occurs.
#[derive(Clone, Debug, PartialEq)]
pub enum Error {
    /// There was an error while using a builder
    BuilderFailed(String),
    /// When we try to perform an operation that would erase costs (such as
    /// trying to delete a Process that has non-zero costs).
    CannotEraseCosts,
    /// When trying to erase credits from the system, generally when deleting
    /// an account that has a non-zero balance.
    CannotEraseCredits,
    /// When the given commitment doesn't match the action being performed.
    CommitmentInvalid,
    /// When trying to move a set of Costs where the values moved are not in
    /// proportion to the costs they come from.
    CostsNotProportional,
    /// An error while processing an event.
    Event(EventError),
    /// You don't have permission to perform this action
    InsufficientPrivileges,
    /// A company's costs would go over its maximum.
    MaxCostsReached,
    /// Trying to pull a measure out of a resource and coming up blank.
    ResourceMeasureMissing,
    /// An operation on two measures with different units.
    MeasureUnitsMismatched,
    /// The given member must be a worker (not company, user, etc)
    MemberMustBeWorker,
    /// We're missing required fields in a call
    MissingFields(Vec<String>),
    /// An account cannot have a negative balance
    NegativeAccountBalance,
    /// Negative costs cannot be created, as they would represent a surplus
    /// (aka profit).
    NegativeCosts,
    /// Negative measurements cannot be created.
    NegativeMeasurement,
    /// A decimal operation went beyond what a decimal number can hold.
    NumericOverflow,
    /// An error on a numeric measurement value.
    NumericUnionOpError(String),
    /// When we try to update an object that has been deleted.
    ObjectIsDeleted(String),
    /// When we try to update an object that is inactive.
    ObjectIsInactive(String),
    /// When we try to modify an object that is now in a read-only state.
    ObjectIsReadOnly(String),
    /// When we ask a `Modification` for a model but the `Op` we give it
    /// doesn't match expectation.
    OpMismatch,
    /// The caller does not have the permission to do what it asks.
    PermissionDenied,
    /// The user performing an action has been deleted.
    UserIsDeleted,
    /// When we try to convert an AgentID to another ID type but it fails.
    WrongAgentIDType,
    /// Tried to convert `Model` to an inner model type but failed.
    WrongModelType,
}

impl From<EventError> for Error {
    fn from(e: EventError) -> (r: Error) {
        Error::Event(e)
    }
}

impl vstd::std_specs::convert::FromSpecImpl<EventError> for Error {
    open spec fn obeys_from_spec() -> bool {
        true
    }

    open spec fn from_spec(e: EventError) -> Error {
        Error::Event(e)
    }
}

} // verus!
