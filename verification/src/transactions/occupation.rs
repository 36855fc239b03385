//! Occupations: creating, updating and deleting them (a systemic function).

use crate::access::Permission;
use crate::error::Error;
use crate::models::occupation::{Occupation, OccupationID, OccupationView};
use crate::models::user::{user_can, User};
use crate::models::vf;
use crate::models::{Model, ModelView, Modifications, Op};
use crate::time::Timestamp;
use crate::transactions::{deleted, is_deleted_err, pick, single};
use vstd::prelude::*;

verus! {

/// Create an occupation.
pub fn create(
    caller: &User,
    id: OccupationID,
    label: String,
    note: String,
    active: bool,
    now: &Timestamp,
) -> (r: Result<Modifications, Error>)
    ensures
        r is Ok <==> user_can(*caller, Permission::OccupationCreate),
        r matches Ok(m) ==> m@ == single(
            Op::Create,
            ModelView::Occupation(
                OccupationView {
                    id,
                    inner: vf::AgentRelationshipRole { role_label: label, note: Some(note) },
                    active,
                    created: *now,
                    updated: *now,
                    deleted: None,
                },
            ),
        ),
        r is Err ==> r == Err::<Modifications, Error>(Error::InsufficientPrivileges),
{
    match caller.access_check(Permission::OccupationCreate) {
        Ok(()) => {},
        Err(e) => {
            return Err(e);
        },
    }
    let model = Occupation {
        id,
        inner: vf::AgentRelationshipRole { role_label: label, note: Some(note) },
        active,
        created: *now,
        updated: *now,
        deleted: None,
    };
    Ok(Modifications::new_single(Op::Create, Model::Occupation(model)))
}

/// Update an occupation's label, note or active flag (those given).
pub fn update(
    caller: &User,
    subject: Occupation,
    label: Option<String>,
    note: Option<String>,
    active: Option<bool>,
    now: &Timestamp,
) -> (r: Result<Modifications, Error>)
    ensures
        r is Ok <==> user_can(*caller, Permission::OccupationUpdate),
        r matches Ok(m) ==> m@ == single(
            Op::Update,
            ModelView::Occupation(
                OccupationView {
                    inner: vf::AgentRelationshipRole {
                        role_label: pick(label, subject.inner.role_label),
                        note: match note {
                            Some(n) => Some(n),
                            None => subject.inner.note,
                        },
                    },
                    active: pick(active, subject.active),
                    updated: *now,
                    ..subject@
                },
            ),
        ),
        r is Err ==> r == Err::<Modifications, Error>(Error::InsufficientPrivileges),
{
    match caller.access_check(Permission::OccupationUpdate) {
        Ok(()) => {},
        Err(e) => {
            return Err(e);
        },
    }
    let mut subject = subject;
    if let Some(label) = label {
        subject.inner.role_label = label;
    }
    if let Some(note) = note {
        subject.inner.note = Some(note);
    }
    if let Some(active) = active {
        subject.active = active;
    }
    subject.updated = *now;
    Ok(Modifications::new_single(Op::Update, Model::Occupation(subject)))
}

/// Delete an occupation (one not deleted already).
pub fn delete(caller: &User, subject: Occupation, now: &Timestamp) -> (r: Result<Modifications, Error>)
    ensures
        r is Ok <==> user_can(*caller, Permission::OccupationDelete) && !subject.spec_is_deleted(),
        !user_can(*caller, Permission::OccupationDelete) ==> r == Err::<Modifications, Error>(
            Error::InsufficientPrivileges,
        ),
        user_can(*caller, Permission::OccupationDelete) && subject.spec_is_deleted() ==> (r matches Err(
            e,
        ) && is_deleted_err(e, "occupation"@)),
        r matches Ok(m) ==> m@ == single(
            Op::Delete,
            ModelView::Occupation(OccupationView { deleted: Some(*now), ..subject@ }),
        ),
{
    match caller.access_check(Permission::OccupationDelete) {
        Ok(()) => {},
        Err(e) => {
            return Err(e);
        },
    }
    if subject.is_deleted() {
        return Err(deleted("occupation"));
    }
    let mut subject = subject;
    subject.set_deleted(Some(*now));
    Ok(Modifications::new_single(Op::Delete, Model::Occupation(subject)))
}

} // verus!
