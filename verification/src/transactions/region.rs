//! Regions: creating and deleting them. A caller without the permission is
//! answered `PermissionDenied`.

use crate::access::Permission;
use crate::error::Error;
use crate::models::region::{Region, RegionID, RegionView};
use crate::models::user::{user_can, User};
use crate::models::{Model, ModelView, Modifications, Op};
use crate::time::Timestamp;
use crate::transactions::single;
use vstd::prelude::*;

verus! {

/// Create a region.
pub fn create(caller: &User, id: RegionID, name: String, active: bool, now: &Timestamp) -> (r: Result<
    Modifications,
    Error,
>)
    ensures
        r is Ok <==> user_can(*caller, Permission::RegionCreate),
        r matches Ok(m) ==> m@ == single(
            Op::Create,
            ModelView::Region(
                RegionView { id, name, active, created: *now, updated: *now, deleted: None },
            ),
        ),
        r is Err ==> r == Err::<Modifications, Error>(Error::PermissionDenied),
{
    if !caller.can(&Permission::RegionCreate) {
        return Err(Error::PermissionDenied);
    }
    let model = Region { id, name, active, created: *now, updated: *now, deleted: None };
    Ok(Modifications::new_single(Op::Create, Model::Region(model)))
}

/// Delete a region.
pub fn delete(caller: &User, subject: Region, now: &Timestamp) -> (r: Result<Modifications, Error>)
    ensures
        r is Ok <==> user_can(*caller, Permission::RegionDelete),
        r matches Ok(m) ==> m@ == single(
            Op::Delete,
            ModelView::Region(RegionView { deleted: Some(*now), ..subject@ }),
        ),
        r is Err ==> r == Err::<Modifications, Error>(Error::PermissionDenied),
{
    if !caller.can(&Permission::RegionDelete) {
        return Err(Error::PermissionDenied);
    }
    let mut subject = subject;
    subject.deleted = Some(*now);
    Ok(Modifications::new_single(Op::Delete, Model::Region(subject)))
}

} // verus!
