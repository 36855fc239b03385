//! Currencies: creating, updating and deleting them (a banking function).

use crate::access::Permission;
use crate::error::Error;
use crate::models::currency::{Currency, CurrencyID, CurrencyView};
use crate::models::user::{user_can, User};
use crate::models::{Model, ModelView, Modifications, Op};
use crate::time::Timestamp;
use crate::transactions::{deleted, is_deleted_err, pick, single};
use vstd::prelude::*;

verus! {

/// Create a currency.
pub fn create(
    caller: &User,
    id: CurrencyID,
    name: String,
    decimal_places: u8,
    active: bool,
    now: &Timestamp,
) -> (r: Result<Modifications, Error>)
    ensures
        r is Ok <==> user_can(*caller, Permission::CurrencyCreate),
        r matches Ok(m) ==> m@ == single(
            Op::Create,
            ModelView::Currency(
                CurrencyView {
                    id,
                    name,
                    decimal_places,
                    active,
                    created: *now,
                    updated: *now,
                    deleted: None,
                },
            ),
        ),
        r is Err ==> r == Err::<Modifications, Error>(Error::InsufficientPrivileges),
{
    match caller.access_check(Permission::CurrencyCreate) {
        Ok(()) => {},
        Err(e) => {
            return Err(e);
        },
    }
    let model = Currency {
        id,
        name,
        decimal_places,
        active,
        created: *now,
        updated: *now,
        deleted: None,
    };
    Ok(Modifications::new_single(Op::Create, Model::Currency(model)))
}

/// Update a currency's name, decimal places or active flag (those given).
pub fn update(
    caller: &User,
    subject: Currency,
    name: Option<String>,
    decimal_places: Option<u8>,
    active: Option<bool>,
    now: &Timestamp,
) -> (r: Result<Modifications, Error>)
    ensures
        r is Ok <==> user_can(*caller, Permission::CurrencyUpdate),
        r matches Ok(m) ==> m@ == single(
            Op::Update,
            ModelView::Currency(
                CurrencyView {
                    name: pick(name, subject.name),
                    decimal_places: pick(decimal_places, subject.decimal_places),
                    active: pick(active, subject.active),
                    updated: *now,
                    ..subject@
                },
            ),
        ),
        r is Err ==> r == Err::<Modifications, Error>(Error::InsufficientPrivileges),
{
    match caller.access_check(Permission::CurrencyUpdate) {
        Ok(()) => {},
        Err(e) => {
            return Err(e);
        },
    }
    let mut subject = subject;
    if let Some(name) = name {
        subject.name = name;
    }
    if let Some(decimal_places) = decimal_places {
        subject.decimal_places = decimal_places;
    }
    if let Some(active) = active {
        subject.active = active;
    }
    subject.updated = *now;
    Ok(Modifications::new_single(Op::Update, Model::Currency(subject)))
}

/// Delete a currency (one not deleted already).
pub fn delete(caller: &User, subject: Currency, now: &Timestamp) -> (r: Result<Modifications, Error>)
    ensures
        r is Ok <==> user_can(*caller, Permission::CurrencyDelete) && !subject.spec_is_deleted(),
        !user_can(*caller, Permission::CurrencyDelete) ==> r == Err::<Modifications, Error>(
            Error::InsufficientPrivileges,
        ),
        user_can(*caller, Permission::CurrencyDelete) && subject.spec_is_deleted() ==> (r matches Err(
            e,
        ) && is_deleted_err(e, "currency"@)),
        r matches Ok(m) ==> m@ == single(
            Op::Delete,
            ModelView::Currency(CurrencyView { deleted: Some(*now), ..subject@ }),
        ),
{
    match caller.access_check(Permission::CurrencyDelete) {
        Ok(()) => {},
        Err(e) => {
            return Err(e);
        },
    }
    if subject.is_deleted() {
        return Err(deleted("currency"));
    }
    let mut subject = subject;
    subject.set_deleted(Some(*now));
    Ok(Modifications::new_single(Op::Delete, Model::Currency(subject)))
}

} // verus!
