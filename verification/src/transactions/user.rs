//! Users are the people in the system: creating, updating and deleting them.

use crate::access::{guest_check, role_can, Permission, Role};
use crate::error::Error;
use crate::models::user::{user_can, User, UserID, UserView};
use crate::models::{Model, ModelView, Modifications, Op};
use crate::time::Timestamp;
use crate::transactions::{deleted, is_deleted_err, pick, single};
use vstd::prelude::*;

verus! {

/// The user a create makes.
pub open spec fn created_user(
    id: UserID,
    roles: Seq<Role>,
    email: String,
    name: String,
    active: bool,
    now: Timestamp,
) -> UserView {
    UserView { id, roles, email, name, active, created: now, updated: now, deleted: None }
}

fn create_inner(id: UserID, roles: Vec<Role>, email: String, name: String, active: bool, now: &Timestamp) -> (r:
    Modifications)
    ensures
        r@ == single(Op::Create, ModelView::User(created_user(id, roles@, email, name, active, *now))),
{
    let model = User {
        id,
        roles,
        email,
        name,
        active,
        created: *now,
        updated: *now,
        deleted: None,
    };
    Modifications::new_single(Op::Create, Model::User(model))
}

/// Create a user (with the `User` role). Anyone may sign up.
pub fn create(id: UserID, email: String, name: String, active: bool, now: &Timestamp) -> (r: Result<
    Modifications,
    Error,
>)
    ensures
        r matches Ok(m) && m@ == single(
            Op::Create,
            ModelView::User(created_user(id, seq![Role::User], email, name, active, *now)),
        ),
{
    assert(role_can(Role::Guest, Permission::UserCreate)) by {
        assert(crate::access::role_permissions(Role::Guest)[0] == Permission::UserCreate);
    }
    match guest_check(Permission::UserCreate) {
        Ok(()) => {},
        Err(e) => {
            return Err(e);
        },
    }
    let mut roles: Vec<Role> = Vec::new();
    roles.push(Role::User);
    assert(roles@ =~= seq![Role::User]);
    Ok(create_inner(id, roles, email, name, active, now))
}

/// Create a user with any roles (an admin function).
pub fn create_permissioned(
    caller: &User,
    id: UserID,
    roles: Vec<Role>,
    email: String,
    name: String,
    active: bool,
    now: &Timestamp,
) -> (r: Result<Modifications, Error>)
    ensures
        r is Ok <==> user_can(*caller, Permission::UserAdminCreate),
        r matches Ok(m) ==> m@ == single(
            Op::Create,
            ModelView::User(created_user(id, roles@, email, name, active, *now)),
        ),
        r is Err ==> r == Err::<Modifications, Error>(Error::InsufficientPrivileges),
{
    match caller.access_check(Permission::UserAdminCreate) {
        Ok(()) => {},
        Err(e) => {
            return Err(e);
        },
    }
    Ok(create_inner(id, roles, email, name, active, now))
}

/// Whether the caller may update the subject: an admin may update anyone, a
/// user only themselves.
pub open spec fn may_update(caller: User, subject: User) -> bool {
    user_can(caller, Permission::UserAdminUpdate) || (user_can(caller, Permission::UserUpdate)
        && caller.id@ == subject.id@)
}

/// Update a user's email, name or active flag (those given).
pub fn update(
    caller: &User,
    subject: User,
    email: Option<String>,
    name: Option<String>,
    active: Option<bool>,
    now: &Timestamp,
) -> (r: Result<Modifications, Error>)
    ensures
        r is Ok <==> may_update(*caller, subject),
        r matches Ok(m) ==> m@ == single(
            Op::Update,
            ModelView::User(
                UserView {
                    email: pick(email, subject.email),
                    name: pick(name, subject.name),
                    active: pick(active, subject.active),
                    updated: *now,
                    ..subject@
                },
            ),
        ),
        r is Err ==> r == Err::<Modifications, Error>(Error::InsufficientPrivileges),
{
    let admin = caller.access_check(Permission::UserAdminUpdate);
    if admin.is_err() {
        match caller.access_check(Permission::UserUpdate) {
            Ok(()) => {},
            Err(e) => {
                return Err(e);
            },
        }
        if caller.id != subject.id {
            return Err(Error::InsufficientPrivileges);
        }
    }
    let mut subject = subject;
    if let Some(email) = email {
        subject.email = email;
    }
    if let Some(name) = name {
        subject.name = name;
    }
    if let Some(active) = active {
        subject.active = active;
    }
    subject.updated = *now;
    Ok(Modifications::new_single(Op::Update, Model::User(subject)))
}

/// Set a user's roles (an admin function).
pub fn set_roles(caller: &User, subject: User, roles: Vec<Role>, now: &Timestamp) -> (r: Result<
    Modifications,
    Error,
>)
    ensures
        r is Ok <==> user_can(*caller, Permission::UserSetRoles),
        r matches Ok(m) ==> m@ == single(
            Op::Update,
            ModelView::User(UserView { roles: roles@, updated: *now, ..subject@ }),
        ),
        r is Err ==> r == Err::<Modifications, Error>(Error::InsufficientPrivileges),
{
    match caller.access_check(Permission::UserSetRoles) {
        Ok(()) => {},
        Err(e) => {
            return Err(e);
        },
    }
    let mut subject = subject;
    subject.roles = roles;
    subject.updated = *now;
    Ok(Modifications::new_single(Op::Update, Model::User(subject)))
}

/// Delete a user (one not deleted already).
pub fn delete(caller: &User, subject: User, now: &Timestamp) -> (r: Result<Modifications, Error>)
    ensures
        r is Ok <==> user_can(*caller, Permission::UserDelete) && !subject.spec_is_deleted(),
        !user_can(*caller, Permission::UserDelete) ==> r == Err::<Modifications, Error>(
            Error::InsufficientPrivileges,
        ),
        user_can(*caller, Permission::UserDelete) && subject.spec_is_deleted() ==> (r matches Err(e)
            && is_deleted_err(e, "user"@)),
        r matches Ok(m) ==> m@ == single(
            Op::Delete,
            ModelView::User(UserView { deleted: Some(*now), ..subject@ }),
        ),
{
    match caller.access_check(Permission::UserDelete) {
        Ok(()) => {},
        Err(e) => {
            return Err(e);
        },
    }
    if subject.is_deleted() {
        return Err(deleted("user"));
    }
    let mut subject = subject;
    subject.set_deleted(Some(*now));
    Ok(Modifications::new_single(Op::Delete, Model::User(subject)))
}

} // verus!
