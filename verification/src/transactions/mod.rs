//! Transactions are the main interface for interacting with Basis. Each one
//! checks that the caller may do what it asks, and returns the models to
//! create, update or delete as a list of modifications. Nothing is stored
//! here: what to do with the modifications is up to the caller.

pub mod user;
pub mod region;
pub mod occupation;
pub mod currency;
pub mod account;
pub mod company;
pub mod member;
pub mod agreement;
pub mod process_spec;
pub mod resource_spec;
pub mod resource;
pub mod intent;
pub mod company_member;
pub mod event;

use crate::access::Permission;
use crate::error::Error;
use crate::models::company::{Company, Permission as CompanyPermission};
use crate::models::member::{member_allows, Member};
use crate::models::user::{user_can, User};
use crate::models::{ModelView, ModificationView, Modifications, Op};
use vstd::prelude::*;

verus! {

/// The kinds of order an intent can describe.
#[derive(Clone, Copy, Debug, PartialEq, Eq, Structural)]
pub enum OrderAction {
    /// Deliver a service
    DeliverService,
    /// Transfer a resource (ownership and custody)
    Transfer,
    /// Transfer custody of a resource
    TransferCustody,
}

/// Whether the caller may act for the company: it holds the system
/// permission, and its membership holds the company permission.
pub open spec fn company_allows(
    caller: User,
    member: Member,
    company: Company,
    p: Permission,
    cp: CompanyPermission,
) -> bool {
    user_can(caller, p) && member_allows(member, caller.id, company.id, cp)
}

/// Whether the caller may act for the company, and the company is active.
pub open spec fn company_ok(
    caller: User,
    member: Member,
    company: Company,
    p: Permission,
    cp: CompanyPermission,
) -> bool {
    company_allows(caller, member, company, p, cp) && company.spec_is_active()
}

/// A transaction's result where the caller may not act for the company
/// (`InsufficientPrivileges`) or the company is inactive.
pub open spec fn company_rejects(
    r: Result<Modifications, Error>,
    caller: User,
    member: Member,
    company: Company,
    p: Permission,
    cp: CompanyPermission,
) -> bool {
    &&& !company_allows(caller, member, company, p, cp) ==> r == Err::<Modifications, Error>(
        Error::InsufficientPrivileges,
    )
    &&& (company_allows(caller, member, company, p, cp) && !company.spec_is_active()) ==> (r matches Err(
        e,
    ) && is_inactive_err(e, "company"@))
}

/// Check that the caller may act for the company, and that it is active.
pub fn check_company(
    caller: &User,
    member: &Member,
    company: &Company,
    p: Permission,
    cp: CompanyPermission,
) -> (r: Result<(), Error>)
    ensures
        r is Ok <==> company_ok(*caller, *member, *company, p, cp),
        !company_allows(*caller, *member, *company, p, cp) ==> r == Err::<(), Error>(
            Error::InsufficientPrivileges,
        ),
        (company_allows(*caller, *member, *company, p, cp) && !company.spec_is_active()) ==> (r matches Err(
            e,
        ) && is_inactive_err(e, "company"@)),
{
    match caller.access_check(p) {
        Ok(()) => {},
        Err(e) => {
            return Err(e);
        },
    }
    match member.access_check(&caller.id, &company.id, cp) {
        Ok(()) => {},
        Err(e) => {
            return Err(e);
        },
    }
    if !company.is_active() {
        return Err(inactive("company"));
    }
    Ok(())
}

/// The value if there is one, else the default.
pub open spec fn pick<T>(o: Option<T>, d: T) -> T {
    match o {
        Some(x) => x,
        None => d,
    }
}

/// A list of one modification.
pub open spec fn single(op: Op, model: ModelView) -> Seq<ModificationView> {
    seq![ModificationView { op, model }]
}

/// Whether `e` says that the object named `what` is inactive.
pub open spec fn is_inactive_err(e: Error, what: Seq<char>) -> bool {
    e matches Error::ObjectIsInactive(s) && s@ == what
}

/// Whether `e` says that the object named `what` is deleted.
pub open spec fn is_deleted_err(e: Error, what: Seq<char>) -> bool {
    e matches Error::ObjectIsDeleted(s) && s@ == what
}

/// The error for an inactive object.
pub fn inactive(what: &str) -> (e: Error)
    ensures
        is_inactive_err(e, what@),
{
    Error::ObjectIsInactive(what.to_string())
}

/// The error for a deleted object.
pub fn deleted(what: &str) -> (e: Error)
    ensures
        is_deleted_err(e, what@),
{
    Error::ObjectIsDeleted(what.to_string())
}

} // verus!
