//! Agreements: creating and updating them.

use crate::access::Permission;
use crate::error::Error;
use crate::models::agreement::{Agreement, AgreementID, AgreementView};
use crate::models::company::{Company, Permission as CompanyPermission};
use crate::models::lib::agent::AgentID;
use crate::models::member::Member;
use crate::models::user::User;
use crate::models::vf;
use crate::models::{Model, ModelView, Modifications, Op};
use crate::time::Timestamp;
use crate::transactions::{check_company, company_ok, company_rejects, pick, single};
use vstd::prelude::*;

verus! {

/// Create an agreement between participants.
pub fn create(
    caller: &User,
    member: &Member,
    company: &Company,
    id: AgreementID,
    participants: Vec<AgentID>,
    name: String,
    note: String,
    created: Option<Timestamp>,
    active: bool,
    now: &Timestamp,
) -> (r: Result<Modifications, Error>)
    ensures
        company_rejects(
            r,
            *caller,
            *member,
            *company,
            Permission::CompanyUpdateAgreements,
            CompanyPermission::AgreementCreate,
        ),
        r is Ok <==> company_ok(
            *caller,
            *member,
            *company,
            Permission::CompanyUpdateAgreements,
            CompanyPermission::AgreementCreate,
        ),
        r matches Ok(m) ==> m@ == single(
            Op::Create,
            ModelView::Agreement(
                AgreementView {
                    id,
                    inner: vf::Agreement { name: Some(name), note: Some(note), created },
                    participants: participants@,
                    active,
                    created: *now,
                    updated: *now,
                    deleted: None,
                },
            ),
        ),
{
    match check_company(
        caller,
        member,
        company,
        Permission::CompanyUpdateAgreements,
        CompanyPermission::AgreementCreate,
    ) {
        Ok(()) => {},
        Err(e) => {
            return Err(e);
        },
    }
    let model = Agreement {
        id,
        inner: vf::Agreement { name: Some(name), note: Some(note), created },
        participants,
        active,
        created: *now,
        updated: *now,
        deleted: None,
    };
    Ok(Modifications::new_single(Op::Create, Model::Agreement(model)))
}

/// Update an agreement's participants, name, note, creation date or active
/// flag (those given).
pub fn update(
    caller: &User,
    member: &Member,
    company: &Company,
    subject: Agreement,
    participants: Option<Vec<AgentID>>,
    name: Option<String>,
    note: Option<String>,
    created: Option<Option<Timestamp>>,
    active: Option<bool>,
    now: &Timestamp,
) -> (r: Result<Modifications, Error>)
    ensures
        company_rejects(
            r,
            *caller,
            *member,
            *company,
            Permission::CompanyUpdateAgreements,
            CompanyPermission::AgreementUpdate,
        ),
        r is Ok <==> company_ok(
            *caller,
            *member,
            *company,
            Permission::CompanyUpdateAgreements,
            CompanyPermission::AgreementUpdate,
        ),
        r matches Ok(m) ==> m@ == single(
            Op::Update,
            ModelView::Agreement(
                AgreementView {
                    inner: vf::Agreement {
                        name: if name is Some {
                            name
                        } else {
                            subject.inner.name
                        },
                        note: if note is Some {
                            note
                        } else {
                            subject.inner.note
                        },
                        created: pick(created, subject.inner.created),
                    },
                    participants: match participants {
                        Some(p) => p@,
                        None => subject.participants@,
                    },
                    active: pick(active, subject.active),
                    updated: *now,
                    ..subject@
                },
            ),
        ),
{
    match check_company(
        caller,
        member,
        company,
        Permission::CompanyUpdateAgreements,
        CompanyPermission::AgreementUpdate,
    ) {
        Ok(()) => {},
        Err(e) => {
            return Err(e);
        },
    }
    let mut subject = subject;
    if let Some(participants) = participants {
        subject.participants = participants;
    }
    if let Some(created) = created {
        subject.inner.created = created;
    }
    if let Some(name) = name {
        subject.inner.name = Some(name);
    }
    if let Some(note) = note {
        subject.inner.note = Some(note);
    }
    if let Some(active) = active {
        subject.active = active;
    }
    subject.updated = *now;
    Ok(Modifications::new_single(Op::Update, Model::Agreement(subject)))
}

} // verus!
