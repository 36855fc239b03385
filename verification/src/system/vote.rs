//! Voting agents: a user (and, for a company, a member) that a vote acts
//! through, so that the result of a vote can run a transaction.

use crate::access::Role;
use crate::error::Error;
use crate::models::company::{CompanyID, Permission as CompanyPermission};
use crate::models::lib::agent::AgentID;
use crate::models::member::{Member, MemberClass, MemberID, MemberUser};
use crate::models::user::{User, UserID};
use crate::models::vf;
use crate::time::Timestamp;
use vstd::prelude::*;

verus! {

/// The user a vote acts through, and, if the vote is within a company, the
/// member.
#[derive(Debug)]
pub struct Vote {
    /// Our voting user
    pub user: User,
    /// Our voting member, if we have one
    pub member: Option<Member>,
}

/// Whether `u` is a new voting user with the given role: active, created now,
/// with an email and name made from its id.
pub open spec fn is_voter(u: User, role: Role, now: Timestamp) -> bool {
    &&& u.roles@ == seq![role]
    &&& u.email@ == "vote-"@ + u.id@ + "@basisproject.net"@
    &&& u.name@ == "Vote "@ + u.id@
    &&& u.active
    &&& u.created == now
    &&& u.updated == now
    &&& u.deleted is None
}

/// Whether `m` is the voting member of `user` at the company: every
/// permission, active, created now.
pub open spec fn voting_member(m: Member, user: User, company_id: CompanyID, now: Timestamp) -> bool {
    &&& m.inner == (vf::AgentRelationship {
        subject: AgentID::UserID(user.id),
        object: AgentID::CompanyID(company_id),
        note: None,
    })
    &&& m.class == MemberClass::User(MemberUser {  })
    &&& m.permissions@ == seq![CompanyPermission::All]
    &&& m.agreement is None
    &&& m.active
    &&& m.created == now
    &&& m.updated == now
    &&& m.deleted is None
}

impl Vote {
    /// A new user with the given role.
    fn make_voter(role: Role, now: &Timestamp) -> (r: Result<User, Error>)
        ensures
            r matches Ok(u) && is_voter(u, role, *now),
    {
        let id = UserID::create();
        let email = String::from_str("vote-").concat(id.as_str()).concat("@basisproject.net");
        let name = String::from_str("Vote ").concat(id.as_str());
        let mut roles: Vec<Role> = Vec::new();
        roles.push(role);
        assert(roles@ =~= seq![role]);
        Ok(
            User {
                id,
                roles,
                email,
                name,
                active: true,
                created: *now,
                updated: *now,
                deleted: None,
            },
        )
    }

    /// Create a new systemic voting user, with super admin abilities. This is
    /// for systemic changes that need no company or member.
    pub fn systemic(now: &Timestamp) -> (r: Result<Vote, Error>)
        ensures
            r matches Ok(v) && is_voter(v.user, Role::SuperAdmin, *now) && v.member is None,
    {
        let user = match Vote::make_voter(Role::SuperAdmin, now) {
            Ok(u) => u,
            Err(e) => {
                return Err(e);
            },
        };
        Ok(Vote { user, member: None })
    }

    /// Create a new voting company member, with every permission at the
    /// company. This is for voting to run a transaction internal to a
    /// company.
    pub fn company(company_id: &CompanyID, now: &Timestamp) -> (r: Result<Vote, Error>)
        ensures
            r matches Ok(v) && is_voter(v.user, Role::User, *now) && (v.member matches Some(m)
                && voting_member(m, v.user, *company_id, *now)),
    {
        let user = match Vote::make_voter(Role::User, now) {
            Ok(u) => u,
            Err(e) => {
                return Err(e);
            },
        };
        let id = MemberID::create();
        let mut permissions: Vec<CompanyPermission> = Vec::new();
        permissions.push(CompanyPermission::All);
        assert(permissions@ =~= seq![CompanyPermission::All]);
        let member = Member {
            id,
            inner: vf::AgentRelationship {
                subject: AgentID::UserID(user.id.clone()),
                object: AgentID::CompanyID(company_id.clone()),
                note: None,
            },
            class: MemberClass::User(MemberUser::new()),
            permissions,
            agreement: None,
            active: true,
            created: *now,
            updated: *now,
            deleted: None,
        };
        Ok(Vote { user, member: Some(member) })
    }
}

} // verus!
