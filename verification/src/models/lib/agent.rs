//! The actors that have agency in the economic network.

use crate::error::Error;
use crate::models::ids::{CompanyID, MemberID, UserID};
use vstd::prelude::*;

verus! {

/// VF assumes different types of actors in the economic network that have
/// "agency"; these are the ones that have agency within Basis.
#[derive(Debug)]
pub enum AgentID {
    CompanyID(CompanyID),
    MemberID(MemberID),
    UserID(UserID),
}

/// Which kind of agent, and the agent's id string.
pub enum AgentIDView {
    Company(Seq<char>),
    Member(Seq<char>),
    User(Seq<char>),
}

impl View for AgentID {
    type V = AgentIDView;

    open spec fn view(&self) -> AgentIDView {
        match self {
            AgentID::CompanyID(id) => AgentIDView::Company(id@),
            AgentID::MemberID(id) => AgentIDView::Member(id@),
            AgentID::UserID(id) => AgentIDView::User(id@),
        }
    }
}

/// The view of an optional agent id.
pub open spec fn opt_agent_view(a: Option<AgentID>) -> Option<AgentIDView> {
    match a {
        Some(x) => Some(x@),
        None => None,
    }
}

impl Clone for AgentID {
    fn clone(&self) -> (r: AgentID)
        ensures
            r == *self,
    {
        match self {
            AgentID::CompanyID(id) => AgentID::CompanyID(id.clone()),
            AgentID::MemberID(id) => AgentID::MemberID(id.clone()),
            AgentID::UserID(id) => AgentID::UserID(id.clone()),
        }
    }
}

impl PartialEq for AgentID {
    fn eq(&self, other: &AgentID) -> (r: bool) {
        match (self, other) {
            (AgentID::CompanyID(a), AgentID::CompanyID(b)) => a == b,
            (AgentID::MemberID(a), AgentID::MemberID(b)) => a == b,
            (AgentID::UserID(a), AgentID::UserID(b)) => a == b,
            _ => false,
        }
    }
}

impl vstd::std_specs::cmp::PartialEqSpecImpl for AgentID {
    open spec fn obeys_eq_spec() -> bool {
        true
    }

    open spec fn eq_spec(&self, other: &AgentID) -> bool {
        self@ == other@
    }
}

/// Whether two optional agent ids are the same.
pub fn opt_agent_eq(a: &Option<AgentID>, b: &Option<AgentID>) -> (r: bool)
    ensures
        r == (opt_agent_view(*a) == opt_agent_view(*b)),
{
    match (a, b) {
        (None, None) => true,
        (Some(x), Some(y)) => x == y,
        _ => false,
    }
}

/// A copy of an optional agent id.
pub fn clone_opt_agent(a: &Option<AgentID>) -> (r: Option<AgentID>)
    ensures
        r == *a,
{
    match a {
        Some(x) => Some(x.clone()),
        None => None,
    }
}

impl From<CompanyID> for AgentID {
    fn from(val: CompanyID) -> (r: AgentID) {
        AgentID::CompanyID(val)
    }
}

impl vstd::std_specs::convert::FromSpecImpl<CompanyID> for AgentID {
    open spec fn obeys_from_spec() -> bool {
        true
    }

    open spec fn from_spec(v: CompanyID) -> AgentID {
        AgentID::CompanyID(v)
    }
}

impl From<MemberID> for AgentID {
    fn from(val: MemberID) -> (r: AgentID) {
        AgentID::MemberID(val)
    }
}

impl vstd::std_specs::convert::FromSpecImpl<MemberID> for AgentID {
    open spec fn obeys_from_spec() -> bool {
        true
    }

    open spec fn from_spec(v: MemberID) -> AgentID {
        AgentID::MemberID(v)
    }
}

impl From<UserID> for AgentID {
    fn from(val: UserID) -> (r: AgentID) {
        AgentID::UserID(val)
    }
}

impl vstd::std_specs::convert::FromSpecImpl<UserID> for AgentID {
    open spec fn obeys_from_spec() -> bool {
        true
    }

    open spec fn from_spec(v: UserID) -> AgentID {
        AgentID::UserID(v)
    }
}

impl AgentID {
    /// The company id held, or `Error::WrongAgentIDType`.
    pub fn into_company_id(self) -> (r: Result<CompanyID, Error>)
        ensures
            match self {
                AgentID::CompanyID(id) => r == Ok::<CompanyID, Error>(id),
                _ => r == Err::<CompanyID, Error>(Error::WrongAgentIDType),
            },
    {
        match self {
            AgentID::CompanyID(id) => Ok(id),
            _ => Err(Error::WrongAgentIDType),
        }
    }

    /// The member id held, or `Error::WrongAgentIDType`.
    pub fn into_member_id(self) -> (r: Result<MemberID, Error>)
        ensures
            match self {
                AgentID::MemberID(id) => r == Ok::<MemberID, Error>(id),
                _ => r == Err::<MemberID, Error>(Error::WrongAgentIDType),
            },
    {
        match self {
            AgentID::MemberID(id) => Ok(id),
            _ => Err(Error::WrongAgentIDType),
        }
    }

    /// The user id held, or `Error::WrongAgentIDType`.
    pub fn into_user_id(self) -> (r: Result<UserID, Error>)
        ensures
            match self {
                AgentID::UserID(id) => r == Ok::<UserID, Error>(id),
                _ => r == Err::<UserID, Error>(Error::WrongAgentIDType),
            },
    {
        match self {
            AgentID::UserID(id) => Ok(id),
            _ => Err(Error::WrongAgentIDType),
        }
    }
}

/// Common agent functionality: models that can act in the economic network.
pub trait Agent {
    /// The agent's id.
    spec fn agent_view(&self) -> AgentIDView;

    /// Whether the agent is active.
    spec fn agent_active(&self) -> bool;

    /// The model's id as an agent id.
    fn agent_id(&self) -> (r: AgentID)
        ensures
            r@ == self.agent_view(),
    ;

    /// Whether the agent is active (and not deleted).
    fn agent_is_active(&self) -> (r: bool)
        ensures
            r == self.agent_active(),
    ;
}

} // verus!
