//! A labor record: a member's work in an occupation, from a start to an end.

use crate::models::cost_tag::CostTagLink;
use crate::models::ids::CompanyMemberID;
pub use crate::models::ids::LaborID;
use crate::num::Num;
use crate::time::Timestamp;
use vstd::prelude::*;

verus! {

/// A record of labor performed by a member.
#[derive(Debug, PartialEq)]
pub struct Labor {
    /// The labor record's ID
    pub id: LaborID,
    /// The member who performed the labor
    pub member_id: CompanyMemberID,
    /// The occupation the labor was performed in
    pub occupation: String,
    /// The wage (per hour) paid for the labor
    pub wage: Num,
    /// The cost tags the labor's costs go to
    pub cost_tags: Vec<CostTagLink>,
    /// When the labor started
    pub start: Option<Timestamp>,
    /// When the labor ended
    pub end: Option<Timestamp>,
    /// When the record was created.
    pub created: Timestamp,
    /// When the record was last updated.
    pub updated: Timestamp,
}

impl Labor {
    /// Whether the labor has both a start and an end.
    pub fn is_finalized(&self) -> (r: bool)
        ensures
            r == (self.start is Some && self.end is Some),
    {
        self.start.is_some() && self.end.is_some()
    }
}

} // verus!
