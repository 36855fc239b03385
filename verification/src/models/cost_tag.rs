//! Cost tags let costs be grouped by category: an object's costs are divided
//! among its tags by weight.


use vstd::prelude::*;

verus! {

/// A link from an object to a cost tag, with the weight the tag gets.
#[derive(Debug, PartialEq)]
pub struct CostTagLink {
    /// The tag's id
    pub cost_tag_id: String,
    /// The tag's weight, relative to the object's other tags
    pub weight: u64,
}

impl CostTagLink {
    /// Create a new cost tag link.
    pub fn new(cost_tag_id: &str, weight: u64) -> (r: CostTagLink)
        ensures
            r.cost_tag_id@ == cost_tag_id@,
            r.weight == weight,
    {
        CostTagLink { cost_tag_id: cost_tag_id.to_string(), weight }
    }

    /// The tag's id.
    pub fn cost_tag_id(&self) -> (r: &String)
        ensures
            *r == self.cost_tag_id,
    {
        &self.cost_tag_id
    }

    /// The tag's weight.
    pub fn weight(&self) -> (r: u64)
        ensures
            r == self.weight,
    {
        self.weight
    }
}

impl Clone for CostTagLink {
    fn clone(&self) -> (r: CostTagLink)
        ensures
            r == *self,
    {
        CostTagLink { cost_tag_id: self.cost_tag_id.clone(), weight: self.weight }
    }
}

} // verus!
