//! Resource tags: a record that a resource exists, with the length and hash
//! of its history. A tag is never removed: deleting it stamps it with the time
//! of deletion, one more entry in its history and the hash of that history.

use crate::time::Timestamp;
use vstd::prelude::*;

verus! {

/// The time that stands for "not deleted" in a tag's `deleted` field.
pub open spec fn spec_default_time() -> Timestamp {
    Timestamp { secs: 0, nanos: 0 }
}

/// The time that stands for "not deleted" in a tag's `deleted` field: the
/// start of the Unix epoch.
pub fn default_time() -> (r: Timestamp)
    ensures
        r == spec_default_time(),
{
    Timestamp::new(0, 0)
}

/// A tag for a resource, with its history's length and hash (the 32 bytes
/// of the hash).
#[derive(Debug, PartialEq)]
pub struct ResourceTag {
    pub id: String,
    pub product_id: String,
    pub created: Timestamp,
    pub updated: Timestamp,
    pub deleted: Timestamp,
    pub history_len: u64,
    pub history_hash: Vec<u8>,
}

/// A copy of a list of bytes.
fn clone_bytes(v: &Vec<u8>) -> (r: Vec<u8>)
    ensures
        r@ == v@,
{
    let mut r: Vec<u8> = Vec::new();
    let mut i: usize = 0;
    while i < v.len()
        invariant
            i <= v.len(),
            r@ == v@.subrange(0, i as int),
        decreases v.len() - i,
    {
        r.push(v[i]);
        i = i + 1;
        assert(r@ =~= v@.subrange(0, i as int));
    }
    assert(v@.subrange(0, i as int) =~= v@);
    r
}

impl ResourceTag {
    /// A tag; without a deletion time it is not deleted.
    pub fn new(
        id: &str,
        product_id: &str,
        created: &Timestamp,
        updated: &Timestamp,
        deleted: Option<&Timestamp>,
        history_len: u64,
        history_hash: &Vec<u8>,
    ) -> (r: ResourceTag)
        ensures
            r.id@ == id@,
            r.product_id@ == product_id@,
            r.created == *created,
            r.updated == *updated,
            r.deleted == match deleted {
                Some(d) => *d,
                None => spec_default_time(),
            },
            r.history_len == history_len,
            r.history_hash@ == history_hash@,
    {
        let deleted = match deleted {
            Some(d) => *d,
            None => default_time(),
        };
        ResourceTag {
            id: id.to_string(),
            product_id: product_id.to_string(),
            created: *created,
            updated: *updated,
            deleted,
            history_len,
            history_hash: clone_bytes(history_hash),
        }
    }

    /// The tag deleted at `deleted`: one more entry in its history, whose hash
    /// is now `history_hash`; the rest as it was.
    pub fn delete(&self, deleted: &Timestamp, history_hash: &Vec<u8>) -> (r: ResourceTag)
        requires
            self.history_len < u64::MAX,
        ensures
            r.id@ == self.id@,
            r.product_id@ == self.product_id@,
            r.created == self.created,
            r.updated == self.updated,
            r.deleted == *deleted,
            r.history_len == self.history_len + 1,
            r.history_hash@ == history_hash@,
    {
        ResourceTag::new(
            self.id.as_str(),
            self.product_id.as_str(),
            &self.created,
            &self.updated,
            Some(deleted),
            self.history_len + 1,
            history_hash,
        )
    }

    /// Whether the tag has been deleted.
    pub fn is_deleted(&self) -> (r: bool)
        ensures
            r == (self.deleted != spec_default_time()),
    {
        let d = default_time();
        !self.deleted.same(&d)
    }
}

} // verus!
