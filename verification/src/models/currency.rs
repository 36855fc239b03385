//! The currency model, used to track various currency types for purposes of
//! banking. Currencies require global systemic management.

pub use crate::models::ids::CurrencyID;
use crate::time::Timestamp;
use vstd::prelude::*;

verus! {
/// The currency model: lets the banking system track currencies as they move
/// through the system.
#[derive(Debug, PartialEq)]
pub struct Currency {
    /// The currency's ID
    pub id: CurrencyID,
    /// The name of the currency, probably some ISO value
    pub name: String,
    /// How many decimal places this currency uses
    pub decimal_places: u8,
    /// Whether the model can be used or altered (see `is_active`).
    pub active: bool,
    /// When the model was created.
    pub created: Timestamp,
    /// When the model was last updated.
    pub updated: Timestamp,
    /// When the model was deleted (deletion is permanent).
    pub deleted: Option<Timestamp>,
}

/// What a currency holds, with its costs and lists as values.
pub struct CurrencyView {
    pub id: CurrencyID,
    pub name: String,
    pub decimal_places: u8,
    pub active: bool,
    pub created: Timestamp,
    pub updated: Timestamp,
    pub deleted: Option<Timestamp>,
}

impl View for Currency {
    type V = CurrencyView;

    open spec fn view(&self) -> CurrencyView {
        CurrencyView {
            id: self.id,
            name: self.name,
            decimal_places: self.decimal_places,
            active: self.active,
            created: self.created,
            updated: self.updated,
            deleted: self.deleted,
        }
    }
}

impl Clone for Currency {
    fn clone(&self) -> (r: Currency)
        ensures
            r@ == self@,
    {
        Currency {
            id: self.id.clone(),
            name: self.name.clone(),
            decimal_places: self.decimal_places,
            active: self.active,
            created: self.created,
            updated: self.updated,
            deleted: self.deleted,
        }
    }
}

impl Currency {
    /// Whether the currency has been deleted.
    pub open spec fn spec_is_deleted(&self) -> bool {
        self.deleted is Some
    }

    /// Whether the currency is active: marked active and not deleted.
    pub open spec fn spec_is_active(&self) -> bool {
        self.active && !self.spec_is_deleted()
    }

    /// Whether the currency has been deleted.
    pub fn is_deleted(&self) -> (r: bool)
        ensures
            r == self.spec_is_deleted(),
    {
        self.deleted.is_some()
    }

    /// Whether the currency is active: marked active and not deleted.
    pub fn is_active(&self) -> (r: bool)
        ensures
            r == self.spec_is_active(),
    {
        self.active && !self.is_deleted()
    }

    /// Set when the currency was deleted.
    pub fn set_deleted(&mut self, deleted: Option<Timestamp>)
        ensures
            *final(self) == (Currency { deleted, ..*old(self) }),
    {
        self.deleted = deleted;
    }

    /// Set whether the currency is active.
    pub fn set_active(&mut self, active: bool)
        ensures
            *final(self) == (Currency { active, ..*old(self) }),
    {
        self.active = active;
    }

    /// Set when the currency was last updated.
    pub fn set_updated(&mut self, updated: Timestamp)
        ensures
            *final(self) == (Currency { updated, ..*old(self) }),
    {
        self.updated = updated;
    }
}

} // verus!
