//! Accounts hold credits. A user can have many accounts; an account can be
//! shared by several users, and spending from it can require several of them
//! to sign off (multisig).

use crate::error::Error;
pub use crate::models::ids::AccountID;
use crate::models::ids::UserID;
use crate::models::lib::basis_model::{clone_user_id_vec, clone_vec_copy};
use crate::num::{add_is_exact, spec_sum, Num};
use crate::time::Timestamp;
use vstd::prelude::*;

verus! {

/// Describes a multisig spending rule for an account.
#[derive(Clone, Copy, Debug, PartialEq, Eq, Structural)]
pub struct Multisig {
    /// The number of owner signatures a transfer out of the account needs
    pub signatures_required: u64,
}

impl Multisig {
    /// Create a new multisig rule.
    pub fn new(signatures_required: u64) -> (r: Multisig)
        ensures
            r.signatures_required == signatures_required,
    {
        Multisig { signatures_required }
    }
}

/// Marks an account as the one a user's UBI is paid into.
#[derive(Clone, Copy, Debug, PartialEq, Eq)]
pub struct Ubi {
    /// When the UBI was last claimed
    pub last_claim: Timestamp,
}

impl Ubi {
    /// Create a new UBI marker, claimed now.
    pub fn new(now: Timestamp) -> (r: Ubi)
        ensures
            r.last_claim == now,
    {
        Ubi { last_claim: now }
    }
}
/// An account holds a balance of credits, and has one or more owners.
#[derive(Debug, PartialEq)]
pub struct Account {
    /// The account's ID
    pub id: AccountID,
    /// The users who own the account
    pub user_ids: Vec<UserID>,
    /// The signature rules for spending from the account
    pub multisig: Vec<Multisig>,
    /// The account's name
    pub name: String,
    /// The account's description
    pub description: String,
    /// The account's balance
    pub balance: Num,
    /// Set if this is the account UBI is paid into
    pub ubi: Option<Ubi>,
    /// Whether the model can be used or altered (see `is_active`).
    pub active: bool,
    /// When the model was created.
    pub created: Timestamp,
    /// When the model was last updated.
    pub updated: Timestamp,
    /// When the model was deleted (deletion is permanent).
    pub deleted: Option<Timestamp>,
}

/// What a account holds, with its costs and lists as values.
pub struct AccountView {
    pub id: AccountID,
    pub user_ids: Seq<UserID>,
    pub multisig: Seq<Multisig>,
    pub name: String,
    pub description: String,
    pub balance: Num,
    pub ubi: Option<Ubi>,
    pub active: bool,
    pub created: Timestamp,
    pub updated: Timestamp,
    pub deleted: Option<Timestamp>,
}

impl View for Account {
    type V = AccountView;

    open spec fn view(&self) -> AccountView {
        AccountView {
            id: self.id,
            user_ids: self.user_ids@,
            multisig: self.multisig@,
            name: self.name,
            description: self.description,
            balance: self.balance,
            ubi: self.ubi,
            active: self.active,
            created: self.created,
            updated: self.updated,
            deleted: self.deleted,
        }
    }
}

impl Clone for Account {
    fn clone(&self) -> (r: Account)
        ensures
            r@ == self@,
    {
        Account {
            id: self.id.clone(),
            user_ids: clone_user_id_vec(&self.user_ids),
            multisig: clone_vec_copy(&self.multisig),
            name: self.name.clone(),
            description: self.description.clone(),
            balance: self.balance,
            ubi: self.ubi,
            active: self.active,
            created: self.created,
            updated: self.updated,
            deleted: self.deleted,
        }
    }
}

impl Account {
    /// Whether the account has been deleted.
    pub open spec fn spec_is_deleted(&self) -> bool {
        self.deleted is Some
    }

    /// Whether the account is active: marked active and not deleted.
    pub open spec fn spec_is_active(&self) -> bool {
        self.active && !self.spec_is_deleted()
    }

    /// Whether the account has been deleted.
    pub fn is_deleted(&self) -> (r: bool)
        ensures
            r == self.spec_is_deleted(),
    {
        self.deleted.is_some()
    }

    /// Whether the account is active: marked active and not deleted.
    pub fn is_active(&self) -> (r: bool)
        ensures
            r == self.spec_is_active(),
    {
        self.active && !self.is_deleted()
    }

    /// Set when the account was deleted.
    pub fn set_deleted(&mut self, deleted: Option<Timestamp>)
        ensures
            *final(self) == (Account { deleted, ..*old(self) }),
    {
        self.deleted = deleted;
    }

    /// Set whether the account is active.
    pub fn set_active(&mut self, active: bool)
        ensures
            *final(self) == (Account { active, ..*old(self) }),
    {
        self.active = active;
    }

    /// Set when the account was last updated.
    pub fn set_updated(&mut self, updated: Timestamp)
        ensures
            *final(self) == (Account { updated, ..*old(self) }),
    {
        self.updated = updated;
    }
}

/// What adjusting a balance by `amount` gives: the new balance, or the error.
pub open spec fn spec_adjust_balance(balance: Num, amount: Num) -> Result<Num, Error> {
    match spec_sum(balance, amount) {
        None => Err(Error::NumericOverflow),
        Some(b) => if b.value() < 0 {
            Err(Error::NegativeAccountBalance)
        } else {
            Ok(b)
        },
    }
}

impl Account {
    /// Adjust the account's balance by `amount` (which may be negative). The
    /// balance cannot go below zero. Returns the new balance.
    pub fn adjust_balance(&mut self, amount: Num) -> (r: Result<Num, Error>)
        ensures
            r == spec_adjust_balance(old(self).balance, amount),
            r is Ok ==> final(self).balance.value() >= 0,
            (r is Ok && add_is_exact(old(self).balance, amount, false)) ==> final(self).balance.value()
                == old(self).balance.value() + amount.value(),
            add_is_exact(old(self).balance, amount, false) ==> ((r is Ok <==> old(self).balance.value()
                + amount.value() >= 0) && (r is Err ==> r == Err::<Num, Error>(
                Error::NegativeAccountBalance,
            ))),
            final(self).balance == (match r {
                Ok(b) => b,
                Err(_) => old(self).balance,
            }),
            *final(self) == (Account { balance: final(self).balance, ..*old(self) }),
    {
        let new_amount = match self.balance.checked_add(&amount) {
            Some(b) => b,
            None => {
                return Err(Error::NumericOverflow);
            },
        };
        if new_amount.is_negative() {
            return Err(Error::NegativeAccountBalance);
        }
        self.balance = new_amount;
        Ok(self.balance)
    }
}

} // verus!
