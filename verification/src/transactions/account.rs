//! Accounts: creating them, updating them, setting their owners, moving
//! credits between them and deleting them.

use crate::access::Permission;
use crate::error::Error;
use crate::models::account::{spec_adjust_balance, Account, AccountID, AccountView, Multisig};
use crate::models::user::{user_can, User, UserID};
use crate::models::{Model, ModelView, ModificationView, Modifications, Op};
use crate::num::{add_is_exact, pow10, Num};
use crate::time::Timestamp;
use crate::transactions::{deleted, is_deleted_err, pick, single};
use vstd::prelude::*;

verus! {

/// Whether `user` is among the owners `ids`.
pub open spec fn is_owner(ids: Seq<UserID>, user: UserID) -> bool {
    exists|i: int| 0 <= i < ids.len() && #[trigger] ids[i]@ == user@
}

/// Whether `user` is among the owners `ids`.
fn owns(ids: &Vec<UserID>, user: &UserID) -> (r: bool)
    ensures
        r == is_owner(ids@, *user),
{
    let mut i: usize = 0;
    while i < ids.len()
        invariant
            i <= ids@.len(),
            forall|j: int| 0 <= j < i ==> #[trigger] ids@[j]@ != user@,
        decreases ids.len() - i,
    {
        if ids[i] == *user {
            return true;
        }
        i = i + 1;
    }
    false
}

/// Whether the caller may do `permission` to an account with owners `ids`:
/// it has the permission and is an owner.
pub open spec fn may_use(caller: User, ids: Seq<UserID>, permission: Permission) -> bool {
    user_can(caller, permission) && is_owner(ids, caller.id)
}

fn check(caller: &User, ids: &Vec<UserID>, permission: Permission) -> (r: Result<(), Error>)
    ensures
        r is Ok <==> may_use(*caller, ids@, permission),
        r is Err ==> r == Err::<(), Error>(Error::InsufficientPrivileges),
{
    match caller.access_check(permission) {
        Ok(()) => {},
        Err(e) => {
            return Err(e);
        },
    }
    if !owns(ids, &caller.id) {
        return Err(Error::InsufficientPrivileges);
    }
    Ok(())
}

/// Create an account, with a zero balance. The caller must be among its
/// owners.
pub fn create(
    caller: &User,
    id: AccountID,
    user_ids: Vec<UserID>,
    multisig: Vec<Multisig>,
    name: String,
    description: String,
    active: bool,
    now: &Timestamp,
) -> (r: Result<Modifications, Error>)
    ensures
        r is Ok <==> may_use(*caller, user_ids@, Permission::AccountCreate),
        r is Err ==> r == Err::<Modifications, Error>(Error::InsufficientPrivileges),
        r matches Ok(m) ==> m@ == single(
            Op::Create,
            ModelView::Account(
                AccountView {
                    id,
                    user_ids: user_ids@,
                    multisig: multisig@,
                    name,
                    description,
                    balance: Num::spec_zero(),
                    ubi: None,
                    active,
                    created: *now,
                    updated: *now,
                    deleted: None,
                },
            ),
        ),
{
    match check(caller, &user_ids, Permission::AccountCreate) {
        Ok(()) => {},
        Err(e) => {
            return Err(e);
        },
    }
    let model = Account {
        id,
        user_ids,
        multisig,
        name,
        description,
        balance: Num::zero(),
        ubi: None,
        active,
        created: *now,
        updated: *now,
        deleted: None,
    };
    Ok(Modifications::new_single(Op::Create, Model::Account(model)))
}

/// Update an account's name, description or active flag (those given).
pub fn update(
    caller: &User,
    subject: Account,
    name: Option<String>,
    description: Option<String>,
    active: Option<bool>,
    now: &Timestamp,
) -> (r: Result<Modifications, Error>)
    ensures
        r is Ok <==> may_use(*caller, subject.user_ids@, Permission::AccountUpdate),
        r is Err ==> r == Err::<Modifications, Error>(Error::InsufficientPrivileges),
        r matches Ok(m) ==> m@ == single(
            Op::Update,
            ModelView::Account(
                AccountView {
                    name: pick(name, subject.name),
                    description: pick(description, subject.description),
                    active: pick(active, subject.active),
                    updated: *now,
                    ..subject@
                },
            ),
        ),
{
    match check(caller, &subject.user_ids, Permission::AccountUpdate) {
        Ok(()) => {},
        Err(e) => {
            return Err(e);
        },
    }
    let mut subject = subject;
    if let Some(name) = name {
        subject.name = name;
    }
    if let Some(description) = description {
        subject.description = description;
    }
    if let Some(active) = active {
        subject.active = active;
    }
    subject.updated = *now;
    Ok(Modifications::new_single(Op::Update, Model::Account(subject)))
}

/// Set an account's owners and multisig rules (those given).
pub fn set_owners(
    caller: &User,
    subject: Account,
    user_ids: Option<Vec<UserID>>,
    multisig: Option<Vec<Multisig>>,
    now: &Timestamp,
) -> (r: Result<Modifications, Error>)
    ensures
        r is Ok <==> may_use(*caller, subject.user_ids@, Permission::AccountSetOwners),
        r is Err ==> r == Err::<Modifications, Error>(Error::InsufficientPrivileges),
        r matches Ok(m) ==> m@ == single(
            Op::Update,
            ModelView::Account(
                AccountView {
                    user_ids: match user_ids {
                        Some(u) => u@,
                        None => subject.user_ids@,
                    },
                    multisig: match multisig {
                        Some(x) => x@,
                        None => subject.multisig@,
                    },
                    updated: *now,
                    ..subject@
                },
            ),
        ),
{
    match check(caller, &subject.user_ids, Permission::AccountSetOwners) {
        Ok(()) => {},
        Err(e) => {
            return Err(e);
        },
    }
    let mut subject = subject;
    if let Some(user_ids) = user_ids {
        subject.user_ids = user_ids;
    }
    if let Some(multisig) = multisig {
        subject.multisig = multisig;
    }
    subject.updated = *now;
    Ok(Modifications::new_single(Op::Update, Model::Account(subject)))
}

/// Whether moving `amount` from a balance `from` to a balance `to` leaves the
/// two balances summing to what they did before.
pub open spec fn balances_conserved(from: Num, to: Num, amount: Num) -> bool {
    match (
        spec_adjust_balance(from, Num::spec_new(-amount.mant(), amount.scl())),
        spec_adjust_balance(to, amount),
    ) {
        (Ok(b1), Ok(b2)) => b1.value() + b2.value() == from.value() + to.value(),
        _ => false,
    }
}

/// Move `amount` credits from one account to another. Neither balance can go
/// below zero. Credits are moved, not made: where `rust_decimal` adds
/// exactly, the two balances sum to what they did before.
pub fn transfer(caller: &User, subject: Account, to_account: Account, amount: Num, now: &Timestamp) -> (r:
    Result<Modifications, Error>)
    ensures
        (r is Ok && add_is_exact(subject.balance, Num::spec_new(-amount.mant(), amount.scl()), false)
            && add_is_exact(to_account.balance, amount, false)) ==> balances_conserved(
            subject.balance,
            to_account.balance,
            amount,
        ),
        !may_use(*caller, subject.user_ids@, Permission::AccountTransfer) ==> r == Err::<
            Modifications,
            Error,
        >(Error::InsufficientPrivileges),
        (may_use(*caller, subject.user_ids@, Permission::AccountTransfer) && add_is_exact(
            subject.balance,
            Num::spec_new(-amount.mant(), amount.scl()),
            false,
        ) && add_is_exact(to_account.balance, amount, false)) ==> ((r is Ok <==> (
        subject.balance.value() - amount.value() >= 0 && to_account.balance.value() + amount.value()
            >= 0)) && (r is Err ==> r == Err::<Modifications, Error>(Error::NegativeAccountBalance))),
        may_use(*caller, subject.user_ids@, Permission::AccountTransfer) ==> match spec_adjust_balance(
            subject.balance,
            Num::spec_new(-amount.mant(), amount.scl()),
        ) {
            Err(e) => r == Err::<Modifications, Error>(e),
            Ok(b1) => match spec_adjust_balance(to_account.balance, amount) {
                Err(e) => r == Err::<Modifications, Error>(e),
                Ok(b2) => r matches Ok(m) && m@ == seq![
                    ModificationView {
                        op: Op::Update,
                        model: ModelView::Account(
                            AccountView { balance: b1, updated: *now, ..subject@ },
                        ),
                    },
                    ModificationView {
                        op: Op::Update,
                        model: ModelView::Account(
                            AccountView { balance: b2, updated: *now, ..to_account@ },
                        ),
                    },
                ],
            },
        },
{
    match check(caller, &subject.user_ids, Permission::AccountTransfer) {
        Ok(()) => {},
        Err(e) => {
            return Err(e);
        },
    }
    let mut subject = subject;
    let mut to_account = to_account;
    let negated = amount.neg();
    proof {
        use_type_invariant(&amount);
        use_type_invariant(&negated);
        Num::lemma_spec_new(-amount.mant(), amount.scl());
        assert(negated.value() == -amount.value()) by (nonlinear_arith)
            requires
                negated.mant() == -amount.mant(),
                negated.scl() == amount.scl(),
                negated.value() == negated.mant() * pow10((28 - negated.scl()) as nat),
                amount.value() == amount.mant() * pow10((28 - amount.scl()) as nat),
        ;
    }
    match subject.adjust_balance(negated) {
        Ok(_) => {},
        Err(e) => {
            return Err(e);
        },
    }
    subject.updated = *now;
    match to_account.adjust_balance(amount) {
        Ok(_) => {},
        Err(e) => {
            return Err(e);
        },
    }
    to_account.updated = *now;
    let mut mods = Modifications::new();
    mods.push(Op::Update, Model::Account(subject));
    mods.push(Op::Update, Model::Account(to_account));
    Ok(mods)
}

/// Delete an account: its balance must be zero, and it cannot be deleted
/// already.
pub fn delete(caller: &User, subject: Account, now: &Timestamp) -> (r: Result<Modifications, Error>)
    ensures
        !may_use(*caller, subject.user_ids@, Permission::AccountDelete) ==> r == Err::<
            Modifications,
            Error,
        >(Error::InsufficientPrivileges),
        may_use(*caller, subject.user_ids@, Permission::AccountDelete) && subject.balance.value() != 0
            ==> r == Err::<Modifications, Error>(Error::CannotEraseCredits),
        may_use(*caller, subject.user_ids@, Permission::AccountDelete) && subject.balance.value() == 0
            && subject.spec_is_deleted() ==> (r matches Err(e) && is_deleted_err(e, "account"@)),
        r is Ok <==> may_use(*caller, subject.user_ids@, Permission::AccountDelete)
            && subject.balance.value() == 0 && !subject.spec_is_deleted(),
        r matches Ok(m) ==> m@ == single(
            Op::Delete,
            ModelView::Account(AccountView { deleted: Some(*now), ..subject@ }),
        ),
{
    match check(caller, &subject.user_ids, Permission::AccountDelete) {
        Ok(()) => {},
        Err(e) => {
            return Err(e);
        },
    }
    if !subject.balance.is_zero() {
        return Err(Error::CannotEraseCredits);
    }
    if subject.is_deleted() {
        return Err(deleted("account"));
    }
    let mut subject = subject;
    subject.set_deleted(Some(*now));
    Ok(Modifications::new_single(Op::Delete, Model::Account(subject)))
}

} // verus!
