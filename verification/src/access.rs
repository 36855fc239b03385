//! The system-wide permissions and the roles that hold them.
//!
//! Roles can have multiple permissions. Permissions are additive: everyone
//! starts with *no* permissions (and gets `Error::InsufficientPrivileges`) and
//! permissions are added from there. Generally the access system applies to
//! users.

use crate::error::Error;
use vstd::prelude::*;

verus! {

/// The system-wide permissions.
///
/// Note there may be per-model permissions that are handled separately.
#[derive(Debug, PartialEq)]
pub enum Permission {
    All,
    AllBut(Vec<Permission>),
    AccountCreate,
    AccountDelete,
    AccountSetOwners,
    AccountTransfer,
    AccountUpdate,
    CompanyAdminDelete,
    CompanyAdminUpdate,
    CompanyCreate,
    CompanyDelete,
    CompanyPayroll,
    CompanyUpdate,
    CompanyUpdateAgreements,
    CompanyUpdateCommitments,
    CompanyUpdateIntents,
    CompanyUpdateMembers,
    CompanyUpdateResources,
    CompanyUpdateResourceSpecs,
    CompanyUpdateProcesses,
    CompanyUpdateProcessSpecs,
    CurrencyCreate,
    CurrencyDelete,
    CurrencyUpdate,
    EventCreate,
    EventUpdate,
    UserAdminCreate,
    UserAdminUpdate,
    UserCreate,
    UserDelete,
    UserSetRoles,
    UserUpdate,
    ResourceSpecCreate,
    ResourceSpecDelete,
    ResourceSpecUpdate,
    OccupationCreate,
    OccupationDelete,
    OccupationUpdate,
    RegionCreate,
    RegionDelete,
}

impl Permission {
    /// A number that tells the variants apart.
    pub open spec fn spec_tag(self) -> u8 {
        match self {
            Permission::All => 0u8,
            Permission::AllBut(_) => 1u8,
            Permission::AccountCreate => 2u8,
            Permission::AccountDelete => 3u8,
            Permission::AccountSetOwners => 4u8,
            Permission::AccountTransfer => 5u8,
            Permission::AccountUpdate => 6u8,
            Permission::CompanyAdminDelete => 7u8,
            Permission::CompanyAdminUpdate => 8u8,
            Permission::CompanyCreate => 9u8,
            Permission::CompanyDelete => 10u8,
            Permission::CompanyPayroll => 11u8,
            Permission::CompanyUpdate => 12u8,
            Permission::CompanyUpdateAgreements => 13u8,
            Permission::CompanyUpdateCommitments => 14u8,
            Permission::CompanyUpdateIntents => 15u8,
            Permission::CompanyUpdateMembers => 16u8,
            Permission::CompanyUpdateResources => 17u8,
            Permission::CompanyUpdateResourceSpecs => 18u8,
            Permission::CompanyUpdateProcesses => 19u8,
            Permission::CompanyUpdateProcessSpecs => 20u8,
            Permission::CurrencyCreate => 21u8,
            Permission::CurrencyDelete => 22u8,
            Permission::CurrencyUpdate => 23u8,
            Permission::EventCreate => 24u8,
            Permission::EventUpdate => 25u8,
            Permission::UserAdminCreate => 26u8,
            Permission::UserAdminUpdate => 27u8,
            Permission::UserCreate => 28u8,
            Permission::UserDelete => 29u8,
            Permission::UserSetRoles => 30u8,
            Permission::UserUpdate => 31u8,
            Permission::ResourceSpecCreate => 32u8,
            Permission::ResourceSpecDelete => 33u8,
            Permission::ResourceSpecUpdate => 34u8,
            Permission::OccupationCreate => 35u8,
            Permission::OccupationDelete => 36u8,
            Permission::OccupationUpdate => 37u8,
            Permission::RegionCreate => 38u8,
            Permission::RegionDelete => 39u8,
        }
    }

    /// The variant number (see `spec_tag`).
    pub fn tag(&self) -> (r: u8)
        ensures
            r == self.spec_tag(),
    {
        match self {
            Permission::All => 0u8,
            Permission::AllBut(_) => 1u8,
            Permission::AccountCreate => 2u8,
            Permission::AccountDelete => 3u8,
            Permission::AccountSetOwners => 4u8,
            Permission::AccountTransfer => 5u8,
            Permission::AccountUpdate => 6u8,
            Permission::CompanyAdminDelete => 7u8,
            Permission::CompanyAdminUpdate => 8u8,
            Permission::CompanyCreate => 9u8,
            Permission::CompanyDelete => 10u8,
            Permission::CompanyPayroll => 11u8,
            Permission::CompanyUpdate => 12u8,
            Permission::CompanyUpdateAgreements => 13u8,
            Permission::CompanyUpdateCommitments => 14u8,
            Permission::CompanyUpdateIntents => 15u8,
            Permission::CompanyUpdateMembers => 16u8,
            Permission::CompanyUpdateResources => 17u8,
            Permission::CompanyUpdateResourceSpecs => 18u8,
            Permission::CompanyUpdateProcesses => 19u8,
            Permission::CompanyUpdateProcessSpecs => 20u8,
            Permission::CurrencyCreate => 21u8,
            Permission::CurrencyDelete => 22u8,
            Permission::CurrencyUpdate => 23u8,
            Permission::EventCreate => 24u8,
            Permission::EventUpdate => 25u8,
            Permission::UserAdminCreate => 26u8,
            Permission::UserAdminUpdate => 27u8,
            Permission::UserCreate => 28u8,
            Permission::UserDelete => 29u8,
            Permission::UserSetRoles => 30u8,
            Permission::UserUpdate => 31u8,
            Permission::ResourceSpecCreate => 32u8,
            Permission::ResourceSpecDelete => 33u8,
            Permission::ResourceSpecUpdate => 34u8,
            Permission::OccupationCreate => 35u8,
            Permission::OccupationDelete => 36u8,
            Permission::OccupationUpdate => 37u8,
            Permission::RegionCreate => 38u8,
            Permission::RegionDelete => 39u8,
        }
    }

    /// Whether `self`, which holds no list, is the same permission as `other`.
    pub fn same_as(&self, other: &Permission) -> (r: bool)
        requires
            !(self is AllBut),
        ensures
            r == (*self == *other),
    {
        self.tag() == other.tag()
    }
}

/// The system-wide roles users can have.
#[derive(Clone, Copy, Debug, PartialEq, Eq, Structural)]
pub enum Role {
    SuperAdmin,
    IdentityAdmin,
    CompanyAdmin,
    Bank,
    User,
    Guest,
}

/// The permissions each role holds, in order.
pub open spec fn role_permissions(role: Role) -> Seq<Permission> {
    match role {
        Role::SuperAdmin => seq![Permission::All],
        Role::IdentityAdmin => seq![Permission::UserUpdate, Permission::UserSetRoles, Permission::UserAdminCreate, Permission::UserAdminUpdate, Permission::UserDelete],
        Role::CompanyAdmin => seq![Permission::CompanyAdminUpdate, Permission::CompanyAdminDelete],
        Role::Bank => seq![Permission::CurrencyCreate, Permission::CurrencyUpdate, Permission::CurrencyDelete],
        Role::User => seq![Permission::UserUpdate, Permission::UserDelete, Permission::CompanyCreate, Permission::CompanyDelete, Permission::CompanyPayroll, Permission::CompanyUpdate, Permission::CompanyUpdateAgreements, Permission::CompanyUpdateCommitments, Permission::CompanyUpdateIntents, Permission::CompanyUpdateMembers, Permission::CompanyUpdateResourceSpecs, Permission::CompanyUpdateResources, Permission::CompanyUpdateProcessSpecs, Permission::CompanyUpdateProcesses, Permission::ResourceSpecCreate, Permission::ResourceSpecUpdate, Permission::ResourceSpecDelete, Permission::AccountCreate, Permission::AccountUpdate, Permission::AccountSetOwners, Permission::AccountTransfer, Permission::AccountDelete, Permission::EventCreate, Permission::EventUpdate],
        Role::Guest => seq![Permission::UserCreate],
    }
}

/// Whether a list of permissions allows `perm`: it holds `All`, or it holds
/// `perm` itself.
pub open spec fn permissions_allow(perms: Seq<Permission>, perm: Permission) -> bool {
    perms.contains(Permission::All) || perms.contains(perm)
}

/// Whether a role has a permission.
pub open spec fn role_can(role: Role, perm: Permission) -> bool {
    permissions_allow(role_permissions(role), perm)
}

impl Role {
    /// For a given role, return the permissions that role has access to.
    pub fn permissions(&self) -> (r: Vec<Permission>)
        ensures
            r@ == role_permissions(*self),
    {
        match *self {
            Role::SuperAdmin => {
                let mut v: Vec<Permission> = Vec::new();
                v.push(Permission::All);
                assert(v@ =~= role_permissions(Role::SuperAdmin));
                v
            },
            Role::IdentityAdmin => {
                let mut v: Vec<Permission> = Vec::new();
                v.push(Permission::UserUpdate);
                v.push(Permission::UserSetRoles);
                v.push(Permission::UserAdminCreate);
                v.push(Permission::UserAdminUpdate);
                v.push(Permission::UserDelete);
                assert(v@ =~= role_permissions(Role::IdentityAdmin));
                v
            },
            Role::CompanyAdmin => {
                let mut v: Vec<Permission> = Vec::new();
                v.push(Permission::CompanyAdminUpdate);
                v.push(Permission::CompanyAdminDelete);
                assert(v@ =~= role_permissions(Role::CompanyAdmin));
                v
            },
            Role::Bank => {
                let mut v: Vec<Permission> = Vec::new();
                v.push(Permission::CurrencyCreate);
                v.push(Permission::CurrencyUpdate);
                v.push(Permission::CurrencyDelete);
                assert(v@ =~= role_permissions(Role::Bank));
                v
            },
            Role::User => {
                let mut v: Vec<Permission> = Vec::new();
                v.push(Permission::UserUpdate);
                v.push(Permission::UserDelete);
                v.push(Permission::CompanyCreate);
                v.push(Permission::CompanyDelete);
                v.push(Permission::CompanyPayroll);
                v.push(Permission::CompanyUpdate);
                v.push(Permission::CompanyUpdateAgreements);
                v.push(Permission::CompanyUpdateCommitments);
                v.push(Permission::CompanyUpdateIntents);
                v.push(Permission::CompanyUpdateMembers);
                v.push(Permission::CompanyUpdateResourceSpecs);
                v.push(Permission::CompanyUpdateResources);
                v.push(Permission::CompanyUpdateProcessSpecs);
                v.push(Permission::CompanyUpdateProcesses);
                v.push(Permission::ResourceSpecCreate);
                v.push(Permission::ResourceSpecUpdate);
                v.push(Permission::ResourceSpecDelete);
                v.push(Permission::AccountCreate);
                v.push(Permission::AccountUpdate);
                v.push(Permission::AccountSetOwners);
                v.push(Permission::AccountTransfer);
                v.push(Permission::AccountDelete);
                v.push(Permission::EventCreate);
                v.push(Permission::EventUpdate);
                assert(v@ =~= role_permissions(Role::User));
                v
            },
            Role::Guest => {
                let mut v: Vec<Permission> = Vec::new();
                v.push(Permission::UserCreate);
                assert(v@ =~= role_permissions(Role::Guest));
                v
            },
        }
    }

    /// Determine if a role has a specific permission.
    pub fn can(&self, perm: &Permission) -> (r: bool)
        ensures
            r == role_can(*self, *perm),
    {
        let perms = self.permissions();
        assert(forall|j: int| 0 <= j < perms@.len() ==> !(#[trigger] perms@[j] is AllBut));
        let mut i: usize = 0;
        while i < perms.len()
            invariant
                perms@ == role_permissions(*self),
                forall|j: int| 0 <= j < perms@.len() ==> !(#[trigger] perms@[j] is AllBut),
                0 <= i <= perms.len(),
                forall|j: int| 0 <= j < i ==> #[trigger] perms@[j] != Permission::All && perms@[j]
                    != *perm,
            decreases perms.len() - i,
        {
            let p = &perms[i];
            match p {
                Permission::All => {
                    assert(perms@.contains(Permission::All)) by {
                        assert(perms@[i as int] == Permission::All);
                    }
                    return true;
                },
                Permission::AllBut(x) => {
                    // no role holds an exclusion list
                    assert(false);
                    return false;
                },
                _ => {
                    if p.same_as(perm) {
                        assert(perms@[i as int] == *perm);
                        return true;
                    }
                },
            }
            i = i + 1;
        }
        proof {
            assert(!perms@.contains(Permission::All));
            assert(!perms@.contains(*perm));
        }
        false
    }
}

/// Check if a guest can perform an action.
pub fn guest_check(perm: Permission) -> (r: Result<(), Error>)
    ensures
        r is Ok <==> role_can(Role::Guest, perm),
        r is Err ==> r == Err::<(), Error>(Error::InsufficientPrivileges),
{
    if (Role::Guest).can(&perm) {
        Ok(())
    } else {
        Err(Error::InsufficientPrivileges)
    }
}

} // verus!
