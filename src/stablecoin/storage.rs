//! Which accounts hold which roles. Every grant and revocation is kept in order; an account
//! holds a role when the latest write for that pair grants it.
use vstd::prelude::*;
use crate::bytes::bytes_equal;
use crate::GenericAddress;
use super::events::{RoleConfigured, RoleRevoked};

verus! {

/// A role, named by 32 bytes.
pub type Role = [u8; 32];

/// The roles the ledger knows, each named by 32 equal bytes.
#[derive(Debug, Clone, Copy, PartialEq, Eq, Structural)]
pub enum Roles {
    Minter,
    MasterMinter,
    Blacklister,
    Blacklisted,
    Pauser,
    Controller,
    Owner,
}

impl Roles {
    /// The byte that each of the role's 32 bytes holds.
    pub open spec fn tag(self) -> u8 {
        match self {
            Roles::Minter => 0,
            Roles::MasterMinter => 1,
            Roles::Blacklister => 2,
            Roles::Blacklisted => 3,
            Roles::Pauser => 4,
            Roles::Controller => 5,
            Roles::Owner => 6,
        }
    }

    /// The 32 bytes that name the role.
    pub fn id(self) -> (r: Role)
        ensures
            r@ == Seq::new(32, |i: int| self.tag()),
    {
        let tag: u8 = match self {
            Roles::Minter => 0,
            Roles::MasterMinter => 1,
            Roles::Blacklister => 2,
            Roles::Blacklisted => 3,
            Roles::Pauser => 4,
            Roles::Controller => 5,
            Roles::Owner => 6,
        };
        let r: Role = [tag; 32];
        assert(r@ =~= Seq::new(32, |i: int| self.tag()));
        r
    }
}

/// Whether the writes in `entries` leave `account` holding `role`.
pub open spec fn holds_in(entries: Seq<(Role, GenericAddress, bool)>, role: Seq<u8>, account: Seq<u8>) -> bool
    decreases entries.len(),
{
    if entries.len() == 0 {
        false
    } else if entries.last().0@ == role && entries.last().1@ == account {
        entries.last().2
    } else {
        holds_in(entries.drop_last(), role, account)
    }
}

/// The roles of the ledger's accounts.
#[derive(Debug, Clone)]
pub struct StablecoinRoles {
    roles: Vec<(Role, GenericAddress, bool)>,
}

impl StablecoinRoles {
    /// The (role, account) pairs in force.
    pub closed spec fn granted(&self) -> Set<(Seq<u8>, Seq<u8>)> {
        Set::new(|p: (Seq<u8>, Seq<u8>)| holds_in(self.roles@, p.0, p.1))
    }

    /// No account holds any role.
    pub fn new() -> (r: StablecoinRoles)
        ensures
            r.granted() == Set::<(Seq<u8>, Seq<u8>)>::empty(),
    {
        let r = StablecoinRoles { roles: Vec::new() };
        assert(r.granted() =~= Set::<(Seq<u8>, Seq<u8>)>::empty());
        r
    }

    /// Gives `role` to `account`.
    pub fn configure_role(&mut self, role: &Role, account: &GenericAddress) -> (r: RoleConfigured)
        ensures
            final(self).granted() == old(self).granted().insert((role@, account@)),
            r == (RoleConfigured { role: *role, account: *account }),
    {
        self.roles.push((*role, *account, true));
        assert(final(self).roles@.drop_last() == old(self).roles@);
        assert(final(self).granted() =~= old(self).granted().insert((role@, account@)));
        RoleConfigured { role: *role, account: *account }
    }

    /// Takes `role` from `account`; tells of it only if the account held it.
    pub fn revoke_role(&mut self, role: &Role, account: &GenericAddress) -> (r: Option<RoleRevoked>)
        ensures
            final(self).granted() == old(self).granted().remove((role@, account@)),
            old(self).granted().contains((role@, account@)) ==> r == Some(
                RoleRevoked { role: *role, account: *account },
            ),
            !old(self).granted().contains((role@, account@)) ==> r is None,
    {
        if self.has_role(role, account) {
            self.roles.push((*role, *account, false));
            assert(final(self).roles@.drop_last() == old(self).roles@);
            assert(final(self).granted() =~= old(self).granted().remove((role@, account@)));
            Some(RoleRevoked { role: *role, account: *account })
        } else {
            assert(old(self).granted().remove((role@, account@)) =~= old(self).granted());
            None
        }
    }

    /// Whether `account` holds `role`.
    pub fn has_role(&self, role: &Role, account: &GenericAddress) -> (r: bool)
        ensures
            r == self.granted().contains((role@, account@)),
    {
        let mut i: usize = self.roles.len();
        assert(self.roles@.subrange(0, i as int) =~= self.roles@);
        while i > 0
            invariant
                i <= self.roles@.len(),
                holds_in(self.roles@, role@, account@) == holds_in(
                    self.roles@.subrange(0, i as int),
                    role@,
                    account@,
                ),
            decreases i,
        {
            let ghost prefix = self.roles@.subrange(0, i as int);
            let entry = &self.roles[i - 1];
            if bytes_equal(&entry.0, role) && bytes_equal(&entry.1, account) {
                return entry.2;
            }
            assert(prefix.drop_last() =~= self.roles@.subrange(0, i - 1));
            i = i - 1;
        }
        false
    }

    pub fn is_minter(&self, account: &GenericAddress) -> (r: bool)
        ensures
            r == self.granted().contains((Seq::new(32, |i: int| Roles::Minter.tag()), account@)),
    {
        self.has_role(&Roles::Minter.id(), account)
    }

    pub fn is_master_minter(&self, account: &GenericAddress) -> (r: bool)
        ensures
            r == self.granted().contains((Seq::new(32, |i: int| Roles::MasterMinter.tag()), account@)),
    {
        self.has_role(&Roles::MasterMinter.id(), account)
    }

    pub fn is_blacklister(&self, account: &GenericAddress) -> (r: bool)
        ensures
            r == self.granted().contains((Seq::new(32, |i: int| Roles::Blacklister.tag()), account@)),
    {
        self.has_role(&Roles::Blacklister.id(), account)
    }

    pub fn is_blacklisted(&self, account: &GenericAddress) -> (r: bool)
        ensures
            r == self.granted().contains((Seq::new(32, |i: int| Roles::Blacklisted.tag()), account@)),
    {
        self.has_role(&Roles::Blacklisted.id(), account)
    }

    pub fn is_pauser(&self, account: &GenericAddress) -> (r: bool)
        ensures
            r == self.granted().contains((Seq::new(32, |i: int| Roles::Pauser.tag()), account@)),
    {
        self.has_role(&Roles::Pauser.id(), account)
    }

    pub fn is_controller(&self, account: &GenericAddress) -> (r: bool)
        ensures
            r == self.granted().contains((Seq::new(32, |i: int| Roles::Controller.tag()), account@)),
    {
        self.has_role(&Roles::Controller.id(), account)
    }

    pub fn is_owner(&self, account: &GenericAddress) -> (r: bool)
        ensures
            r == self.granted().contains((Seq::new(32, |i: int| Roles::Owner.tag()), account@)),
    {
        self.has_role(&Roles::Owner.id(), account)
    }
}

} // verus!
