use vstd::prelude::*;
use crate::GenericAddress;
use super::storage::Role;

verus! {

/// An account was given a role.
#[derive(Debug, Clone, Copy, PartialEq, Eq)]
pub struct RoleConfigured {
    pub role: Role,
    pub account: GenericAddress,
}

/// An account lost a role it had.
#[derive(Debug, Clone, Copy, PartialEq, Eq)]
pub struct RoleRevoked {
    pub role: Role,
    pub account: GenericAddress,
}

} // verus!
