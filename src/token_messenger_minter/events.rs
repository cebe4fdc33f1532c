use vstd::prelude::*;
use crate::GenericAddress;

verus! {

/// Tokens were burned here, to be minted on the destination domain.
#[derive(Debug, Clone, Copy, PartialEq, Eq)]
pub struct DepositForBurn {
    pub nonce: u64,
    pub burn_token: GenericAddress,
    pub amount: u64,
    pub depositor: GenericAddress,
    pub mint_recipient: GenericAddress,
    pub destination_domain: u32,
    pub destination_token_messenger: GenericAddress,
    pub destination_caller: GenericAddress,
}

/// Tokens were minted here for a burn on another domain.
#[derive(Debug, Clone, Copy, PartialEq, Eq)]
pub struct MintAndWithdraw {
    pub mint_recipient: GenericAddress,
    pub amount: u64,
    pub mint_token: GenericAddress,
}

#[derive(Debug, Clone, Copy, PartialEq, Eq)]
pub struct RemoteTokenMessengerAdded {
    pub domain: u32,
    pub token_messenger: GenericAddress,
}

#[derive(Debug, Clone, Copy, PartialEq, Eq)]
pub struct RemoteTokenMessengerRemoved {
    pub domain: u32,
    pub token_messenger: GenericAddress,
}

#[derive(Debug, Clone, Copy, PartialEq, Eq)]
pub struct TokenPairLinked {
    pub local_token: GenericAddress,
    pub remote_token: GenericAddress,
    pub domain: u32,
}

#[derive(Debug, Clone, Copy, PartialEq, Eq)]
pub struct TokenPairUnlinked {
    pub local_token: GenericAddress,
    pub remote_token: GenericAddress,
    pub domain: u32,
}

} // verus!
