//! A cross-domain message bridge: a value is burned on one domain and minted on another,
//! once a group of attesters has co-signed the message that carries the instruction.
use vstd::prelude::*;

pub mod bytes;
pub mod crypto;
pub mod message_transmitter;
pub mod stablecoin;
pub mod token_messenger_minter;



verus! {

/// A 32-byte public key.
pub type Pubkey = [u8; 32];

/// A chain-agnostic 32-byte identity.
pub type GenericAddress = [u8; 32];

/// The 20-byte identifier of an attester, derived from its public key.
pub type EthAddress = [u8; 20];

/// An address on this chain: an account or a contract, each named by 32 bytes.
#[derive(Debug, Clone, Copy)]
pub enum Address {
    Account(GenericAddress),
    Contract(GenericAddress),
}

impl Address {
    /// The 32 bytes that name the address, without its kind.
    pub open spec fn hash(self) -> GenericAddress {
        match self {
            Address::Account(h) => h,
            Address::Contract(h) => h,
        }
    }

    /// Whether the two addresses are the same.
    pub fn equals(&self, other: &Address) -> (r: bool)
        ensures
            r == (*self == *other),
    {
        match (self, other) {
            (Address::Account(a), Address::Account(b)) => {
                let r = crate::bytes::bytes_equal(a, b);
                if r {
                    assert(*a =~= *b);
                }
                r
            },
            (Address::Contract(a), Address::Contract(b)) => {
                let r = crate::bytes::bytes_equal(a, b);
                if r {
                    assert(*a =~= *b);
                }
                r
            },
            _ => false,
        }
    }
}

impl PartialEq for Address {
    fn eq(&self, other: &Address) -> (r: bool) {
        self.equals(other)
    }
}

impl vstd::std_specs::cmp::PartialEqSpecImpl for Address {
    open spec fn obeys_eq_spec() -> bool {
        true
    }

    open spec fn eq_spec(&self, other: &Address) -> bool {
        *self == *other
    }
}

impl Eq for Address {
}

/// The chain-agnostic form of an address: its 32 bytes, without its kind.
pub fn generic_address(address: Address) -> (r: GenericAddress)
    ensures
        r == address.hash(),
{
    match address {
        Address::Account(h) => h,
        Address::Contract(h) => h,
    }
}

/// The account whose chain-agnostic form is `generic_address`.
pub fn generic_address_to_account_address(generic_address: GenericAddress) -> (r: Address)
    ensures
        r == Address::Account(generic_address),
{
    Address::Account(generic_address)
}

/// The contract whose chain-agnostic form is `generic_address`.
pub fn generic_address_to_contract_address(generic_address: GenericAddress) -> (r: Address)
    ensures
        r == Address::Contract(generic_address),
{
    Address::Contract(generic_address)
}

/// The class of a failure, shared by every component.
#[derive(Debug, Clone, Copy, PartialEq, Eq, Structural)]
pub enum ErrorKind {
    /// The caller is not the owner, the pending owner, or the registered transmitter.
    AccessControl,
    /// The operation was attempted while paused.
    Lifecycle,
    /// A message, a payload or an attestation is malformed.
    Format,
    /// The nonce was already used.
    Replay,
    /// An argument or a decoded field is not acceptable.
    Validation,
    /// An attestation signature does not hold.
    Signature,
}

} // verus!
