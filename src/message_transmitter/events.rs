use vstd::prelude::*;
use crate::GenericAddress;

verus! {

/// A message was sent: its encoded bytes, for relayers to pick up.
#[derive(Debug, Clone, PartialEq, Eq)]
pub struct MessageSent {
    pub message: Vec<u8>,
}

/// A message was received and its nonce used.
#[derive(Debug, Clone, PartialEq, Eq)]
pub struct MessageReceived {
    pub caller: GenericAddress,
    pub source_domain: u32,
    pub nonce: u64,
    pub sender: GenericAddress,
    pub message_body: Vec<u8>,
}

} // verus!
