//! The burn payload carried in a message body: 132 bytes. The amount is a 64-bit number in a
//! 32-byte slot whose 24 high-order bytes are zero.
use vstd::prelude::*;
use crate::bytes::{
    be_bytes, be_value, is_zero, lemma_be_round_trip, lemma_pow256_facts, lemma_be_value_bound,
    push_all, push_be, read_be, read_bytes32, zeros,
};
use crate::{GenericAddress, Pubkey};
use super::errors::Error;

verus! {

pub const VERSION_INDEX: usize = 0;
pub const BURN_TOKEN_INDEX: usize = 4;
pub const MINT_RECIPIENT_INDEX: usize = 36;
pub const AMOUNT_INDEX: usize = 68;
pub const MSG_SENDER_INDEX: usize = 100;
pub const BURN_MESSAGE_LEN: usize = 132;
/// Where the 8 amount bytes start within the 32-byte amount slot.
pub const AMOUNT_OFFSET: usize = 24;

/// The bytes of the burn payload with the given fields.
pub open spec fn burn_message_bytes(
    version: u32,
    burn_token: Seq<u8>,
    mint_recipient: Seq<u8>,
    amount: u64,
    message_sender: Seq<u8>,
) -> Seq<u8> {
    be_bytes(version as nat, 4) + burn_token + mint_recipient + zeros(24) + be_bytes(
        amount as nat,
        8,
    ) + message_sender
}

pub open spec fn burn_version(s: Seq<u8>) -> nat {
    be_value(s.subrange(0, 4))
}

pub open spec fn burn_token(s: Seq<u8>) -> Seq<u8> {
    s.subrange(4, 36)
}

pub open spec fn burn_mint_recipient(s: Seq<u8>) -> Seq<u8> {
    s.subrange(36, 68)
}

/// The high-order bytes of the amount slot.
pub open spec fn burn_amount_padding(s: Seq<u8>) -> Seq<u8> {
    s.subrange(68, 92)
}

pub open spec fn burn_amount(s: Seq<u8>) -> nat {
    be_value(s.subrange(92, 100))
}

pub open spec fn burn_message_sender(s: Seq<u8>) -> Seq<u8> {
    s.subrange(100, 132)
}

/// What parsing `s` against `expected_version` gives: the error, if any.
pub open spec fn burn_parse_error(expected_version: u32, s: Seq<u8>) -> Option<Error> {
    if s.len() < 132 {
        Some(Error::MalformedBurnMessage)
    } else if burn_version(s) != expected_version as nat {
        Some(Error::InvalidBurnMessageVersion)
    } else if burn_amount_padding(s) != zeros(24) {
        Some(Error::MalformedBurnMessage)
    } else {
        None
    }
}

/// Formatting the fields of a burn payload and reading them back gives the same fields, and
/// the high-order bytes of the amount slot are zero.
pub proof fn lemma_burn_message_round_trip(
    version: u32,
    burn_token_bytes: Seq<u8>,
    mint_recipient: Seq<u8>,
    amount: u64,
    message_sender: Seq<u8>,
)
    requires
        burn_token_bytes.len() == 32,
        mint_recipient.len() == 32,
        message_sender.len() == 32,
    ensures
        ({
            let s = burn_message_bytes(version, burn_token_bytes, mint_recipient, amount, message_sender);
            &&& s.len() == 132
            &&& burn_version(s) == version as nat
            &&& burn_token(s) == burn_token_bytes
            &&& burn_mint_recipient(s) == mint_recipient
            &&& burn_amount_padding(s) == zeros(24)
            &&& burn_amount(s) == amount as nat
            &&& burn_message_sender(s) == message_sender
            &&& burn_parse_error(version, s) is None
        }),
{
    lemma_pow256_facts();
    lemma_be_round_trip(version as nat, 4);
    lemma_be_round_trip(amount as nat, 8);
    let s = burn_message_bytes(version, burn_token_bytes, mint_recipient, amount, message_sender);
    assert(s.subrange(0, 4) =~= be_bytes(version as nat, 4));
    assert(burn_token(s) =~= burn_token_bytes);
    assert(burn_mint_recipient(s) =~= mint_recipient);
    assert(burn_amount_padding(s) =~= zeros(24));
    assert(s.subrange(92, 100) =~= be_bytes(amount as nat, 8));
    assert(burn_message_sender(s) =~= message_sender);
}

/// Every amount below 2^64 survives formatting and parsing, although its slot is wider.
pub proof fn lemma_amount_round_trip(amount: u64)
    ensures
        forall|version: u32, token: Seq<u8>, recipient: Seq<u8>, sender: Seq<u8>|
            token.len() == 32 && recipient.len() == 32 && sender.len() == 32 ==> #[trigger]
            burn_amount(burn_message_bytes(version, token, recipient, amount, sender))
                == amount as nat,
{
    assert forall|version: u32, token: Seq<u8>, recipient: Seq<u8>, sender: Seq<u8>|
        token.len() == 32 && recipient.len() == 32 && sender.len() == 32 implies #[trigger]
        burn_amount(burn_message_bytes(version, token, recipient, amount, sender))
            == amount as nat by {
        lemma_burn_message_round_trip(version, token, recipient, amount, sender);
    }
}

/// A burn payload whose length, version and amount slot have been checked.
pub struct BurnMessage {
    data: Vec<u8>,
}

impl View for BurnMessage {
    type V = Seq<u8>;

    closed spec fn view(&self) -> Seq<u8> {
        self.data@
    }
}

impl BurnMessage {
    /// Parses `message_bytes`; fails if it is shorter than 132 bytes, of another version, or
    /// if its amount does not fit in 64 bits.
    pub fn new(expected_version: u32, message_bytes: &[u8]) -> (r: Result<BurnMessage, Error>)
        ensures
            match burn_parse_error(expected_version, message_bytes@) {
                Some(e) => r == Err::<BurnMessage, Error>(e),
                None => r is Ok && r->Ok_0@ == message_bytes@,
            },
    {
        if message_bytes.len() < BURN_MESSAGE_LEN {
            return Err(Error::MalformedBurnMessage);
        }
        let version = read_be(message_bytes, VERSION_INDEX, 4);
        if version != expected_version as u64 {
            return Err(Error::InvalidBurnMessageVersion);
        }
        let padding = &message_bytes[AMOUNT_INDEX..AMOUNT_INDEX + AMOUNT_OFFSET];
        assert(padding@ =~= burn_amount_padding(message_bytes@));
        if !is_zero(padding) {
            return Err(Error::MalformedBurnMessage);
        }
        let mut data: Vec<u8> = Vec::new();
        push_all(&mut data, message_bytes);
        assert(data@ =~= message_bytes@);
        Ok(BurnMessage { data })
    }

    /// The bytes of a burn payload with the given fields.
    pub fn format_message(
        version: u32,
        burn_token: &GenericAddress,
        mint_recipient: &Pubkey,
        amount: u64,
        message_sender: &GenericAddress,
    ) -> (r: Vec<u8>)
        ensures
            r@ == burn_message_bytes(version, burn_token@, mint_recipient@, amount, message_sender@),
    {
        let mut output: Vec<u8> = Vec::new();
        push_be(&mut output, version as u64, 4);
        push_all(&mut output, burn_token);
        push_all(&mut output, mint_recipient);
        let padding: [u8; 24] = [0u8; 24];
        assert(padding@ =~= zeros(24));
        push_all(&mut output, &padding);
        push_be(&mut output, amount, 8);
        push_all(&mut output, message_sender);
        assert(output@ =~= burn_message_bytes(
            version,
            burn_token@,
            mint_recipient@,
            amount,
            message_sender@,
        ));
        output
    }

    pub fn version(&self) -> (r: u32)
        requires
            self@.len() >= 132,
        ensures
            r as nat == burn_version(self@),
    {
        proof {
            lemma_pow256_facts();
            lemma_be_value_bound(self@.subrange(0, 4));
        }
        read_be(self.data.as_slice(), VERSION_INDEX, 4) as u32
    }

    pub fn burn_token(&self) -> (r: Pubkey)
        requires
            self@.len() >= 132,
        ensures
            r@ == burn_token(self@),
    {
        read_bytes32(self.data.as_slice(), BURN_TOKEN_INDEX)
    }

    pub fn mint_recipient(&self) -> (r: Pubkey)
        requires
            self@.len() >= 132,
        ensures
            r@ == burn_mint_recipient(self@),
    {
        read_bytes32(self.data.as_slice(), MINT_RECIPIENT_INDEX)
    }

    pub fn amount(&self) -> (r: u64)
        requires
            self@.len() >= 132,
        ensures
            r as nat == burn_amount(self@),
    {
        read_be(self.data.as_slice(), AMOUNT_INDEX + AMOUNT_OFFSET, 8)
    }

    pub fn message_sender(&self) -> (r: Pubkey)
        requires
            self@.len() >= 132,
        ensures
            r@ == burn_message_sender(self@),
    {
        read_bytes32(self.data.as_slice(), MSG_SENDER_INDEX)
    }
}

} // verus!
