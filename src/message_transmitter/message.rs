//! The cross-domain message envelope: a fixed 116-byte header followed by the body.
use vstd::prelude::*;
use crate::bytes::{be_bytes, be_value, lemma_be_round_trip, lemma_pow256_facts, push_all, push_be, read_be, read_bytes32};
use crate::crypto::{keccak256, keccak256_of};
use crate::{GenericAddress, Pubkey};
use super::errors::Error;

verus! {

pub const VERSION_INDEX: usize = 0;
pub const SOURCE_DOMAIN_INDEX: usize = 4;
pub const DESTINATION_DOMAIN_INDEX: usize = 8;
pub const NONCE_INDEX: usize = 12;
pub const SENDER_INDEX: usize = 20;
pub const RECIPIENT_INDEX: usize = 52;
pub const DESTINATION_CALLER_INDEX: usize = 84;
pub const MESSAGE_BODY_INDEX: usize = 116;

/// The bytes of the message with the given fields.
pub open spec fn message_bytes(
    version: u32,
    source_domain: u32,
    destination_domain: u32,
    nonce: u64,
    sender: Seq<u8>,
    recipient: Seq<u8>,
    destination_caller: Seq<u8>,
    body: Seq<u8>,
) -> Seq<u8> {
    be_bytes(version as nat, 4) + be_bytes(source_domain as nat, 4) + be_bytes(
        destination_domain as nat,
        4,
    ) + be_bytes(nonce as nat, 8) + sender + recipient + destination_caller + body
}

pub open spec fn message_version(s: Seq<u8>) -> nat {
    be_value(s.subrange(0, 4))
}

pub open spec fn message_source_domain(s: Seq<u8>) -> nat {
    be_value(s.subrange(4, 8))
}

pub open spec fn message_destination_domain(s: Seq<u8>) -> nat {
    be_value(s.subrange(8, 12))
}

pub open spec fn message_nonce(s: Seq<u8>) -> nat {
    be_value(s.subrange(12, 20))
}

pub open spec fn message_sender(s: Seq<u8>) -> Seq<u8> {
    s.subrange(20, 52)
}

pub open spec fn message_recipient(s: Seq<u8>) -> Seq<u8> {
    s.subrange(52, 84)
}

pub open spec fn message_destination_caller(s: Seq<u8>) -> Seq<u8> {
    s.subrange(84, 116)
}

pub open spec fn message_body(s: Seq<u8>) -> Seq<u8> {
    s.subrange(116, s.len() as int)
}

/// What parsing `s` against `expected_version` gives: the error, if any.
pub open spec fn message_parse_error(expected_version: u32, s: Seq<u8>) -> Option<Error> {
    if s.len() < 116 {
        Some(Error::MalformedMessage)
    } else if message_version(s) != expected_version as nat {
        Some(Error::InvalidMessageVersion)
    } else {
        None
    }
}

/// Formatting the fields of a message and reading them back gives the same fields.
pub proof fn lemma_message_round_trip(
    version: u32,
    source_domain: u32,
    destination_domain: u32,
    nonce: u64,
    sender: Seq<u8>,
    recipient: Seq<u8>,
    destination_caller: Seq<u8>,
    body: Seq<u8>,
)
    requires
        sender.len() == 32,
        recipient.len() == 32,
        destination_caller.len() == 32,
    ensures
        ({
            let s = message_bytes(
                version,
                source_domain,
                destination_domain,
                nonce,
                sender,
                recipient,
                destination_caller,
                body,
            );
            &&& s.len() == 116 + body.len()
            &&& message_version(s) == version as nat
            &&& message_source_domain(s) == source_domain as nat
            &&& message_destination_domain(s) == destination_domain as nat
            &&& message_nonce(s) == nonce as nat
            &&& message_sender(s) == sender
            &&& message_recipient(s) == recipient
            &&& message_destination_caller(s) == destination_caller
            &&& message_body(s) == body
        }),
{
    lemma_pow256_facts();
    lemma_be_round_trip(version as nat, 4);
    lemma_be_round_trip(source_domain as nat, 4);
    lemma_be_round_trip(destination_domain as nat, 4);
    lemma_be_round_trip(nonce as nat, 8);
    let s = message_bytes(
        version,
        source_domain,
        destination_domain,
        nonce,
        sender,
        recipient,
        destination_caller,
        body,
    );
    assert(s.subrange(0, 4) =~= be_bytes(version as nat, 4));
    assert(s.subrange(4, 8) =~= be_bytes(source_domain as nat, 4));
    assert(s.subrange(8, 12) =~= be_bytes(destination_domain as nat, 4));
    assert(s.subrange(12, 20) =~= be_bytes(nonce as nat, 8));
    assert(message_sender(s) =~= sender);
    assert(message_recipient(s) =~= recipient);
    assert(message_destination_caller(s) =~= destination_caller);
    assert(message_body(s) =~= body);
}

/// A message whose header has been checked: at least 116 bytes, of the expected version.
pub struct Message {
    data: Vec<u8>,
}

impl View for Message {
    type V = Seq<u8>;

    closed spec fn view(&self) -> Seq<u8> {
        self.data@
    }
}

impl Message {
    /// Parses `message_bytes`; fails if it is shorter than the header or of another version.
    pub fn new(expected_version: u32, message_bytes: &[u8]) -> (r: Result<Message, Error>)
        ensures
            match message_parse_error(expected_version, message_bytes@) {
                Some(e) => r == Err::<Message, Error>(e),
                None => r is Ok && r->Ok_0@ == message_bytes@,
            },
    {
        if message_bytes.len() < MESSAGE_BODY_INDEX {
            return Err(Error::MalformedMessage);
        }
        let version = read_be(message_bytes, VERSION_INDEX, 4);
        if version != expected_version as u64 {
            return Err(Error::InvalidMessageVersion);
        }
        let mut data: Vec<u8> = Vec::new();
        push_all(&mut data, message_bytes);
        assert(data@ =~= message_bytes@);
        Ok(Message { data })
    }

    /// The bytes of a message with the given fields, all integers big-endian.
    pub fn format_message(
        version: u32,
        local_domain: u32,
        destination_domain: u32,
        nonce: u64,
        sender: &Pubkey,
        recipient: &GenericAddress,
        destination_caller: &Pubkey,
        message_body: &Vec<u8>,
    ) -> (r: Vec<u8>)
        ensures
            r@ == message_bytes(
                version,
                local_domain,
                destination_domain,
                nonce,
                sender@,
                recipient@,
                destination_caller@,
                message_body@,
            ),
    {
        let mut output: Vec<u8> = Vec::new();
        push_be(&mut output, version as u64, 4);
        push_be(&mut output, local_domain as u64, 4);
        push_be(&mut output, destination_domain as u64, 4);
        push_be(&mut output, nonce, 8);
        push_all(&mut output, sender);
        push_all(&mut output, recipient);
        push_all(&mut output, destination_caller);
        push_all(&mut output, message_body.as_slice());
        assert(output@ =~= message_bytes(
            version,
            local_domain,
            destination_domain,
            nonce,
            sender@,
            recipient@,
            destination_caller@,
            message_body@,
        ));
        output
    }

    /// The whole message, as bytes.
    pub fn data(&self) -> (r: &[u8])
        ensures
            r@ == self@,
    {
        self.data.as_slice()
    }

    /// The Keccak-256 digest of the whole message: what attesters sign.
    pub fn hash(&self) -> (r: [u8; 32])
        ensures
            r@ == keccak256_of(self@),
    {
        keccak256(self.data.as_slice())
    }

    pub fn version(&self) -> (r: u32)
        requires
            self@.len() >= 116,
        ensures
            r as nat == message_version(self@),
    {
        proof {
            lemma_pow256_facts();
            crate::bytes::lemma_be_value_bound(self@.subrange(0, 4));
        }
        read_be(self.data.as_slice(), VERSION_INDEX, 4) as u32
    }

    pub fn sender(&self) -> (r: GenericAddress)
        requires
            self@.len() >= 116,
        ensures
            r@ == message_sender(self@),
    {
        read_bytes32(self.data.as_slice(), SENDER_INDEX)
    }

    pub fn recipient(&self) -> (r: GenericAddress)
        requires
            self@.len() >= 116,
        ensures
            r@ == message_recipient(self@),
    {
        read_bytes32(self.data.as_slice(), RECIPIENT_INDEX)
    }

    pub fn source_domain(&self) -> (r: u32)
        requires
            self@.len() >= 116,
        ensures
            r as nat == message_source_domain(self@),
    {
        proof {
            lemma_pow256_facts();
            crate::bytes::lemma_be_value_bound(self@.subrange(4, 8));
        }
        read_be(self.data.as_slice(), SOURCE_DOMAIN_INDEX, 4) as u32
    }

    pub fn destination_domain(&self) -> (r: u32)
        requires
            self@.len() >= 116,
        ensures
            r as nat == message_destination_domain(self@),
    {
        proof {
            lemma_pow256_facts();
            crate::bytes::lemma_be_value_bound(self@.subrange(8, 12));
        }
        read_be(self.data.as_slice(), DESTINATION_DOMAIN_INDEX, 4) as u32
    }

    pub fn destination_caller(&self) -> (r: GenericAddress)
        requires
            self@.len() >= 116,
        ensures
            r@ == message_destination_caller(self@),
    {
        read_bytes32(self.data.as_slice(), DESTINATION_CALLER_INDEX)
    }

    pub fn nonce(&self) -> (r: u64)
        requires
            self@.len() >= 116,
        ensures
            r as nat == message_nonce(self@),
    {
        read_be(self.data.as_slice(), NONCE_INDEX, 8)
    }

    /// The body: every byte after the header.
    pub fn message_body(&self) -> (r: Vec<u8>)
        requires
            self@.len() >= 116,
        ensures
            r@ == message_body(self@),
    {
        let mut body: Vec<u8> = Vec::new();
        let mut i: usize = MESSAGE_BODY_INDEX;
        while i < self.data.len()
            invariant
                116 <= i <= self.data@.len(),
                body@ == self.data@.subrange(116, i as int),
            decreases self.data@.len() - i,
        {
            body.push(self.data[i]);
            assert(self.data@.subrange(116, i + 1) =~= self.data@.subrange(116, i as int).push(
                self.data@[i as int],
            ));
            i = i + 1;
        }
        body
    }
}

} // verus!
