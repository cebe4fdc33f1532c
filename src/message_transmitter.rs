//! The message transmitter: sends messages, and receives those that enough enabled
//! attesters signed, each nonce once.
use vstd::prelude::*;
use crate::bytes::{be_bytes, bytes_equal, is_zero, lex_greater, lex_greater_exec, push_all, push_be, zeros};
use crate::crypto::{keccak256, keccak256_of, ethereum_address_of, recover_ethereum_address, recover_public_key, recovered_public_key};
use crate::{generic_address, Address, ErrorKind, EthAddress, GenericAddress};

pub mod errors;
pub mod events;
pub mod message;
pub mod storage;

use errors::Error;
use events::{MessageReceived, MessageSent};
use message::{
    message_body, message_bytes, message_destination_caller, message_destination_domain,
    message_nonce, message_parse_error, message_recipient, message_sender,
    message_source_domain, Message,
};
use storage::{Attesters, UsedNonces};

verus! {

/// Bytes per attestation signature: 64 signature bytes and a recovery byte.
pub const SIGNATURE_LENGTH: usize = 65;

/// The signature of an attestation at position `i`.
pub open spec fn attestation_chunk(attestation: Seq<u8>, i: int) -> Seq<u8> {
    attestation.subrange(65 * i, 65 * i + 65)
}

/// The identifier of the signer of `message_hash` with the 65-byte `signature`, whose last
/// byte is 27 or 28 (recovery id 0 or 1).
pub open spec fn signer_of(message_hash: Seq<u8>, signature: Seq<u8>) -> Result<Seq<u8>, Error> {
    let v = signature[64];
    if v != 27 && v != 28 {
        Err(Error::InvalidSignatureRecoveryId)
    } else {
        match recovered_public_key(message_hash, signature.subrange(0, 64), (v - 27) as u8) {
            Some(key) => Ok(ethereum_address_of(key)),
            None => Err(Error::InvalidSignature),
        }
    }
}

/// Checks the signatures from position `i` to `n`, the previous signer being `last`: each
/// signer must come strictly after the previous one and be enabled.
pub open spec fn scan_signers(
    message_hash: Seq<u8>,
    attestation: Seq<u8>,
    attesters: Set<Seq<u8>>,
    i: nat,
    n: nat,
    last: Seq<u8>,
) -> Result<(), Error>
    decreases n - i,
{
    if i >= n {
        Ok(())
    } else {
        match signer_of(message_hash, attestation_chunk(attestation, i as int)) {
            Err(e) => Err(e),
            Ok(id) => if !lex_greater(id, last) {
                Err(Error::AttestersOutOfOrder)
            } else if !attesters.contains(id) {
                Err(Error::UnknownAttester)
            } else {
                scan_signers(message_hash, attestation, attesters, i + 1, n, id)
            },
        }
    }
}

/// The outcome of checking an attestation of `message_hash` against a threshold and the
/// enabled attesters.
pub open spec fn verify_attestation(
    message_hash: Seq<u8>,
    attestation: Seq<u8>,
    threshold: u32,
    attesters: Set<Seq<u8>>,
) -> Result<(), Error> {
    if attestation.len() != 65 * threshold as nat {
        Err(Error::InvalidAttestationLength)
    } else {
        scan_signers(message_hash, attestation, attesters, 0, threshold as nat, zeros(20))
    }
}

/// The replay key of a nonce: the Keccak-256 digest of its 8 big-endian bytes and the sender.
pub open spec fn nonce_key(nonce: nat, sender: Seq<u8>) -> Seq<u8> {
    keccak256_of(be_bytes(nonce, 8) + sender)
}

/// The replay key of `nonce` sent by `account`.
pub fn hash_nonce(nonce: u64, account: GenericAddress) -> (r: [u8; 32])
    ensures
        r@ == nonce_key(nonce as nat, account@),
{
    let mut preimage: Vec<u8> = Vec::new();
    push_be(&mut preimage, nonce, 8);
    push_all(&mut preimage, &account);
    assert(preimage@ =~= be_bytes(nonce as nat, 8) + account@);
    keccak256(preimage.as_slice())
}

/// The identifier of the attester that signed `message_hash` with `signature`.
pub fn recover_attester(message_hash: &[u8; 32], signature: &[u8]) -> (r: Result<EthAddress, Error>)
    requires
        signature@.len() == SIGNATURE_LENGTH,
    ensures
        match signer_of(message_hash@, signature@) {
            Ok(id) => r is Ok && r->Ok_0@ == id,
            Err(e) => r == Err::<EthAddress, Error>(e),
        },
{
    let v = signature[64];
    if v != 27 && v != 28 {
        return Err(Error::InvalidSignatureRecoveryId);
    }
    let mut rs: [u8; 64] = [0u8; 64];
    let mut i: usize = 0;
    while i < 64
        invariant
            i <= 64,
            signature@.len() == 65,
            forall|j: int| 0 <= j < i ==> rs@[j] == signature@[j],
        decreases 64 - i,
    {
        rs[i] = signature[i];
        i = i + 1;
    }
    assert(rs@ =~= signature@.subrange(0, 64));
    match recover_public_key(message_hash, &rs, v - 27) {
        Some(key) => Ok(recover_ethereum_address(&key)),
        None => Err(Error::InvalidSignature),
    }
}

/// What the transmitter holds, as plain values.
pub struct TransmitterView {
    pub address: Address,
    pub local_domain: u32,
    pub version: u32,
    pub paused: bool,
    pub max_message_body_size: u64,
    pub next_available_nonce: u64,
    pub first_nonce: u64,
    pub used_nonces: Set<Seq<u8>>,
    pub attesters: Set<Seq<u8>>,
    pub signature_threshold: u32,
    pub owner: Address,
    pub pending_owner: Option<Address>,
}

impl TransmitterView {
    /// Whether the nonce with the given key counts as used.
    pub open spec fn nonce_used(self, key: Seq<u8>, nonce: nat) -> bool {
        nonce < self.first_nonce || self.used_nonces.contains(key)
    }
}

/// Why sending a message fails, if it does.
pub open spec fn send_error(v: TransmitterView, recipient: Seq<u8>, body_len: nat) -> Option<Error> {
    if v.paused {
        Some(Error::ContractIsPaused)
    } else if v.next_available_nonce == u64::MAX {
        Some(Error::NonceOverflow)
    } else {
        outgoing_error(v, recipient, body_len)
    }
}

/// Why a message to `recipient` with a body of `body_len` bytes cannot go out, if it cannot.
pub open spec fn outgoing_error(v: TransmitterView, recipient: Seq<u8>, body_len: nat) -> Option<
    Error,
> {
    if recipient == zeros(32) {
        Some(Error::ZeroRecipient)
    } else if body_len > v.max_message_body_size {
        Some(Error::MessageBodyTooLarge)
    } else {
        None
    }
}

/// The state after a message was sent.
pub open spec fn after_send(v: TransmitterView) -> TransmitterView {
    TransmitterView { next_available_nonce: (v.next_available_nonce + 1) as u64, ..v }
}

/// Why receiving `data` with `attestation` fails, if it does.
pub open spec fn receive_error(v: TransmitterView, data: Seq<u8>, attestation: Seq<u8>) -> Option<
    Error,
> {
    if v.paused {
        Some(Error::ContractIsPaused)
    } else {
        match message_parse_error(v.version, data) {
            Some(e) => Some(e),
            None => match verify_attestation(
                keccak256_of(data),
                attestation,
                v.signature_threshold,
                v.attesters,
            ) {
                Err(e) => Some(e),
                Ok(_) => if message_destination_caller(data) != zeros(32)
                    && message_destination_caller(data) != v.address.hash()@ {
                    Some(Error::InvalidMessageRecipient)
                } else if v.nonce_used(
                    nonce_key(message_nonce(data), message_sender(data)),
                    message_nonce(data),
                ) {
                    Some(Error::NonceAlreadyUsed)
                } else {
                    None
                },
            },
        }
    }
}

/// The state after `data` was received: its nonce key is used.
pub open spec fn after_receive(v: TransmitterView, data: Seq<u8>) -> TransmitterView {
    TransmitterView {
        used_nonces: v.used_nonces.insert(nonce_key(message_nonce(data), message_sender(data))),
        ..v
    }
}

/// Why replacing `original` fails, if it does.
pub open spec fn replace_error(
    v: TransmitterView,
    caller: Address,
    original: Seq<u8>,
    attestation: Seq<u8>,
    body_len: nat,
) -> Option<Error> {
    match message_parse_error(v.version, original) {
        Some(e) => Some(e),
        None => match verify_attestation(
            keccak256_of(original),
            attestation,
            v.signature_threshold,
            v.attesters,
        ) {
            Err(e) => Some(e),
            Ok(_) => if caller.hash()@ != message_sender(original) {
                Some(Error::InsufficientRights)
            } else {
                outgoing_error(v, message_recipient(original), body_len)
            },
        },
    }
}

/// Sends messages to other domains and receives attested messages from them.
#[derive(Debug, Clone)]
pub struct MessageTransmitter {
    address: Address,
    local_domain: u32,
    version: u32,
    paused: bool,
    max_message_body_size: u64,
    next_available_nonce: u64,
    used_nonces: UsedNonces,
    attesters: Attesters,
    signature_threshold: u32,
    owner: Address,
    pending_owner: Option<Address>,
}

impl View for MessageTransmitter {
    type V = TransmitterView;

    closed spec fn view(&self) -> TransmitterView {
        TransmitterView {
            address: self.address,
            local_domain: self.local_domain,
            version: self.version,
            paused: self.paused,
            max_message_body_size: self.max_message_body_size,
            next_available_nonce: self.next_available_nonce,
            first_nonce: self.used_nonces.first_nonce_spec(),
            used_nonces: self.used_nonces.used_keys(),
            attesters: self.attesters.enabled_set(),
            signature_threshold: self.signature_threshold,
            owner: self.owner,
            pending_owner: self.pending_owner,
        }
    }
}


impl MessageTransmitter {
    /// A transmitter at `address`, active, with no attester enabled and no nonce used.
    pub fn init(
        address: Address,
        local_domain: u32,
        version: u32,
        max_message_body_size: u64,
        next_available_nonce: u64,
        signature_threshold: u32,
        owner: Address,
    ) -> (r: MessageTransmitter)
        ensures
            r@ == (TransmitterView {
                address,
                local_domain,
                version,
                paused: false,
                max_message_body_size,
                next_available_nonce,
                first_nonce: 0,
                used_nonces: Set::empty(),
                attesters: Set::empty(),
                signature_threshold,
                owner,
                pending_owner: None,
            }),
    {
        MessageTransmitter {
            address,
            local_domain,
            version,
            paused: false,
            max_message_body_size,
            next_available_nonce,
            used_nonces: UsedNonces::new(0),
            attesters: Attesters::new(),
            signature_threshold,
            owner,
            pending_owner: None,
        }
    }

    /// Sends `message_body` to `recipient` on `destination_domain`, for any caller there;
    /// returns the nonce it was given and the message.
    pub fn send_message(
        &mut self,
        caller: Address,
        destination_domain: u32,
        recipient: GenericAddress,
        message_body: Vec<u8>,
    ) -> (r: Result<(u64, MessageSent), Error>)
        ensures
            match send_error(old(self)@, recipient@, message_body@.len()) {
                Some(e) => r == Err::<(u64, MessageSent), Error>(e) && final(self)@ == old(self)@,
                None => {
                    &&& r is Ok
                    &&& r->Ok_0.0 == old(self)@.next_available_nonce
                    &&& r->Ok_0.1.message@ == message_bytes(
                        old(self)@.version,
                        old(self)@.local_domain,
                        destination_domain,
                        old(self)@.next_available_nonce,
                        caller.hash()@,
                        recipient@,
                        zeros(32),
                        message_body@,
                    )
                    &&& final(self)@ == after_send(old(self)@)
                },
            },
    {
        self.send_message_with_caller(caller, destination_domain, recipient, message_body, [0u8; 32])
    }

    /// Sends `message_body` to `recipient` on `destination_domain`, to be received there only
    /// by `destination_caller` (any caller if it is zero); returns the nonce and the message.
    pub fn send_message_with_caller(
        &mut self,
        caller: Address,
        destination_domain: u32,
        recipient: GenericAddress,
        message_body: Vec<u8>,
        destination_caller: GenericAddress,
    ) -> (r: Result<(u64, MessageSent), Error>)
        ensures
            match send_error(old(self)@, recipient@, message_body@.len()) {
                Some(e) => r == Err::<(u64, MessageSent), Error>(e) && final(self)@ == old(self)@,
                None => {
                    &&& r is Ok
                    &&& r->Ok_0.0 == old(self)@.next_available_nonce
                    &&& r->Ok_0.1.message@ == message_bytes(
                        old(self)@.version,
                        old(self)@.local_domain,
                        destination_domain,
                        old(self)@.next_available_nonce,
                        caller.hash()@,
                        recipient@,
                        destination_caller@,
                        message_body@,
                    )
                    &&& final(self)@ == after_send(old(self)@)
                },
            },
    {
        if self.paused {
            return Err(Error::ContractIsPaused);
        }
        if self.next_available_nonce == u64::MAX {
            return Err(Error::NonceOverflow);
        }
        let nonce = self.next_available_nonce;
        let message = match self.outgoing_message(
            destination_domain,
            recipient,
            destination_caller,
            generic_address(caller),
            nonce,
            &message_body,
        ) {
            Ok(m) => m,
            Err(e) => return Err(e),
        };
        self.next_available_nonce = nonce + 1;
        Ok((nonce, message))
    }

    /// The message from this domain with the given fields, if its recipient and body size
    /// are acceptable.
    fn outgoing_message(
        &self,
        destination_domain: u32,
        recipient: GenericAddress,
        destination_caller: GenericAddress,
        sender: GenericAddress,
        nonce: u64,
        message_body: &Vec<u8>,
    ) -> (r: Result<MessageSent, Error>)
        ensures
            match outgoing_error(self@, recipient@, message_body@.len()) {
                Some(e) => r == Err::<MessageSent, Error>(e),
                None => r is Ok && r->Ok_0.message@ == message_bytes(
                    self@.version,
                    self@.local_domain,
                    destination_domain,
                    nonce,
                    sender@,
                    recipient@,
                    destination_caller@,
                    message_body@,
                ),
            },
    {
        if is_zero(&recipient) {
            return Err(Error::ZeroRecipient);
        }
        if message_body.len() as u64 > self.max_message_body_size {
            return Err(Error::MessageBodyTooLarge);
        }
        let message = Message::format_message(
            self.version,
            self.local_domain,
            destination_domain,
            nonce,
            &sender,
            &recipient,
            &destination_caller,
            message_body,
        );
        Ok(MessageSent { message })
    }

    /// Sends again a message that was attested, with a new body and destination caller but
    /// the same nonce; only its sender may do so.
    pub fn replace_message(
        &self,
        caller: Address,
        original_message: &[u8],
        original_attestation: &[u8],
        new_message_body: Vec<u8>,
        new_destination_caller: GenericAddress,
    ) -> (r: Result<MessageSent, Error>)
        ensures
            match replace_error(
                self@,
                caller,
                original_message@,
                original_attestation@,
                new_message_body@.len(),
            ) {
                Some(e) => r == Err::<MessageSent, Error>(e),
                None => r is Ok && r->Ok_0.message@ == message_bytes(
                    self@.version,
                    self@.local_domain,
                    message_destination_domain(original_message@) as u32,
                    message_nonce(original_message@) as u64,
                    message_sender(original_message@),
                    message_recipient(original_message@),
                    new_destination_caller@,
                    new_message_body@,
                ),
            },
    {
        let original = match Message::new(self.version, original_message) {
            Ok(m) => m,
            Err(e) => return Err(e),
        };
        let message_hash = original.hash();
        match self.verify_attestation_signatures(&message_hash, original_attestation) {
            Ok(()) => {},
            Err(e) => return Err(e),
        }
        let sender = original.sender();
        let caller_bytes = generic_address(caller);
        if !bytes_equal(&caller_bytes, &sender) {
            return Err(Error::InsufficientRights);
        }
        self.outgoing_message(
            original.destination_domain(),
            original.recipient(),
            new_destination_caller,
            sender,
            original.nonce(),
            &new_message_body,
        )
    }

    /// Receives `data`, attested by `attestation`: checks the version, the signatures, the
    /// destination caller and the nonce, then uses the nonce. The caller hands the body on to
    /// the message's recipient.
    pub fn receive_message(&mut self, caller: Address, data: &[u8], attestation: &[u8]) -> (r:
        Result<MessageReceived, Error>)
        ensures
            match receive_error(old(self)@, data@, attestation@) {
                Some(e) => r == Err::<MessageReceived, Error>(e) && final(self)@ == old(self)@,
                None => {
                    &&& r is Ok
                    &&& r->Ok_0.caller == caller.hash()
                    &&& r->Ok_0.source_domain as nat == message_source_domain(data@)
                    &&& r->Ok_0.nonce as nat == message_nonce(data@)
                    &&& r->Ok_0.sender@ == message_sender(data@)
                    &&& r->Ok_0.message_body@ == message_body(data@)
                    &&& final(self)@ == after_receive(old(self)@, data@)
                },
            },
    {
        if self.paused {
            return Err(Error::ContractIsPaused);
        }
        let message = match Message::new(self.version, data) {
            Ok(m) => m,
            Err(e) => return Err(e),
        };
        let message_hash = message.hash();
        match self.verify_attestation_signatures(&message_hash, attestation) {
            Ok(()) => {},
            Err(e) => return Err(e),
        }
        let destination_caller = message.destination_caller();
        let own = generic_address(self.address);
        if !is_zero(&destination_caller) && !bytes_equal(&destination_caller, &own) {
            return Err(Error::InvalidMessageRecipient);
        }
        let nonce = message.nonce();
        let sender = message.sender();
        let nonce_hashed = hash_nonce(nonce, sender);
        if self.used_nonces.is_used_nonce(nonce_hashed, nonce) {
            return Err(Error::NonceAlreadyUsed);
        }
        self.used_nonces.use_nonce(nonce_hashed);
        Ok(
            MessageReceived {
                caller: generic_address(caller),
                source_domain: message.source_domain(),
                nonce,
                sender,
                message_body: message.message_body(),
            },
        )
    }

    /// Checks that `attestation` holds one signature of `message_hash` per required signer,
    /// by enabled attesters in strictly ascending order of identifier.
    pub fn verify_attestation_signatures(&self, message_hash: &[u8; 32], attestation: &[u8]) -> (r:
        Result<(), Error>)
        ensures
            r == verify_attestation(
                message_hash@,
                attestation@,
                self@.signature_threshold,
                self@.attesters,
            ),
    {
        let len = attestation.len();
        let n = self.signature_threshold as usize;
        if len as u64 != 65 * (self.signature_threshold as u64) {
            return Err(Error::InvalidAttestationLength);
        }
        let mut last: EthAddress = [0u8; 20];
        assert(last@ =~= zeros(20));
        let mut i: usize = 0;
        while i < n
            invariant
                i <= n,
                n == self.signature_threshold,
                len == attestation@.len(),
                len == 65 * n,
                verify_attestation(
                    message_hash@,
                    attestation@,
                    self@.signature_threshold,
                    self@.attesters,
                ) == scan_signers(
                    message_hash@,
                    attestation@,
                    self@.attesters,
                    i as nat,
                    n as nat,
                    last@,
                ),
            decreases n - i,
        {
            let start = i * 65;
            let signature = &attestation[start..start + 65];
            assert(signature@ =~= attestation_chunk(attestation@, i as int));
            let id = match recover_attester(message_hash, signature) {
                Ok(id) => id,
                Err(e) => return Err(e),
            };
            if !lex_greater_exec(&id, &last) {
                return Err(Error::AttestersOutOfOrder);
            }
            if !self.attesters.is_attester(id) {
                return Err(Error::UnknownAttester);
            }
            last = id;
            i = i + 1;
        }
        Ok(())
    }

    /// Sets the largest body a message may carry; owner only.
    pub fn set_max_message_body_size(&mut self, caller: Address, new_max_message_body_size: u64) -> (r: Result<(), Error>)
        ensures
            caller != old(self)@.owner ==> r == Err::<(), Error>(Error::InsufficientRights)
                && final(self)@ == old(self)@,
            caller == old(self)@.owner ==> r is Ok && final(self)@ == (TransmitterView {
                max_message_body_size: new_max_message_body_size,
                ..old(self)@
            }),
    {
        match self.require_owner(caller) {
            Ok(()) => {},
            Err(e) => return Err(e),
        }
        self.max_message_body_size = new_max_message_body_size;
        Ok(())
    }

    /// Sets how many signatures an attestation needs; owner only.
    pub fn set_signature_threshold(&mut self, caller: Address, new_signature_threshold: u32) -> (r: Result<(), Error>)
        ensures
            caller != old(self)@.owner ==> r == Err::<(), Error>(Error::InsufficientRights)
                && final(self)@ == old(self)@,
            caller == old(self)@.owner ==> r is Ok && final(self)@ == (TransmitterView {
                signature_threshold: new_signature_threshold,
                ..old(self)@
            }),
    {
        match self.require_owner(caller) {
            Ok(()) => {},
            Err(e) => return Err(e),
        }
        self.signature_threshold = new_signature_threshold;
        Ok(())
    }

    /// Names the pending owner, who must then accept; owner only.
    pub fn transfer_ownership(&mut self, caller: Address, new_pending_owner: Address) -> (r: Result<(), Error>)
        ensures
            caller != old(self)@.owner ==> r == Err::<(), Error>(Error::InsufficientRights)
                && final(self)@ == old(self)@,
            caller == old(self)@.owner ==> r is Ok && final(self)@ == (TransmitterView {
                pending_owner: Some(new_pending_owner),
                ..old(self)@
            }),
    {
        match self.require_owner(caller) {
            Ok(()) => {},
            Err(e) => return Err(e),
        }
        self.pending_owner = Some(new_pending_owner);
        Ok(())
    }

    /// Pauses sending and receiving; owner only.
    pub fn pause(&mut self, caller: Address) -> (r: Result<(), Error>)
        ensures
            caller != old(self)@.owner ==> r == Err::<(), Error>(Error::InsufficientRights)
                && final(self)@ == old(self)@,
            caller == old(self)@.owner ==> r is Ok && final(self)@ == (TransmitterView {
                paused: true,
                ..old(self)@
            }),
    {
        match self.require_owner(caller) {
            Ok(()) => {},
            Err(e) => return Err(e),
        }
        self.paused = true;
        Ok(())
    }

    /// Resumes sending and receiving; owner only.
    pub fn unpause(&mut self, caller: Address) -> (r: Result<(), Error>)
        ensures
            caller != old(self)@.owner ==> r == Err::<(), Error>(Error::InsufficientRights)
                && final(self)@ == old(self)@,
            caller == old(self)@.owner ==> r is Ok && final(self)@ == (TransmitterView {
                paused: false,
                ..old(self)@
            }),
    {
        match self.require_owner(caller) {
            Ok(()) => {},
            Err(e) => return Err(e),
        }
        self.paused = false;
        Ok(())
    }

    /// Enables an attester; owner only.
    pub fn enable_attester(&mut self, caller: Address, new_attester: EthAddress) -> (r: Result<(), Error>)
        ensures
            caller != old(self)@.owner ==> r == Err::<(), Error>(Error::InsufficientRights)
                && final(self)@ == old(self)@,
            caller == old(self)@.owner ==> r is Ok && final(self)@ == (TransmitterView {
                attesters: old(self)@.attesters.insert(new_attester@),
                ..old(self)@
            }),
    {
        match self.require_owner(caller) {
            Ok(()) => {},
            Err(e) => return Err(e),
        }
        self.attesters.enable_attester(new_attester);
        Ok(())
    }

    /// Disables an attester; owner only.
    pub fn disable_attester(&mut self, caller: Address, attester: EthAddress) -> (r: Result<(), Error>)
        ensures
            caller != old(self)@.owner ==> r == Err::<(), Error>(Error::InsufficientRights)
                && final(self)@ == old(self)@,
            caller == old(self)@.owner ==> r is Ok && final(self)@ == (TransmitterView {
                attesters: old(self)@.attesters.remove(attester@),
                ..old(self)@
            }),
    {
        match self.require_owner(caller) {
            Ok(()) => {},
            Err(e) => return Err(e),
        }
        self.attesters.disable_attester(attester);
        Ok(())
    }

    fn require_owner(&self, caller: Address) -> (r: Result<(), Error>)
        ensures
            caller == self@.owner ==> r is Ok,
            caller != self@.owner ==> r == Err::<(), Error>(Error::InsufficientRights),
    {
        if caller.equals(&self.owner) {
            Ok(())
        } else {
            Err(Error::InsufficientRights)
        }
    }

    /// Makes the pending owner the owner; only the pending owner may call it.
    pub fn accept_ownership(&mut self, caller: Address) -> (r: Result<(), Error>)
        ensures
            old(self)@.pending_owner is None ==> r == Err::<(), Error>(Error::NoPendingOwner)
                && final(self)@ == old(self)@,
            old(self)@.pending_owner matches Some(p) && caller != p ==> r == Err::<(), Error>(
                Error::InsufficientRights,
            ) && final(self)@ == old(self)@,
            old(self)@.pending_owner == Some(caller) ==> r is Ok && final(self)@ == (TransmitterView {
                owner: caller,
                pending_owner: None,
                ..old(self)@
            }),
    {
        match self.pending_owner {
            None => Err(Error::NoPendingOwner),
            Some(pending) => {
                if !caller.equals(&pending) {
                    return Err(Error::InsufficientRights);
                }
                self.owner = pending;
                self.pending_owner = None;
                Ok(())
            },
        }
    }

    /// Whether the nonce `nonce` of `account` counts as used.
    pub fn is_used_nonce(&self, nonce: u64, account: GenericAddress) -> (r: bool)
        ensures
            r == self@.nonce_used(nonce_key(nonce as nat, account@), nonce as nat),
    {
        let nonce_hashed = hash_nonce(nonce, account);
        self.used_nonces.is_used_nonce(nonce_hashed, nonce)
    }

    /// Whether `attester` is enabled.
    pub fn is_attester(&self, attester: EthAddress) -> (r: bool)
        ensures
            r == self@.attesters.contains(attester@),
    {
        self.attesters.is_attester(attester)
    }

    /// This transmitter's own address.
    pub fn address(&self) -> (r: Address)
        ensures
            r == self@.address,
    {
        self.address
    }

    pub fn local_domain(&self) -> (r: u32)
        ensures
            r == self@.local_domain,
    {
        self.local_domain
    }

    pub fn version(&self) -> (r: u32)
        ensures
            r == self@.version,
    {
        self.version
    }

    pub fn paused(&self) -> (r: bool)
        ensures
            r == self@.paused,
    {
        self.paused
    }

    pub fn max_message_body_size(&self) -> (r: u64)
        ensures
            r == self@.max_message_body_size,
    {
        self.max_message_body_size
    }

    pub fn next_available_nonce(&self) -> (r: u64)
        ensures
            r == self@.next_available_nonce,
    {
        self.next_available_nonce
    }

    pub fn signature_threshold(&self) -> (r: u32)
        ensures
            r == self@.signature_threshold,
    {
        self.signature_threshold
    }

    pub fn owner(&self) -> (r: Address)
        ensures
            r == self@.owner,
    {
        self.owner
    }

    pub fn pending_owner(&self) -> (r: Option<Address>)
        ensures
            r == self@.pending_owner,
    {
        self.pending_owner
    }

}


/// The signer that a signature must come after: the one before it, or the zero identifier
/// for the first.
pub open spec fn previous_signer(ids: Seq<Seq<u8>>, i: int) -> Seq<u8> {
    if i == 0 {
        zeros(20)
    } else {
        ids[i - 1]
    }
}

/// Every signature of the attestation, one per entry of `ids`, was made by that signer.
pub open spec fn signed_by(message_hash: Seq<u8>, attestation: Seq<u8>, ids: Seq<Seq<u8>>) -> bool {
    &&& attestation.len() == 65 * ids.len()
    &&& forall|i: int|
        0 <= i < ids.len() ==> #[trigger] signer_of(message_hash, attestation_chunk(attestation, i))
            == Ok::<Seq<u8>, Error>(ids[i])
}

/// Every signer is enabled and comes strictly after the one before it.
pub open spec fn well_ordered_signers(ids: Seq<Seq<u8>>, attesters: Set<Seq<u8>>) -> bool {
    forall|i: int|
        0 <= i < ids.len() ==> attesters.contains(#[trigger] ids[i]) && lex_greater(
            ids[i],
            previous_signer(ids, i),
        )
}

proof fn lemma_scan_accepts(
    message_hash: Seq<u8>,
    attestation: Seq<u8>,
    attesters: Set<Seq<u8>>,
    ids: Seq<Seq<u8>>,
    i: nat,
)
    requires
        i <= ids.len(),
        signed_by(message_hash, attestation, ids),
        well_ordered_signers(ids, attesters),
    ensures
        scan_signers(
            message_hash,
            attestation,
            attesters,
            i,
            ids.len(),
            previous_signer(ids, i as int),
        ) is Ok,
    decreases ids.len() - i,
{
    if i < ids.len() {
        assert(signer_of(message_hash, attestation_chunk(attestation, i as int)) == Ok::<
            Seq<u8>,
            Error,
        >(ids[i as int]));
        assert(attesters.contains(ids[i as int]));
        lemma_scan_accepts(message_hash, attestation, attesters, ids, i + 1);
    }
}

proof fn lemma_scan_rejects(
    message_hash: Seq<u8>,
    attestation: Seq<u8>,
    attesters: Set<Seq<u8>>,
    ids: Seq<Seq<u8>>,
    i: nat,
    bad: int,
)
    requires
        i <= bad < ids.len(),
        signed_by(message_hash, attestation, ids),
        !attesters.contains(ids[bad]) || !lex_greater(ids[bad], previous_signer(ids, bad)),
    ensures
        scan_signers(
            message_hash,
            attestation,
            attesters,
            i,
            ids.len(),
            previous_signer(ids, i as int),
        ) is Err,
    decreases ids.len() - i,
{
    assert(signer_of(message_hash, attestation_chunk(attestation, i as int)) == Ok::<
        Seq<u8>,
        Error,
    >(ids[i as int]));
    if i < bad {
        lemma_scan_rejects(message_hash, attestation, attesters, ids, i + 1, bad);
    }
}

/// An attestation of `k` signatures by enabled attesters in strictly ascending order of
/// identifier passes if and only if `k` reaches the threshold. (With more signatures than the
/// threshold its length is wrong, so `k` is at most the threshold here.)
pub proof fn lemma_threshold(
    message_hash: Seq<u8>,
    attestation: Seq<u8>,
    threshold: u32,
    attesters: Set<Seq<u8>>,
    ids: Seq<Seq<u8>>,
)
    requires
        ids.len() <= threshold,
        signed_by(message_hash, attestation, ids),
        well_ordered_signers(ids, attesters),
    ensures
        verify_attestation(message_hash, attestation, threshold, attesters) is Ok <==> ids.len()
            >= threshold,
{
    if ids.len() == threshold {
        lemma_scan_accepts(message_hash, attestation, attesters, ids, 0);
    }
}

/// A signer that is not enabled, or that does not come strictly after the one before it,
/// makes the attestation fail, whatever the number of signatures.
pub proof fn lemma_bad_signer_rejected(
    message_hash: Seq<u8>,
    attestation: Seq<u8>,
    threshold: u32,
    attesters: Set<Seq<u8>>,
    ids: Seq<Seq<u8>>,
    bad: int,
)
    requires
        0 <= bad < ids.len(),
        signed_by(message_hash, attestation, ids),
        !attesters.contains(ids[bad]) || !lex_greater(ids[bad], previous_signer(ids, bad)),
    ensures
        verify_attestation(message_hash, attestation, threshold, attesters) is Err,
{
    if attestation.len() == 65 * threshold as nat {
        lemma_scan_rejects(message_hash, attestation, attesters, ids, 0, bad);
    }
}

proof fn lemma_lex_transitive(a: Seq<u8>, b: Seq<u8>, c: Seq<u8>)
    requires
        a.len() == b.len(),
        b.len() == c.len(),
        lex_greater(a, b),
        lex_greater(b, c),
    ensures
        lex_greater(a, c),
{
    let p = choose|i: int|
        0 <= i < a.len() && i < b.len() && a[i] > b[i] && (forall|j: int|
            0 <= j < i ==> #[trigger] a[j] == b[j]);
    let q = choose|i: int|
        0 <= i < b.len() && i < c.len() && b[i] > c[i] && (forall|j: int|
            0 <= j < i ==> #[trigger] b[j] == c[j]);
    let m = if p < q {
        p
    } else {
        q
    };
    assert(a[m] > c[m]);
    assert forall|j: int| 0 <= j < m implies #[trigger] a[j] == c[j] by {
        assert(a[j] == b[j]);
    }
}

proof fn lemma_ascending_distinct(ids: Seq<Seq<u8>>, attesters: Set<Seq<u8>>, i: int, j: int)
    requires
        well_ordered_signers(ids, attesters),
        forall|k: int| 0 <= k < ids.len() ==> (#[trigger] ids[k]).len() == 20,
        0 <= i < j < ids.len(),
    ensures
        lex_greater(ids[j], ids[i]),
    decreases j - i,
{
    assert(lex_greater(ids[j], previous_signer(ids, j)));
    if j - 1 > i {
        lemma_ascending_distinct(ids, attesters, i, j - 1);
        lemma_lex_transitive(ids[j], ids[j - 1], ids[i]);
    }
}

/// A signer that appears twice makes the attestation fail, whatever the number of signatures.
pub proof fn lemma_duplicate_signer_rejected(
    message_hash: Seq<u8>,
    attestation: Seq<u8>,
    threshold: u32,
    attesters: Set<Seq<u8>>,
    ids: Seq<Seq<u8>>,
    i: int,
    j: int,
)
    requires
        0 <= i < j < ids.len(),
        ids[i] == ids[j],
        signed_by(message_hash, attestation, ids),
        forall|k: int| 0 <= k < ids.len() ==> (#[trigger] ids[k]).len() == 20,
    ensures
        verify_attestation(message_hash, attestation, threshold, attesters) is Err,
{
    if well_ordered_signers(ids, attesters) {
        lemma_ascending_distinct(ids, attesters, i, j);
        let p = choose|p: int|
            0 <= p < ids[j].len() && p < ids[i].len() && ids[j][p] > ids[i][p] && (forall|q: int|
                0 <= q < p ==> #[trigger] ids[j][q] == ids[i][q]);
        assert(false);
    } else {
        let bad = choose|k: int|
            0 <= k < ids.len() && !(attesters.contains(#[trigger] ids[k]) && lex_greater(
                ids[k],
                previous_signer(ids, k),
            ));
        lemma_bad_signer_rejected(message_hash, attestation, threshold, attesters, ids, bad);
    }
}

/// Once a message was received, receiving the same data and attestation again is refused as
/// a replay.
pub proof fn lemma_receive_replay(v: TransmitterView, data: Seq<u8>, attestation: Seq<u8>)
    requires
        receive_error(v, data, attestation) is None,
    ensures
        receive_error(after_receive(v, data), data, attestation) == Some(Error::NonceAlreadyUsed),
        Error::NonceAlreadyUsed.kind_spec() == ErrorKind::Replay,
{
}

/// While paused, sending (with or without a destination caller) and receiving fail as a
/// lifecycle error, whatever the arguments.
pub proof fn lemma_paused_refuses(
    v: TransmitterView,
    recipient: Seq<u8>,
    body_len: nat,
    data: Seq<u8>,
    attestation: Seq<u8>,
)
    requires
        v.paused,
    ensures
        send_error(v, recipient, body_len) == Some(Error::ContractIsPaused),
        receive_error(v, data, attestation) == Some(Error::ContractIsPaused),
        Error::ContractIsPaused.kind_spec() == ErrorKind::Lifecycle,
{
}

} // verus!
