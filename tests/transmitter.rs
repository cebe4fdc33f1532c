use cctp::crypto::recover_ethereum_address;
use cctp::message_transmitter::errors::Error;
use cctp::message_transmitter::message::Message;
use cctp::message_transmitter::storage::{Attesters, UsedNonces};
use cctp::message_transmitter::{hash_nonce, recover_attester, MessageTransmitter};
use cctp::token_messenger_minter::burn_message::BurnMessage;
use cctp::{Address, ErrorKind, EthAddress};
use k256::ecdsa::SigningKey;

const OWNER: Address = Address::Account([100u8; 32]);
const TRANSMITTER: Address = Address::Contract([50u8; 32]);

fn transmitter(threshold: u32) -> MessageTransmitter {
    MessageTransmitter::init(TRANSMITTER, 31, 2, 1_000_000, 0, threshold, OWNER)
}

fn attester(seed: u8) -> (SigningKey, EthAddress) {
    let key = SigningKey::from_slice(&[seed; 32]).unwrap();
    let point = key.verifying_key().to_encoded_point(false);
    let mut public = [0u8; 64];
    public.copy_from_slice(&point.as_bytes()[1..]);
    (key, recover_ethereum_address(&public))
}

fn sign(key: &SigningKey, message_hash: &[u8; 32]) -> Vec<u8> {
    let (signature, recovery_id) = key.sign_prehash_recoverable(message_hash).unwrap();
    let mut bytes = signature.to_bytes().to_vec();
    bytes.push(recovery_id.to_byte() + 27);
    bytes
}

fn incoming(nonce: u64, destination_caller: [u8; 32]) -> Vec<u8> {
    let body = BurnMessage::format_message(2, &[10u8; 32], &[1u8; 32], 10, &[11u8; 32]);
    Message::format_message(2, 0, 31, nonce, &[11u8; 32], &[60u8; 32], &destination_caller, &body)
}

/// Two enabled attesters, ordered by identifier, and a transmitter that needs both.
fn two_attesters() -> (MessageTransmitter, SigningKey, SigningKey) {
    let (k1, a1) = attester(1);
    let (k2, a2) = attester(2);
    let mut mt = transmitter(2);
    mt.enable_attester(OWNER, a1).unwrap();
    mt.enable_attester(OWNER, a2).unwrap();
    if a1 < a2 {
        (mt, k1, k2)
    } else {
        (mt, k2, k1)
    }
}

#[test]
fn test_receive_message_from_remote_domain_with_signatures() {
    let (mut mt, low, high) = two_attesters();
    let message = incoming(0, [0u8; 32]);
    let message_hash = Message::new(2, &message).unwrap().hash();
    let mut attestation = sign(&low, &message_hash);
    attestation.extend_from_slice(&sign(&high, &message_hash));
    assert_eq!(attestation.len(), 65 * 2);
    let caller = Address::Account([32u8; 32]);
    let received = mt.receive_message(caller, &message, &attestation);
    assert!(received.is_ok(), "MessageReceived event not emitted");
    let received = received.unwrap();
    assert_eq!(received.caller, [32u8; 32]);
    assert_eq!(received.source_domain, 0);
    assert_eq!(received.nonce, 0);
    assert_eq!(received.sender, [11u8; 32]);
    assert_eq!(received.message_body, message[116..].to_vec());
    assert!(mt.is_used_nonce(0, [11u8; 32]));
    assert!(!mt.is_used_nonce(0, [12u8; 32]));
}

#[test]
fn receive_twice_is_a_replay() {
    let (mut mt, low, high) = two_attesters();
    let message = incoming(7, [0u8; 32]);
    let message_hash = Message::new(2, &message).unwrap().hash();
    let mut attestation = sign(&low, &message_hash);
    attestation.extend_from_slice(&sign(&high, &message_hash));
    assert!(mt.receive_message(OWNER, &message, &attestation).is_ok());
    let err = mt.receive_message(OWNER, &message, &attestation).err().unwrap();
    assert_eq!(err, Error::NonceAlreadyUsed);
    assert_eq!(err.kind(), ErrorKind::Replay);
}

#[test]
fn signatures_out_of_order_are_refused() {
    let (mut mt, low, high) = two_attesters();
    let message = incoming(0, [0u8; 32]);
    let message_hash = Message::new(2, &message).unwrap().hash();
    let mut attestation = sign(&high, &message_hash);
    attestation.extend_from_slice(&sign(&low, &message_hash));
    let err = mt.receive_message(OWNER, &message, &attestation).err().unwrap();
    assert_eq!(err, Error::AttestersOutOfOrder);
    assert_eq!(err.kind(), ErrorKind::Signature);
    assert!(!mt.is_used_nonce(0, [11u8; 32]));
}

#[test]
fn duplicate_signatures_are_refused() {
    let (mut mt, low, _high) = two_attesters();
    let message = incoming(0, [0u8; 32]);
    let message_hash = Message::new(2, &message).unwrap().hash();
    let mut attestation = sign(&low, &message_hash);
    attestation.extend_from_slice(&sign(&low, &message_hash));
    assert_eq!(mt.receive_message(OWNER, &message, &attestation).err(), Some(Error::AttestersOutOfOrder));
}

#[test]
fn disabled_attester_is_refused() {
    let (mut mt, low, high) = two_attesters();
    let high_id = attester_id(&high);
    mt.disable_attester(OWNER, high_id).unwrap();
    assert!(!mt.is_attester(high_id));
    let message = incoming(0, [0u8; 32]);
    let message_hash = Message::new(2, &message).unwrap().hash();
    let mut attestation = sign(&low, &message_hash);
    attestation.extend_from_slice(&sign(&high, &message_hash));
    assert_eq!(mt.receive_message(OWNER, &message, &attestation).err(), Some(Error::UnknownAttester));
}

fn attester_id(key: &SigningKey) -> EthAddress {
    let point = key.verifying_key().to_encoded_point(false);
    let mut public = [0u8; 64];
    public.copy_from_slice(&point.as_bytes()[1..]);
    recover_ethereum_address(&public)
}

#[test]
fn too_few_signatures_have_the_wrong_length() {
    let (mut mt, low, _high) = two_attesters();
    let message = incoming(0, [0u8; 32]);
    let message_hash = Message::new(2, &message).unwrap().hash();
    let attestation = sign(&low, &message_hash);
    let err = mt.receive_message(OWNER, &message, &attestation).err().unwrap();
    assert_eq!(err, Error::InvalidAttestationLength);
    assert_eq!(err.kind(), ErrorKind::Format);
}

#[test]
fn threshold_met_with_one_signature() {
    let (key, id) = attester(3);
    let mut mt = transmitter(1);
    mt.enable_attester(OWNER, id).unwrap();
    let message = incoming(0, [0u8; 32]);
    let message_hash = Message::new(2, &message).unwrap().hash();
    assert_eq!(mt.verify_attestation_signatures(&message_hash, &sign(&key, &message_hash)), Ok(()));
    assert_eq!(mt.verify_attestation_signatures(&message_hash, &[]), Err(Error::InvalidAttestationLength));
}

#[test]
fn bad_recovery_byte_is_refused() {
    let (key, id) = attester(3);
    let message_hash = Message::new(2, &incoming(0, [0u8; 32])).unwrap().hash();
    let mut signature = sign(&key, &message_hash);
    assert_eq!(recover_attester(&message_hash, &signature), Ok(id));
    signature[64] = 1;
    assert_eq!(recover_attester(&message_hash, &signature), Err(Error::InvalidSignatureRecoveryId));
    let (_, other) = attester(4);
    let mut signature = sign(&key, &message_hash);
    signature[64] = if signature[64] == 27 { 28 } else { 27 };
    let flipped = recover_attester(&message_hash, &signature);
    assert!(flipped != Ok(id));
    assert!(flipped != Ok(other));
}

#[test]
fn destination_caller_must_be_this_transmitter() {
    let mut mt = transmitter(0);
    let message = incoming(0, [70u8; 32]);
    let err = mt.receive_message(OWNER, &message, &[]).err().unwrap();
    assert_eq!(err, Error::InvalidMessageRecipient);
    let message = incoming(0, [50u8; 32]);
    assert!(mt.receive_message(OWNER, &message, &[]).is_ok());
}

#[test]
fn receive_checks_the_version_and_length() {
    let mut mt = transmitter(0);
    let mut message = incoming(0, [0u8; 32]);
    message[3] = 9;
    assert_eq!(mt.receive_message(OWNER, &message, &[]).err(), Some(Error::InvalidMessageVersion));
    assert_eq!(mt.receive_message(OWNER, &message[..100], &[]).err(), Some(Error::MalformedMessage));
}

#[test]
fn paused_transmitter_refuses_to_send_and_receive() {
    let mut mt = transmitter(0);
    assert_eq!(mt.pause(Address::Account([1u8; 32])), Err(Error::InsufficientRights));
    mt.pause(OWNER).unwrap();
    assert!(mt.paused());
    let e1 = mt.send_message(OWNER, 1, [1u8; 32], vec![1]).err().unwrap();
    let e2 = mt.send_message_with_caller(OWNER, 1, [1u8; 32], vec![1], [2u8; 32]).err().unwrap();
    let e3 = mt.receive_message(OWNER, &incoming(0, [0u8; 32]), &[]).err().unwrap();
    for e in [e1, e2, e3] {
        assert_eq!(e, Error::ContractIsPaused);
        assert_eq!(e.kind(), ErrorKind::Lifecycle);
    }
    assert_eq!(mt.next_available_nonce(), 0);
    mt.unpause(OWNER).unwrap();
    assert!(mt.send_message(OWNER, 1, [1u8; 32], vec![1]).is_ok());
}

#[test]
fn send_allocates_increasing_nonces() {
    let mut mt = MessageTransmitter::init(TRANSMITTER, 31, 2, 4, 5, 0, OWNER);
    let sender = Address::Contract([9u8; 32]);
    let (n1, sent) = mt.send_message(sender, 7, [1u8; 32], vec![1, 2]).unwrap();
    let (n2, _) = mt.send_message_with_caller(OWNER, 7, [1u8; 32], vec![], [3u8; 32]).unwrap();
    assert_eq!((n1, n2), (5, 6));
    assert_eq!(mt.next_available_nonce(), 7);
    let expected = Message::format_message(2, 31, 7, 5, &[9u8; 32], &[1u8; 32], &[0u8; 32], &vec![1, 2]);
    assert_eq!(sent.message, expected);
}

#[test]
fn send_checks_recipient_and_body_size() {
    let mut mt = MessageTransmitter::init(TRANSMITTER, 31, 2, 4, 0, 0, OWNER);
    let err = mt.send_message(OWNER, 1, [0u8; 32], vec![]).err().unwrap();
    assert_eq!(err, Error::ZeroRecipient);
    assert_eq!(err.kind(), ErrorKind::Validation);
    assert!(mt.send_message(OWNER, 1, [1u8; 32], vec![0; 4]).is_ok());
    assert_eq!(mt.send_message(OWNER, 1, [1u8; 32], vec![0; 5]).err(), Some(Error::MessageBodyTooLarge));
    mt.set_max_message_body_size(OWNER, 5).unwrap();
    assert!(mt.send_message(OWNER, 1, [1u8; 32], vec![0; 5]).is_ok());
}

#[test]
fn last_nonce_cannot_be_allocated() {
    let mut mt = MessageTransmitter::init(TRANSMITTER, 31, 2, 4, u64::MAX, 0, OWNER);
    assert_eq!(mt.send_message(OWNER, 1, [1u8; 32], vec![]).err(), Some(Error::NonceOverflow));
}

#[test]
fn replace_message_keeps_the_nonce() {
    let mut mt = transmitter(0);
    let sender = Address::Contract([9u8; 32]);
    let (nonce, sent) = mt.send_message(sender, 7, [1u8; 32], vec![1, 2]).unwrap();
    let replaced = mt.replace_message(sender, &sent.message, &[], vec![3], [4u8; 32]).unwrap();
    let expected = Message::format_message(2, 31, 7, nonce, &[9u8; 32], &[1u8; 32], &[4u8; 32], &vec![3]);
    assert_eq!(replaced.message, expected);
    let err = mt.replace_message(OWNER, &sent.message, &[], vec![3], [4u8; 32]).err().unwrap();
    assert_eq!(err, Error::InsufficientRights);
    assert_eq!(err.kind(), ErrorKind::AccessControl);
}

#[test]
fn ownership_moves_in_two_steps() {
    let mut mt = transmitter(0);
    let next = Address::Account([7u8; 32]);
    assert_eq!(mt.accept_ownership(next), Err(Error::NoPendingOwner));
    assert_eq!(mt.transfer_ownership(next, next), Err(Error::InsufficientRights));
    mt.transfer_ownership(OWNER, next).unwrap();
    assert_eq!(mt.pending_owner(), Some(next));
    assert_eq!(mt.accept_ownership(OWNER), Err(Error::InsufficientRights));
    mt.accept_ownership(next).unwrap();
    assert_eq!(mt.owner(), next);
    assert_eq!(mt.pending_owner(), None);
    assert_eq!(mt.set_signature_threshold(OWNER, 3), Err(Error::InsufficientRights));
    mt.set_signature_threshold(next, 3).unwrap();
    assert_eq!(mt.signature_threshold(), 3);
}

#[test]
fn nonce_registry_floor() {
    let mut registry = UsedNonces::new(10);
    let key = hash_nonce(3, [1u8; 32]);
    assert!(registry.is_used_nonce(key, 3));
    assert!(registry.is_used_nonce(hash_nonce(9, [2u8; 32]), 9));
    let key = hash_nonce(10, [1u8; 32]);
    assert!(!registry.is_used_nonce(key, 10));
    registry.use_nonce(key);
    assert!(registry.is_used_nonce(key, 10));
    assert!(!registry.is_used_nonce(hash_nonce(10, [2u8; 32]), 10));
    assert_eq!(registry.first_nonce(), 10);
}

#[test]
fn nonce_keys_depend_on_nonce_and_sender() {
    let a = hash_nonce(1, [1u8; 32]);
    assert_eq!(a, hash_nonce(1, [1u8; 32]));
    assert_ne!(a, hash_nonce(2, [1u8; 32]));
    assert_ne!(a, hash_nonce(1, [2u8; 32]));
}

#[test]
fn attester_registry() {
    let mut attesters = Attesters::new();
    assert!(!attesters.is_attester([1u8; 20]));
    attesters.enable_attester([1u8; 20]);
    attesters.enable_attester([1u8; 20]);
    attesters.enable_attester([2u8; 20]);
    assert!(attesters.is_attester([1u8; 20]));
    attesters.disable_attester([1u8; 20]);
    assert!(!attesters.is_attester([1u8; 20]));
    assert!(attesters.is_attester([2u8; 20]));
}

#[test]
fn ethereum_address_is_the_digest_tail() {
    // The public key of the secret key 1 is the generator point of secp256k1, whose
    // identifier is well known.
    let key = SigningKey::from_slice(&{
        let mut k = [0u8; 32];
        k[31] = 1;
        k
    })
    .unwrap();
    let expected: [u8; 20] = [
        0x7e, 0x5f, 0x45, 0x52, 0x09, 0x1a, 0x69, 0x12, 0x5d, 0x5d, 0xfc, 0xb7, 0xb8, 0xc2, 0x65,
        0x90, 0x29, 0x39, 0x5b, 0xdf,
    ];
    assert_eq!(attester_id(&key), expected);
}

#[test]
fn unparsable_signature_is_refused() {
    let message_hash = Message::new(2, &incoming(0, [0u8; 32])).unwrap().hash();
    let mut signature = vec![0u8; 64];
    signature.push(27);
    let err = recover_attester(&message_hash, &signature).err().unwrap();
    assert_eq!(err, Error::InvalidSignature);
    assert_eq!(err.kind(), ErrorKind::Signature);
}
