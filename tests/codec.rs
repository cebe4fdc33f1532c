use cctp::message_transmitter::errors::Error as TransmitterError;
use cctp::message_transmitter::message::Message;
use cctp::token_messenger_minter::burn_message::BurnMessage;
use cctp::token_messenger_minter::errors::Error as MinterError;
use cctp::{generic_address, generic_address_to_account_address, generic_address_to_contract_address, Address, ErrorKind};

fn sample_message(body: &Vec<u8>) -> Vec<u8> {
    Message::format_message(2, 31, 5, 0x0102030405060708, &[7u8; 32], &[8u8; 32], &[9u8; 32], body)
}

#[test]
fn message_layout_is_big_endian_at_fixed_offsets() {
    let body = vec![0xaa, 0xbb];
    let bytes = sample_message(&body);
    assert_eq!(bytes.len(), 118);
    assert_eq!(&bytes[0..4], &[0, 0, 0, 2]);
    assert_eq!(&bytes[4..8], &[0, 0, 0, 31]);
    assert_eq!(&bytes[8..12], &[0, 0, 0, 5]);
    assert_eq!(&bytes[12..20], &[1, 2, 3, 4, 5, 6, 7, 8]);
    assert_eq!(&bytes[20..52], &[7u8; 32]);
    assert_eq!(&bytes[52..84], &[8u8; 32]);
    assert_eq!(&bytes[84..116], &[9u8; 32]);
    assert_eq!(&bytes[116..], &[0xaa, 0xbb]);
}

#[test]
fn message_round_trip() {
    let body = vec![1, 2, 3, 4, 5];
    let bytes = sample_message(&body);
    let message = Message::new(2, &bytes).unwrap();
    assert_eq!(message.version(), 2);
    assert_eq!(message.source_domain(), 31);
    assert_eq!(message.destination_domain(), 5);
    assert_eq!(message.nonce(), 0x0102030405060708);
    assert_eq!(message.sender(), [7u8; 32]);
    assert_eq!(message.recipient(), [8u8; 32]);
    assert_eq!(message.destination_caller(), [9u8; 32]);
    assert_eq!(message.message_body(), body);
    assert_eq!(message.data(), &bytes[..]);
}

#[test]
fn message_with_empty_body() {
    let bytes = sample_message(&vec![]);
    assert_eq!(bytes.len(), 116);
    let message = Message::new(2, &bytes).unwrap();
    assert!(message.message_body().is_empty());
}

#[test]
fn message_too_short_is_a_format_error() {
    let bytes = sample_message(&vec![]);
    let err = Message::new(2, &bytes[..115]).err().unwrap();
    assert_eq!(err, TransmitterError::MalformedMessage);
    assert_eq!(err.kind(), ErrorKind::Format);
}

#[test]
fn message_of_another_version_is_refused() {
    let bytes = sample_message(&vec![1]);
    assert_eq!(Message::new(3, &bytes).err(), Some(TransmitterError::InvalidMessageVersion));
}

#[test]
fn message_extreme_field_values() {
    let body = vec![0xffu8; 3];
    let bytes = Message::format_message(
        u32::MAX,
        u32::MAX,
        0,
        u64::MAX,
        &[0xffu8; 32],
        &[1u8; 32],
        &[0u8; 32],
        &body,
    );
    let message = Message::new(u32::MAX, &bytes).unwrap();
    assert_eq!(message.source_domain(), u32::MAX);
    assert_eq!(message.destination_domain(), 0);
    assert_eq!(message.nonce(), u64::MAX);
}

#[test]
fn message_hash_is_keccak256() {
    let bytes = sample_message(&vec![]);
    let message = Message::new(2, &bytes).unwrap();
    let h1 = message.hash();
    let other = Message::new(2, &sample_message(&vec![0])).unwrap();
    assert_ne!(h1, other.hash());
    assert_ne!(h1.to_vec(), bytes[..32].to_vec());
    assert_eq!(h1, Message::new(2, &bytes).unwrap().hash());
}

#[test]
fn burn_message_layout() {
    let bytes = BurnMessage::format_message(2, &[3u8; 32], &[4u8; 32], 0x0a0b, &[5u8; 32]);
    assert_eq!(bytes.len(), 132);
    assert_eq!(&bytes[0..4], &[0, 0, 0, 2]);
    assert_eq!(&bytes[4..36], &[3u8; 32]);
    assert_eq!(&bytes[36..68], &[4u8; 32]);
    assert_eq!(&bytes[68..92], &[0u8; 24]);
    assert_eq!(&bytes[92..100], &[0, 0, 0, 0, 0, 0, 0x0a, 0x0b]);
    assert_eq!(&bytes[100..132], &[5u8; 32]);
}

#[test]
fn burn_message_round_trip() {
    let bytes = BurnMessage::format_message(2, &[3u8; 32], &[4u8; 32], 10, &[5u8; 32]);
    let burn = BurnMessage::new(2, &bytes).unwrap();
    assert_eq!(burn.version(), 2);
    assert_eq!(burn.burn_token(), [3u8; 32]);
    assert_eq!(burn.mint_recipient(), [4u8; 32]);
    assert_eq!(burn.amount(), 10);
    assert_eq!(burn.message_sender(), [5u8; 32]);
}

#[test]
fn burn_amount_round_trip_at_the_edges() {
    for amount in [0u64, 1, 255, 256, u32::MAX as u64, u64::MAX - 1, u64::MAX] {
        let bytes = BurnMessage::format_message(1, &[1u8; 32], &[2u8; 32], amount, &[3u8; 32]);
        assert_eq!(BurnMessage::new(1, &bytes).unwrap().amount(), amount);
    }
}

#[test]
fn burn_message_with_high_amount_bytes_is_refused() {
    let mut bytes = BurnMessage::format_message(2, &[3u8; 32], &[4u8; 32], 10, &[5u8; 32]);
    bytes[68] = 1;
    let err = BurnMessage::new(2, &bytes).err().unwrap();
    assert_eq!(err, MinterError::MalformedBurnMessage);
    assert_eq!(err.kind(), ErrorKind::Format);
}

#[test]
fn burn_message_too_short_or_of_another_version() {
    let bytes = BurnMessage::format_message(2, &[3u8; 32], &[4u8; 32], 10, &[5u8; 32]);
    assert_eq!(BurnMessage::new(2, &bytes[..131]).err(), Some(MinterError::MalformedBurnMessage));
    assert_eq!(BurnMessage::new(1, &bytes).err(), Some(MinterError::InvalidBurnMessageVersion));
}

#[test]
fn generic_address_conversions() {
    let account = generic_address_to_account_address([4u8; 32]);
    let contract = generic_address_to_contract_address([4u8; 32]);
    assert_eq!(account, Address::Account([4u8; 32]));
    assert_eq!(contract, Address::Contract([4u8; 32]));
    assert_ne!(account, contract);
    assert_eq!(generic_address(account), [4u8; 32]);
    assert_eq!(generic_address(contract), [4u8; 32]);
}
