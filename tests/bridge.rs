use cctp::message_transmitter::errors::Error as TransmitterError;
use cctp::message_transmitter::message::Message;
use cctp::message_transmitter::MessageTransmitter;
use cctp::token_messenger_minter::burn_message::BurnMessage;
use cctp::token_messenger_minter::errors::Error;
use cctp::token_messenger_minter::{BurnRequest, MintRequest, TokenMessengerMinter};
use cctp::{generic_address, generic_address_to_contract_address, Address, ErrorKind};

const OWNER: Address = Address::Account([100u8; 32]);
const MASTER_MINTER: Address = Address::Account([101u8; 32]);
const TRANSMITTER: Address = Address::Contract([50u8; 32]);
const MESSENGER: Address = Address::Contract([60u8; 32]);
const STABLECOIN: Address = Address::Contract([70u8; 32]);

fn setup_cctp_contracts_with_signature_threshold(
    signature_threshold: u32,
) -> (MessageTransmitter, TokenMessengerMinter) {
    let message_transmitter =
        MessageTransmitter::init(TRANSMITTER, 31, 2, 1_000_000, 0, signature_threshold, OWNER);
    let token_messenger_minter = TokenMessengerMinter::init(MESSENGER, 2, TRANSMITTER, 100, OWNER);
    (message_transmitter, token_messenger_minter)
}

#[test]
fn test_deposit_for_burn() {
    let (mut message_transmitter, mut token_messenger_minter) =
        setup_cctp_contracts_with_signature_threshold(0);
    let user = Address::Account([5u8; 32]);
    token_messenger_minter.link_token_pair(OWNER, STABLECOIN, [0u8; 32], 0u32).unwrap();
    let mint_recipient: [u8; 32] = [1u8; 32];
    token_messenger_minter.add_remote_token_messenger(OWNER, 0u32, [2u8; 32]).unwrap();
    let deposit = token_messenger_minter.deposit_for_burn(
        &mut message_transmitter,
        user,
        10,
        0u32,
        mint_recipient,
        STABLECOIN,
    );
    assert!(deposit.is_ok(), "DepositForBurn event not emitted");
    let deposit = deposit.unwrap();
    assert_eq!(deposit.burn, BurnRequest { token: STABLECOIN, owner: user, amount: 10 });
    assert_eq!(deposit.event.nonce, 0);
    assert_eq!(deposit.event.amount, 10);
    assert_eq!(deposit.event.depositor, [5u8; 32]);
    assert_eq!(deposit.event.mint_recipient, mint_recipient);
    assert_eq!(deposit.event.destination_domain, 0);
    assert_eq!(deposit.event.destination_token_messenger, [2u8; 32]);
    assert_eq!(deposit.event.destination_caller, [0u8; 32]);
    let message = Message::new(2, &deposit.message_sent.message);
    assert!(message.is_ok(), "MessageSent event not emitted");
    let message = message.unwrap();
    assert_eq!(message.source_domain(), 31);
    assert_eq!(message.destination_domain(), 0);
    assert_eq!(message.nonce(), 0);
    assert_eq!(message.sender(), generic_address(MESSENGER));
    assert_eq!(message.recipient(), [2u8; 32]);
    let burn = BurnMessage::new(2, &message.message_body()).unwrap();
    assert_eq!(burn.amount(), 10);
    assert_eq!(burn.mint_recipient(), mint_recipient);
    assert_eq!(burn.burn_token(), generic_address(STABLECOIN));
    assert_eq!(burn.message_sender(), [5u8; 32]);
    assert_eq!(message_transmitter.next_available_nonce(), 1);
    assert_eq!(deposit.message_sent.message.len(), 116 + 132);
    let _ = MASTER_MINTER;
    let _ = 32;
}

#[test]
fn setup_cctp_contracts_and_test_deposit_for_burn() {
    let (mut message_transmitter, mut token_messenger_minter) =
        setup_cctp_contracts_with_signature_threshold(1);
    let user = Address::Account([5u8; 32]);
    token_messenger_minter.link_token_pair(OWNER, STABLECOIN, [0u8; 32], 0u32).unwrap();
    token_messenger_minter.add_remote_token_messenger(OWNER, 0u32, [2u8; 32]).unwrap();
    let deposit = token_messenger_minter.deposit_for_burn(
        &mut message_transmitter,
        user,
        10,
        0u32,
        [1u8; 32],
        STABLECOIN,
    );
    assert!(deposit.is_ok(), "DepositForBurn event not emitted");
    assert_eq!(message_transmitter.local_domain(), 31);
    assert_eq!(token_messenger_minter.max_burn_amount_per_message(), 100);
}

#[test]
fn deposit_checks_amount_recipient_route_and_pause() {
    let (mut mt, mut tmm) = setup_cctp_contracts_with_signature_threshold(0);
    let user = Address::Account([5u8; 32]);
    let err = tmm.deposit_for_burn(&mut mt, user, 0, 0, [1u8; 32], STABLECOIN).err().unwrap();
    assert_eq!(err, Error::ZeroAmount);
    assert_eq!(err.kind(), ErrorKind::Validation);
    assert_eq!(
        tmm.deposit_for_burn(&mut mt, user, 10, 0, [0u8; 32], STABLECOIN).err(),
        Some(Error::ZeroMintRecipient)
    );
    assert_eq!(
        tmm.deposit_for_burn(&mut mt, user, 10, 0, [1u8; 32], STABLECOIN).err(),
        Some(Error::UnknownRemoteDomain)
    );
    tmm.add_remote_token_messenger(OWNER, 0, [2u8; 32]).unwrap();
    mt.pause(OWNER).unwrap();
    let err = tmm.deposit_for_burn(&mut mt, user, 10, 0, [1u8; 32], STABLECOIN).err().unwrap();
    assert_eq!(err, Error::Transmitter(TransmitterError::ContractIsPaused));
    assert_eq!(err.kind(), ErrorKind::Lifecycle);
    mt.unpause(OWNER).unwrap();
    tmm.pause(OWNER).unwrap();
    assert_eq!(
        tmm.deposit_for_burn(&mut mt, user, 10, 0, [1u8; 32], STABLECOIN).err(),
        Some(Error::ContractIsPaused)
    );
    tmm.unpause(OWNER).unwrap();
    assert_eq!(mt.next_available_nonce(), 0);
    let mut other = MessageTransmitter::init(Address::Contract([51u8; 32]), 31, 2, 1000, 0, 0, OWNER);
    assert_eq!(
        tmm.deposit_for_burn(&mut other, user, 10, 0, [1u8; 32], STABLECOIN).err(),
        Some(Error::InsufficientRights)
    );
    let deposit = tmm
        .deposit_for_burn_with_caller(&mut mt, user, 10, 0, [1u8; 32], [70u8; 32], [3u8; 32])
        .unwrap();
    assert_eq!(deposit.event.destination_caller, [3u8; 32]);
    let message = Message::new(2, &deposit.message_sent.message).unwrap();
    assert_eq!(message.destination_caller(), [3u8; 32]);
}

fn remote_burn_message(amount: u64) -> Vec<u8> {
    let remote_token_address: [u8; 32] = [10u8; 32];
    let remote_token_messenger: [u8; 32] = [11u8; 32];
    let message_body = BurnMessage::format_message(
        2,
        &remote_token_address,
        &[1u8; 32],
        amount,
        &remote_token_messenger,
    );
    Message::format_message(
        2,
        0,
        32,
        0,
        &remote_token_messenger,
        &generic_address(MESSENGER),
        &[0u8; 32],
        &message_body,
    )
}

#[test]
fn test_receive_message_from_remote_domain() {
    let (mut message_transmitter, mut token_messenger_minter) =
        setup_cctp_contracts_with_signature_threshold(0);
    let remote_token_address: [u8; 32] = [10u8; 32];
    let remote_token_messenger: [u8; 32] = [11u8; 32];
    let remote_domain: u32 = 0;
    token_messenger_minter
        .add_remote_token_messenger(OWNER, remote_domain, remote_token_messenger)
        .unwrap();
    token_messenger_minter
        .link_token_pair(OWNER, STABLECOIN, remote_token_address, remote_domain)
        .unwrap();
    let message = remote_burn_message(10);
    let message_typed = Message::new(2, &message).unwrap();
    let message_recipient_address = generic_address_to_contract_address(message_typed.recipient());
    assert_eq!(message_recipient_address, MESSENGER);
    let received = message_transmitter.receive_message(OWNER, &message, &[]);
    assert!(received.is_ok(), "MessageReceived event not emitted");
    let received = received.unwrap();
    let withdrawal = token_messenger_minter
        .handle_receive_message(
            TRANSMITTER,
            received.source_domain,
            received.sender,
            &received.message_body,
        )
        .unwrap();
    assert_eq!(
        withdrawal.mint,
        MintRequest { token: STABLECOIN, recipient: Address::Account([1u8; 32]), amount: 10 }
    );
    assert_eq!(withdrawal.event.mint_token, generic_address(STABLECOIN));
    assert_eq!(withdrawal.event.amount, 10);
    let _ = (32, 11, 100);
}

#[test]
fn handle_receive_checks_caller_sender_cap_and_link() {
    let (_mt, mut tmm) = setup_cctp_contracts_with_signature_threshold(0);
    let message = remote_burn_message(10);
    let body = message[116..].to_vec();
    let err = tmm.handle_receive_message(OWNER, 0, [11u8; 32], &body).err().unwrap();
    assert_eq!(err, Error::InsufficientRights);
    assert_eq!(err.kind(), ErrorKind::AccessControl);
    assert_eq!(
        tmm.handle_receive_message(TRANSMITTER, 0, [11u8; 32], &body).err(),
        Some(Error::UnknownRemoteDomain)
    );
    tmm.add_remote_token_messenger(OWNER, 0, [11u8; 32]).unwrap();
    assert_eq!(
        tmm.handle_receive_message(TRANSMITTER, 0, [12u8; 32], &body).err(),
        Some(Error::InvalidRemoteSender)
    );
    assert_eq!(
        tmm.handle_receive_message(TRANSMITTER, 0, [11u8; 32], &body).err(),
        Some(Error::UnlinkedTokenPair)
    );
    tmm.link_token_pair(OWNER, STABLECOIN, [10u8; 32], 0).unwrap();
    let big = remote_burn_message(101);
    assert_eq!(
        tmm.handle_receive_message(TRANSMITTER, 0, [11u8; 32], &big[116..]).err(),
        Some(Error::AmountExceedsLimit)
    );
    let at_cap = remote_burn_message(100);
    assert!(tmm.handle_receive_message(TRANSMITTER, 0, [11u8; 32], &at_cap[116..]).is_ok());
    tmm.pause(OWNER).unwrap();
    assert_eq!(
        tmm.handle_receive_message(TRANSMITTER, 0, [11u8; 32], &body).err(),
        Some(Error::ContractIsPaused)
    );
    assert_eq!(
        tmm.handle_receive_message(TRANSMITTER, 0, [11u8; 32], &body[..100]).err(),
        Some(Error::MalformedBurnMessage)
    );
}

#[test]
fn test_replace_message() {
    let (message_transmitter, mut token_messenger_minter) =
        setup_cctp_contracts_with_signature_threshold(0);
    let remote_token_address: [u8; 32] = [10u8; 32];
    let remote_token_messenger: [u8; 32] = [11u8; 32];
    let remote_domain: u32 = 0;
    let mint_recipient = Address::Account([100u8; 32]);
    token_messenger_minter
        .add_remote_token_messenger(OWNER, remote_domain, remote_token_messenger)
        .unwrap();
    token_messenger_minter
        .link_token_pair(OWNER, STABLECOIN, remote_token_address, remote_domain)
        .unwrap();
    let message_body = BurnMessage::format_message(
        2,
        &remote_token_address,
        &generic_address(mint_recipient),
        10,
        &generic_address(OWNER),
    );
    let message = Message::format_message(
        2,
        31,
        0,
        0,
        &generic_address(MESSENGER),
        &generic_address(MESSENGER),
        &[0u8; 32],
        &message_body,
    );
    let message_typed = Message::new(2, &message).unwrap();
    let message_recipient_address = generic_address_to_contract_address(message_typed.recipient());
    assert_eq!(message_recipient_address, MESSENGER);
    let replaced = token_messenger_minter.replace_deposit_for_burn(
        &message_transmitter,
        OWNER,
        &message,
        &[],
        [0u8; 32],
        [1u8; 32],
    );
    assert!(replaced.is_ok(), "MessageSent event not emitted");
    let (sent, event) = replaced.unwrap();
    let new_message = Message::new(2, &sent.message).unwrap();
    assert_eq!(new_message.nonce(), 0);
    assert_eq!(new_message.sender(), generic_address(MESSENGER));
    let new_burn = BurnMessage::new(2, &new_message.message_body()).unwrap();
    assert_eq!(new_burn.mint_recipient(), [1u8; 32]);
    assert_eq!(new_burn.amount(), 10);
    assert_eq!(event.mint_recipient, [1u8; 32]);
    assert_eq!(event.nonce, 0);
    assert_eq!(event.destination_domain, 0);
    let other = Address::Account([7u8; 32]);
    assert_eq!(
        token_messenger_minter
            .replace_deposit_for_burn(&message_transmitter, other, &message, &[], [0u8; 32], [1u8; 32])
            .err(),
        Some(Error::InsufficientRights)
    );
    assert_eq!(
        token_messenger_minter
            .replace_deposit_for_burn(&message_transmitter, OWNER, &message, &[], [0u8; 32], [0u8; 32])
            .err(),
        Some(Error::ZeroMintRecipient)
    );
    let _ = (32, 31, 100);
}

#[test]
fn test_set_remote_token_messenger() {
    let (_mt, mut token_messenger_minter) = setup_cctp_contracts_with_signature_threshold(0);
    let added = token_messenger_minter.add_remote_token_messenger(OWNER, 0, [0; 32]).unwrap();
    assert_eq!(added.domain, 0);
    assert_eq!(token_messenger_minter.remote_token_messenger(0), Some([0; 32]));
    let removed = token_messenger_minter.remove_remote_token_messenger(OWNER, 0).unwrap();
    assert_eq!(removed.token_messenger, [0; 32]);
    assert_eq!(token_messenger_minter.remote_token_messenger(0), None);
    assert_eq!(
        token_messenger_minter.remove_remote_token_messenger(OWNER, 0).err(),
        Some(Error::UnknownRemoteDomain)
    );
    let _ = 32;
}

#[test]
fn routes_and_links_keep_the_latest_write() {
    let (_mt, mut tmm) = setup_cctp_contracts_with_signature_threshold(0);
    tmm.add_remote_token_messenger(OWNER, 3, [1u8; 32]).unwrap();
    tmm.add_remote_token_messenger(OWNER, 4, [2u8; 32]).unwrap();
    tmm.add_remote_token_messenger(OWNER, 3, [5u8; 32]).unwrap();
    assert_eq!(tmm.remote_token_messenger(3), Some([5u8; 32]));
    assert_eq!(tmm.remote_token_messenger(4), Some([2u8; 32]));
    assert_eq!(
        tmm.add_remote_token_messenger(MASTER_MINTER, 3, [6u8; 32]).err(),
        Some(Error::InsufficientRights)
    );
    let other_token = Address::Contract([71u8; 32]);
    tmm.link_token_pair(OWNER, STABLECOIN, [9u8; 32], 3).unwrap();
    tmm.link_token_pair(OWNER, other_token, [9u8; 32], 4).unwrap();
    assert_eq!(tmm.local_token(3, [9u8; 32]), Some(STABLECOIN));
    assert_eq!(tmm.local_token(4, [9u8; 32]), Some(other_token));
    let unlinked = tmm.unlink_token_pair(OWNER, [9u8; 32], 3).unwrap();
    assert_eq!(unlinked.local_token, generic_address(STABLECOIN));
    assert_eq!(tmm.local_token(3, [9u8; 32]), None);
    assert_eq!(tmm.unlink_token_pair(OWNER, [9u8; 32], 3).err(), Some(Error::UnlinkedTokenPair));
}

#[test]
fn minter_ownership_and_cap() {
    let (_mt, mut tmm) = setup_cctp_contracts_with_signature_threshold(0);
    let next = Address::Account([7u8; 32]);
    assert_eq!(tmm.accept_ownership(next), Err(Error::NoPendingOwner));
    tmm.transfer_ownership(OWNER, next).unwrap();
    assert_eq!(tmm.accept_ownership(OWNER), Err(Error::InsufficientRights));
    tmm.accept_ownership(next).unwrap();
    assert_eq!(tmm.owner(), next);
    assert_eq!(tmm.set_max_burn_amount_per_message(OWNER, 5), Err(Error::InsufficientRights));
    tmm.set_max_burn_amount_per_message(next, 5).unwrap();
    assert_eq!(tmm.max_burn_amount_per_message(), 5);
    assert_eq!(tmm.local_message_transmitter(), TRANSMITTER);
    assert_eq!(tmm.version(), 2);
    assert_eq!(tmm.address(), MESSENGER);
}
