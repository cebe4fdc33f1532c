//! The token messenger and minter: burns tokens here and sends the instruction to mint them
//! on another domain, and mints tokens here for burns on other domains. The ledger is not
//! part of it: each operation returns the burn or the mint that the ledger must perform, and
//! the whole call stands only if the ledger performs it.
use vstd::prelude::*;
use crate::bytes::{bytes_equal, is_zero, zeros};
use crate::message_transmitter::events::MessageSent;
use crate::message_transmitter::message::{
    message_body, message_bytes, message_destination_domain, message_nonce, message_parse_error,
    message_recipient, message_sender, Message,
};
use crate::message_transmitter::{after_send, replace_error, send_error, MessageTransmitter, TransmitterView};
use crate::{generic_address, generic_address_to_account_address, generic_address_to_contract_address, Address, GenericAddress};

pub mod burn_message;
pub mod errors;
pub mod events;
pub mod storage;

use burn_message::{
    burn_amount, burn_message_bytes, burn_message_sender, burn_mint_recipient, burn_parse_error,
    burn_token, burn_version, BurnMessage,
};
use errors::Error;
use events::{
    DepositForBurn, MintAndWithdraw, RemoteTokenMessengerAdded, RemoteTokenMessengerRemoved,
    TokenPairLinked, TokenPairUnlinked,
};
use storage::{LinkedTokenPairs, RemoteTokenMessengers};

verus! {

/// A burn the ledger must perform: `amount` of `token`, from `owner`.
#[derive(Debug, Clone, Copy, PartialEq, Eq)]
pub struct BurnRequest {
    pub token: Address,
    pub owner: Address,
    pub amount: u64,
}

/// A mint the ledger must perform: `amount` of `token`, to `recipient`.
#[derive(Debug, Clone, Copy, PartialEq, Eq)]
pub struct MintRequest {
    pub token: Address,
    pub recipient: Address,
    pub amount: u64,
}

/// What a deposit for burn does: the burn, the message sent, and the deposit event.
#[derive(Debug, Clone, PartialEq, Eq)]
pub struct Deposit {
    pub burn: BurnRequest,
    pub message_sent: MessageSent,
    pub event: DepositForBurn,
}

/// What a received burn does: the mint, and the mint event.
#[derive(Debug, Clone, Copy, PartialEq, Eq)]
pub struct Withdrawal {
    pub mint: MintRequest,
    pub event: MintAndWithdraw,
}

/// What the token messenger holds, as plain values.
pub struct MinterView {
    pub address: Address,
    pub version: u32,
    pub paused: bool,
    pub local_message_transmitter: Address,
    pub remote_token_messengers: Map<u32, GenericAddress>,
    pub max_burn_amount_per_message: u64,
    pub owner: Address,
    pub pending_owner: Option<Address>,
    pub linked_token_pairs: Map<(u32, Seq<u8>), Address>,
}

/// Why a deposit for burn fails, if it does.
pub open spec fn deposit_error(
    v: MinterView,
    t: TransmitterView,
    amount: u64,
    destination_domain: u32,
    mint_recipient: Seq<u8>,
) -> Option<Error> {
    if amount == 0 {
        Some(Error::ZeroAmount)
    } else if mint_recipient == zeros(32) {
        Some(Error::ZeroMintRecipient)
    } else if v.paused {
        Some(Error::ContractIsPaused)
    } else if t.address != v.local_message_transmitter {
        Some(Error::InsufficientRights)
    } else if !v.remote_token_messengers.contains_key(destination_domain) {
        Some(Error::UnknownRemoteDomain)
    } else {
        match send_error(t, v.remote_token_messengers[destination_domain]@, 132) {
            Some(e) => Some(Error::Transmitter(e)),
            None => None,
        }
    }
}

/// Why handling a received message body fails, if it does.
pub open spec fn handle_error(
    v: MinterView,
    caller: Address,
    remote_domain: u32,
    sender: Seq<u8>,
    body: Seq<u8>,
) -> Option<Error> {
    if caller != v.local_message_transmitter {
        Some(Error::InsufficientRights)
    } else if !v.remote_token_messengers.contains_key(remote_domain) {
        Some(Error::UnknownRemoteDomain)
    } else if v.remote_token_messengers[remote_domain]@ != sender {
        Some(Error::InvalidRemoteSender)
    } else {
        match burn_parse_error(v.version, body) {
            Some(e) => Some(e),
            None => if burn_amount(body) > v.max_burn_amount_per_message as nat {
                Some(Error::AmountExceedsLimit)
            } else if v.paused {
                Some(Error::ContractIsPaused)
            } else if !v.linked_token_pairs.contains_key((remote_domain, burn_token(body))) {
                Some(Error::UnlinkedTokenPair)
            } else {
                None
            },
        }
    }
}

/// Why replacing a deposit for burn fails, if it does.
pub open spec fn replace_deposit_error(
    v: MinterView,
    t: TransmitterView,
    caller: Address,
    original: Seq<u8>,
    attestation: Seq<u8>,
    new_mint_recipient: Seq<u8>,
) -> Option<Error> {
    match message_parse_error(v.version, original) {
        Some(e) => Some(Error::Transmitter(e)),
        None => match burn_parse_error(v.version, message_body(original)) {
            Some(e) => Some(e),
            None => if caller.hash()@ != burn_message_sender(message_body(original)) {
                Some(Error::InsufficientRights)
            } else if new_mint_recipient == zeros(32) {
                Some(Error::ZeroMintRecipient)
            } else if t.address != v.local_message_transmitter {
                Some(Error::InsufficientRights)
            } else {
                match replace_error(t, v.address, original, attestation, 132) {
                    Some(e) => Some(Error::Transmitter(e)),
                    None => None,
                }
            },
        },
    }
}

/// Burns tokens for other domains and mints tokens for burns on other domains.
#[derive(Debug, Clone)]
pub struct TokenMessengerMinter {
    address: Address,
    version: u32,
    paused: bool,
    local_message_transmitter: Address,
    remote_token_messengers: RemoteTokenMessengers,
    max_burn_amount_per_message: u64,
    owner: Address,
    pending_owner: Option<Address>,
    linked_token_pairs: LinkedTokenPairs,
}

impl View for TokenMessengerMinter {
    type V = MinterView;

    closed spec fn view(&self) -> MinterView {
        MinterView {
            address: self.address,
            version: self.version,
            paused: self.paused,
            local_message_transmitter: self.local_message_transmitter,
            remote_token_messengers: self.remote_token_messengers.routes(),
            max_burn_amount_per_message: self.max_burn_amount_per_message,
            owner: self.owner,
            pending_owner: self.pending_owner,
            linked_token_pairs: self.linked_token_pairs.pairs(),
        }
    }
}


impl TokenMessengerMinter {
    /// A token messenger at `address`, active, with no route and no linked token.
    pub fn init(
        address: Address,
        version: u32,
        local_message_transmitter: Address,
        max_burn_amount_per_message: u64,
        owner: Address,
    ) -> (r: TokenMessengerMinter)
        ensures
            r@ == (MinterView {
                address,
                version,
                paused: false,
                local_message_transmitter,
                remote_token_messengers: Map::empty(),
                max_burn_amount_per_message,
                owner,
                pending_owner: None,
                linked_token_pairs: Map::empty(),
            }),
    {
        TokenMessengerMinter {
            address,
            version,
            paused: false,
            local_message_transmitter,
            remote_token_messengers: RemoteTokenMessengers::new(),
            max_burn_amount_per_message,
            owner,
            pending_owner: None,
            linked_token_pairs: LinkedTokenPairs::new(),
        }
    }

    /// Burns `amount` of `burn_token` from the caller and sends the instruction to mint it for
    /// `mint_recipient` on `destination_domain`, through `transmitter`.
    pub fn deposit_for_burn(
        &self,
        transmitter: &mut MessageTransmitter,
        caller: Address,
        amount: u64,
        destination_domain: u32,
        mint_recipient: GenericAddress,
        burn_token: Address,
    ) -> (r: Result<Deposit, Error>)
        ensures
            match deposit_error(self@, old(transmitter)@, amount, destination_domain, mint_recipient@) {
                Some(e) => r == Err::<Deposit, Error>(e) && final(transmitter)@ == old(transmitter)@,
                None => {
                    let route = self@.remote_token_messengers[destination_domain];
                    let nonce = old(transmitter)@.next_available_nonce;
                    &&& r is Ok
                    &&& final(transmitter)@ == after_send(old(transmitter)@)
                    &&& r->Ok_0.burn == (BurnRequest {
                        token: Address::Contract(burn_token.hash()),
                        owner: caller,
                        amount,
                    })
                    &&& r->Ok_0.message_sent.message@ == message_bytes(
                        old(transmitter)@.version,
                        old(transmitter)@.local_domain,
                        destination_domain,
                        nonce,
                        self@.address.hash()@,
                        route@,
                        zeros(32),
                        burn_message_bytes(
                            self@.version,
                            burn_token.hash()@,
                            mint_recipient@,
                            amount,
                            caller.hash()@,
                        ),
                    )
                    &&& r->Ok_0.event == (DepositForBurn {
                        nonce,
                        burn_token: burn_token.hash(),
                        amount,
                        depositor: caller.hash(),
                        mint_recipient,
                        destination_domain,
                        destination_token_messenger: route,
                        destination_caller: r->Ok_0.event.destination_caller,
                    })
                    &&& r->Ok_0.event.destination_caller@ == zeros(32)
                },
            },
    {
        let zero: GenericAddress = [0u8; 32];
        assert(zero@ =~= zeros(32));
        self.deposit(
            transmitter,
            caller,
            amount,
            destination_domain,
            mint_recipient,
            generic_address(burn_token),
            zero,
        )
    }

    /// As `deposit_for_burn`, for a token named by its generic address, and to be received
    /// on the destination domain only by `destination_caller` (any caller if it is zero).
    pub fn deposit_for_burn_with_caller(
        &self,
        transmitter: &mut MessageTransmitter,
        caller: Address,
        amount: u64,
        destination_domain: u32,
        mint_recipient: GenericAddress,
        burn_token: GenericAddress,
        destination_caller: GenericAddress,
    ) -> (r: Result<Deposit, Error>)
        ensures
            match deposit_error(self@, old(transmitter)@, amount, destination_domain, mint_recipient@) {
                Some(e) => r == Err::<Deposit, Error>(e) && final(transmitter)@ == old(transmitter)@,
                None => {
                    let route = self@.remote_token_messengers[destination_domain];
                    let nonce = old(transmitter)@.next_available_nonce;
                    &&& r is Ok
                    &&& final(transmitter)@ == after_send(old(transmitter)@)
                    &&& r->Ok_0.burn == (BurnRequest {
                        token: Address::Contract(burn_token),
                        owner: caller,
                        amount,
                    })
                    &&& r->Ok_0.message_sent.message@ == message_bytes(
                        old(transmitter)@.version,
                        old(transmitter)@.local_domain,
                        destination_domain,
                        nonce,
                        self@.address.hash()@,
                        route@,
                        destination_caller@,
                        burn_message_bytes(
                            self@.version,
                            burn_token@,
                            mint_recipient@,
                            amount,
                            caller.hash()@,
                        ),
                    )
                    &&& r->Ok_0.event == (DepositForBurn {
                        nonce,
                        burn_token,
                        amount,
                        depositor: caller.hash(),
                        mint_recipient,
                        destination_domain,
                        destination_token_messenger: route,
                        destination_caller,
                    })
                },
            },
    {
        self.deposit(
            transmitter,
            caller,
            amount,
            destination_domain,
            mint_recipient,
            burn_token,
            destination_caller,
        )
    }

    fn deposit(
        &self,
        transmitter: &mut MessageTransmitter,
        caller: Address,
        amount: u64,
        destination_domain: u32,
        mint_recipient: GenericAddress,
        burn_token: GenericAddress,
        destination_caller: GenericAddress,
    ) -> (r: Result<Deposit, Error>)
        ensures
            match deposit_error(self@, old(transmitter)@, amount, destination_domain, mint_recipient@) {
                Some(e) => r == Err::<Deposit, Error>(e) && final(transmitter)@ == old(transmitter)@,
                None => {
                    let route = self@.remote_token_messengers[destination_domain];
                    let nonce = old(transmitter)@.next_available_nonce;
                    &&& r is Ok
                    &&& final(transmitter)@ == after_send(old(transmitter)@)
                    &&& r->Ok_0.burn == (BurnRequest {
                        token: Address::Contract(burn_token),
                        owner: caller,
                        amount,
                    })
                    &&& r->Ok_0.message_sent.message@ == message_bytes(
                        old(transmitter)@.version,
                        old(transmitter)@.local_domain,
                        destination_domain,
                        nonce,
                        self@.address.hash()@,
                        route@,
                        destination_caller@,
                        burn_message_bytes(
                            self@.version,
                            burn_token@,
                            mint_recipient@,
                            amount,
                            caller.hash()@,
                        ),
                    )
                    &&& r->Ok_0.event == (DepositForBurn {
                        nonce,
                        burn_token,
                        amount,
                        depositor: caller.hash(),
                        mint_recipient,
                        destination_domain,
                        destination_token_messenger: route,
                        destination_caller,
                    })
                },
            },
    {
        if amount == 0 {
            return Err(Error::ZeroAmount);
        }
        if is_zero(&mint_recipient) {
            return Err(Error::ZeroMintRecipient);
        }
        if self.paused {
            return Err(Error::ContractIsPaused);
        }
        if !transmitter.address().equals(&self.local_message_transmitter) {
            return Err(Error::InsufficientRights);
        }
        let route = match self.remote_token_messengers.get_remote_token_messenger(destination_domain) {
            Some(route) => route,
            None => return Err(Error::UnknownRemoteDomain),
        };
        let depositor = generic_address(caller);
        let body = BurnMessage::format_message(
            self.version,
            &burn_token,
            &mint_recipient,
            amount,
            &depositor,
        );
        proof {
            crate::token_messenger_minter::burn_message::lemma_burn_message_round_trip(
                self@.version,
                burn_token@,
                mint_recipient@,
                amount,
                depositor@,
            );
        }
        let sent = transmitter.send_message_with_caller(
            self.address,
            destination_domain,
            route,
            body,
            destination_caller,
        );
        match sent {
            Ok((nonce, message_sent)) => Ok(
                Deposit {
                    burn: BurnRequest {
                        token: generic_address_to_contract_address(burn_token),
                        owner: caller,
                        amount,
                    },
                    message_sent,
                    event: DepositForBurn {
                        nonce,
                        burn_token,
                        amount,
                        depositor,
                        mint_recipient,
                        destination_domain,
                        destination_token_messenger: route,
                        destination_caller,
                    },
                },
            ),
            Err(e) => Err(Error::Transmitter(e)),
        }
    }

    /// Handles the body of a message received by the local transmitter from `sender` on
    /// `remote_domain`: checks that it comes from the domain's counterpart, decodes the burn,
    /// and returns the mint to perform.
    pub fn handle_receive_message(
        &self,
        caller: Address,
        remote_domain: u32,
        sender: GenericAddress,
        message_body: &[u8],
    ) -> (r: Result<Withdrawal, Error>)
        ensures
            match handle_error(self@, caller, remote_domain, sender@, message_body@) {
                Some(e) => r == Err::<Withdrawal, Error>(e),
                None => {
                    let local_token = self@.linked_token_pairs[(
                        remote_domain,
                        burn_token(message_body@),
                    )];
                    &&& r is Ok
                    &&& r->Ok_0.event.mint_recipient@ == burn_mint_recipient(message_body@)
                    &&& r->Ok_0.event.amount as nat == burn_amount(message_body@)
                    &&& r->Ok_0.event.mint_token == local_token.hash()
                    &&& r->Ok_0.mint == (MintRequest {
                        token: local_token,
                        recipient: Address::Account(r->Ok_0.event.mint_recipient),
                        amount: r->Ok_0.event.amount,
                    })
                },
            },
    {
        if !caller.equals(&self.local_message_transmitter) {
            return Err(Error::InsufficientRights);
        }
        let route = match self.remote_token_messengers.get_remote_token_messenger(remote_domain) {
            Some(route) => route,
            None => return Err(Error::UnknownRemoteDomain),
        };
        if !bytes_equal(&route, &sender) {
            return Err(Error::InvalidRemoteSender);
        }
        let burn = match BurnMessage::new(self.version, message_body) {
            Ok(b) => b,
            Err(e) => return Err(e),
        };
        let mint_recipient = burn.mint_recipient();
        let remote_token = burn.burn_token();
        let amount = burn.amount();
        if amount > self.max_burn_amount_per_message {
            return Err(Error::AmountExceedsLimit);
        }
        if self.paused {
            return Err(Error::ContractIsPaused);
        }
        let local_token = match self.linked_token_pairs.get(remote_domain, &remote_token) {
            Some(t) => t,
            None => return Err(Error::UnlinkedTokenPair),
        };
        Ok(
            Withdrawal {
                mint: MintRequest {
                    token: local_token,
                    recipient: generic_address_to_account_address(mint_recipient),
                    amount,
                },
                event: MintAndWithdraw {
                    mint_recipient,
                    amount,
                    mint_token: generic_address(local_token),
                },
            },
        )
    }

    /// Sends again a deposit for burn that was attested, with a new mint recipient and
    /// destination caller; only the original depositor may do so.
    pub fn replace_deposit_for_burn(
        &self,
        transmitter: &MessageTransmitter,
        caller: Address,
        original_message: &[u8],
        original_attestation: &[u8],
        new_destination_caller: GenericAddress,
        new_mint_recipient: GenericAddress,
    ) -> (r: Result<(MessageSent, DepositForBurn), Error>)
        ensures
            match replace_deposit_error(
                self@,
                transmitter@,
                caller,
                original_message@,
                original_attestation@,
                new_mint_recipient@,
            ) {
                Some(e) => r == Err::<(MessageSent, DepositForBurn), Error>(e),
                None => {
                    let body = message_body(original_message@);
                    &&& r is Ok
                    &&& r->Ok_0.0.message@ == message_bytes(
                        transmitter@.version,
                        transmitter@.local_domain,
                        message_destination_domain(original_message@) as u32,
                        message_nonce(original_message@) as u64,
                        message_sender(original_message@),
                        message_recipient(original_message@),
                        new_destination_caller@,
                        burn_message_bytes(
                            burn_version(body) as u32,
                            burn_token(body),
                            new_mint_recipient@,
                            burn_amount(body) as u64,
                            burn_message_sender(body),
                        ),
                    )
                    &&& r->Ok_0.1.nonce as nat == message_nonce(original_message@)
                    &&& r->Ok_0.1.burn_token@ == burn_token(body)
                    &&& r->Ok_0.1.amount as nat == burn_amount(body)
                    &&& r->Ok_0.1.depositor == caller.hash()
                    &&& r->Ok_0.1.mint_recipient == new_mint_recipient
                    &&& r->Ok_0.1.destination_domain as nat == message_destination_domain(
                        original_message@,
                    )
                    &&& r->Ok_0.1.destination_token_messenger@ == message_recipient(
                        original_message@,
                    )
                    &&& r->Ok_0.1.destination_caller == new_destination_caller
                },
            },
    {
        let original = match Message::new(self.version, original_message) {
            Ok(m) => m,
            Err(e) => return Err(Error::Transmitter(e)),
        };
        let body = original.message_body();
        let burn = match BurnMessage::new(self.version, body.as_slice()) {
            Ok(b) => b,
            Err(e) => return Err(e),
        };
        let remote_token = burn.burn_token();
        let amount = burn.amount();
        let sender = burn.message_sender();
        let depositor = generic_address(caller);
        if !bytes_equal(&depositor, &sender) {
            return Err(Error::InsufficientRights);
        }
        if is_zero(&new_mint_recipient) {
            return Err(Error::ZeroMintRecipient);
        }
        if !transmitter.address().equals(&self.local_message_transmitter) {
            return Err(Error::InsufficientRights);
        }
        let version = burn.version();
        let new_body = BurnMessage::format_message(
            version,
            &remote_token,
            &new_mint_recipient,
            amount,
            &sender,
        );
        proof {
            crate::token_messenger_minter::burn_message::lemma_burn_message_round_trip(
                version,
                remote_token@,
                new_mint_recipient@,
                amount,
                sender@,
            );
        }
        let message_sent = match transmitter.replace_message(
            self.address,
            original_message,
            original_attestation,
            new_body,
            new_destination_caller,
        ) {
            Ok(m) => m,
            Err(e) => return Err(Error::Transmitter(e)),
        };
        let event = DepositForBurn {
            nonce: original.nonce(),
            burn_token: remote_token,
            amount,
            depositor,
            mint_recipient: new_mint_recipient,
            destination_domain: original.destination_domain(),
            destination_token_messenger: original.recipient(),
            destination_caller: new_destination_caller,
        };
        Ok((message_sent, event))
    }

    /// Names the pending owner, who must then accept; owner only.
    pub fn transfer_ownership(&mut self, caller: Address, new_pending_owner: Address) -> (r: Result<(), Error>)
        ensures
            caller != old(self)@.owner ==> r == Err::<(), Error>(Error::InsufficientRights)
                && final(self)@ == old(self)@,
            caller == old(self)@.owner ==> r is Ok && final(self)@ == (MinterView {
                pending_owner: Some(new_pending_owner),
                ..old(self)@
            }),
    {
        match self.require_owner(caller) {
            Ok(()) => {},
            Err(e) => return Err(e),
        }
        self.pending_owner = Some(new_pending_owner);
        Ok(())
    }

    /// Pauses burning and minting; owner only.
    pub fn pause(&mut self, caller: Address) -> (r: Result<(), Error>)
        ensures
            caller != old(self)@.owner ==> r == Err::<(), Error>(Error::InsufficientRights)
                && final(self)@ == old(self)@,
            caller == old(self)@.owner ==> r is Ok && final(self)@ == (MinterView {
                paused: true,
                ..old(self)@
            }),
    {
        match self.require_owner(caller) {
            Ok(()) => {},
            Err(e) => return Err(e),
        }
        self.paused = true;
        Ok(())
    }

    /// Resumes burning and minting; owner only.
    pub fn unpause(&mut self, caller: Address) -> (r: Result<(), Error>)
        ensures
            caller != old(self)@.owner ==> r == Err::<(), Error>(Error::InsufficientRights)
                && final(self)@ == old(self)@,
            caller == old(self)@.owner ==> r is Ok && final(self)@ == (MinterView {
                paused: false,
                ..old(self)@
            }),
    {
        match self.require_owner(caller) {
            Ok(()) => {},
            Err(e) => return Err(e),
        }
        self.paused = false;
        Ok(())
    }

    /// Sets the largest amount a received burn may mint; owner only.
    pub fn set_max_burn_amount_per_message(&mut self, caller: Address, amount: u64) -> (r: Result<(), Error>)
        ensures
            caller != old(self)@.owner ==> r == Err::<(), Error>(Error::InsufficientRights)
                && final(self)@ == old(self)@,
            caller == old(self)@.owner ==> r is Ok && final(self)@ == (MinterView {
                max_burn_amount_per_message: amount,
                ..old(self)@
            }),
    {
        match self.require_owner(caller) {
            Ok(()) => {},
            Err(e) => return Err(e),
        }
        self.max_burn_amount_per_message = amount;
        Ok(())
    }

    fn require_owner(&self, caller: Address) -> (r: Result<(), Error>)
        ensures
            caller == self@.owner ==> r is Ok,
            caller != self@.owner ==> r == Err::<(), Error>(Error::InsufficientRights),
    {
        if caller.equals(&self.owner) {
            Ok(())
        } else {
            Err(Error::InsufficientRights)
        }
    }

    /// Makes the pending owner the owner; only the pending owner may call it.
    pub fn accept_ownership(&mut self, caller: Address) -> (r: Result<(), Error>)
        ensures
            old(self)@.pending_owner is None ==> r == Err::<(), Error>(Error::NoPendingOwner)
                && final(self)@ == old(self)@,
            old(self)@.pending_owner matches Some(p) && caller != p ==> r == Err::<(), Error>(
                Error::InsufficientRights,
            ) && final(self)@ == old(self)@,
            old(self)@.pending_owner == Some(caller) ==> r is Ok && final(self)@ == (MinterView {
                owner: caller,
                pending_owner: None,
                ..old(self)@
            }),
    {
        match self.pending_owner {
            None => Err(Error::NoPendingOwner),
            Some(pending) => {
                if !caller.equals(&pending) {
                    return Err(Error::InsufficientRights);
                }
                self.owner = pending;
                self.pending_owner = None;
                Ok(())
            },
        }
    }

    /// Registers `remote_token_messenger` as the counterpart on `domain`; owner only.
    pub fn add_remote_token_messenger(
        &mut self,
        caller: Address,
        domain: u32,
        remote_token_messenger: GenericAddress,
    ) -> (r: Result<RemoteTokenMessengerAdded, Error>)
        ensures
            caller != old(self)@.owner ==> r == Err::<RemoteTokenMessengerAdded, Error>(
                Error::InsufficientRights,
            ) && final(self)@ == old(self)@,
            caller == old(self)@.owner ==> r == Ok::<RemoteTokenMessengerAdded, Error>(
                RemoteTokenMessengerAdded { domain, token_messenger: remote_token_messenger },
            ) && final(self)@ == (MinterView {
                remote_token_messengers: old(self)@.remote_token_messengers.insert(
                    domain,
                    remote_token_messenger,
                ),
                ..old(self)@
            }),
    {
        match self.require_owner(caller) {
            Ok(()) => {},
            Err(e) => return Err(e),
        }
        self.remote_token_messengers.add_remote_token_messenger(domain, remote_token_messenger);
        Ok(RemoteTokenMessengerAdded { domain, token_messenger: remote_token_messenger })
    }

    /// Clears the counterpart on `domain`; owner only, and only if there is one.
    pub fn remove_remote_token_messenger(&mut self, caller: Address, domain: u32) -> (r: Result<
        RemoteTokenMessengerRemoved,
        Error,
    >)
        ensures
            caller != old(self)@.owner ==> r == Err::<RemoteTokenMessengerRemoved, Error>(
                Error::InsufficientRights,
            ) && final(self)@ == old(self)@,
            caller == old(self)@.owner && !old(self)@.remote_token_messengers.contains_key(domain)
                ==> r == Err::<RemoteTokenMessengerRemoved, Error>(Error::UnknownRemoteDomain)
                && final(self)@ == old(self)@,
            caller == old(self)@.owner && old(self)@.remote_token_messengers.contains_key(domain)
                ==> r == Ok::<RemoteTokenMessengerRemoved, Error>(
                RemoteTokenMessengerRemoved {
                    domain,
                    token_messenger: old(self)@.remote_token_messengers[domain],
                },
            ) && final(self)@ == (MinterView {
                remote_token_messengers: old(self)@.remote_token_messengers.remove(domain),
                ..old(self)@
            }),
    {
        match self.require_owner(caller) {
            Ok(()) => {},
            Err(e) => return Err(e),
        }
        let token_messenger = match self.remote_token_messengers.get_remote_token_messenger(domain) {
            Some(t) => t,
            None => return Err(Error::UnknownRemoteDomain),
        };
        self.remote_token_messengers.remove_remote_token_messenger(domain);
        Ok(RemoteTokenMessengerRemoved { domain, token_messenger })
    }

    /// Links `local_token` to `remote_token` of `domain`; owner only.
    pub fn link_token_pair(
        &mut self,
        caller: Address,
        local_token: Address,
        remote_token: GenericAddress,
        domain: u32,
    ) -> (r: Result<TokenPairLinked, Error>)
        ensures
            caller != old(self)@.owner ==> r == Err::<TokenPairLinked, Error>(
                Error::InsufficientRights,
            ) && final(self)@ == old(self)@,
            caller == old(self)@.owner ==> r == Ok::<TokenPairLinked, Error>(
                TokenPairLinked { local_token: local_token.hash(), remote_token, domain },
            ) && final(self)@ == (MinterView {
                linked_token_pairs: old(self)@.linked_token_pairs.insert(
                    (domain, remote_token@),
                    local_token,
                ),
                ..old(self)@
            }),
    {
        match self.require_owner(caller) {
            Ok(()) => {},
            Err(e) => return Err(e),
        }
        self.linked_token_pairs.link(domain, remote_token, local_token);
        Ok(TokenPairLinked { local_token: generic_address(local_token), remote_token, domain })
    }

    /// Unlinks `remote_token` of `domain`; owner only, and only if it is linked.
    pub fn unlink_token_pair(&mut self, caller: Address, remote_token: GenericAddress, domain: u32) -> (r:
        Result<TokenPairUnlinked, Error>)
        ensures
            caller != old(self)@.owner ==> r == Err::<TokenPairUnlinked, Error>(
                Error::InsufficientRights,
            ) && final(self)@ == old(self)@,
            caller == old(self)@.owner && !old(self)@.linked_token_pairs.contains_key(
                (domain, remote_token@),
            ) ==> r == Err::<TokenPairUnlinked, Error>(Error::UnlinkedTokenPair) && final(self)@
                == old(self)@,
            caller == old(self)@.owner && old(self)@.linked_token_pairs.contains_key(
                (domain, remote_token@),
            ) ==> r == Ok::<TokenPairUnlinked, Error>(
                TokenPairUnlinked {
                    local_token: old(self)@.linked_token_pairs[(domain, remote_token@)].hash(),
                    remote_token,
                    domain,
                },
            ) && final(self)@ == (MinterView {
                linked_token_pairs: old(self)@.linked_token_pairs.remove((domain, remote_token@)),
                ..old(self)@
            }),
    {
        match self.require_owner(caller) {
            Ok(()) => {},
            Err(e) => return Err(e),
        }
        let local_token = match self.linked_token_pairs.get(domain, &remote_token) {
            Some(t) => t,
            None => return Err(Error::UnlinkedTokenPair),
        };
        self.linked_token_pairs.unlink(domain, remote_token);
        Ok(TokenPairUnlinked { local_token: generic_address(local_token), remote_token, domain })
    }

    /// The counterpart on `domain`, if any.
    pub fn remote_token_messenger(&self, domain: u32) -> (r: Option<GenericAddress>)
        ensures
            r == (if self@.remote_token_messengers.contains_key(domain) {
                Some(self@.remote_token_messengers[domain])
            } else {
                None
            }),
    {
        self.remote_token_messengers.get_remote_token_messenger(domain)
    }

    /// The local token linked to `remote_token` of `domain`, if any.
    pub fn local_token(&self, domain: u32, remote_token: GenericAddress) -> (r: Option<Address>)
        ensures
            r == (if self@.linked_token_pairs.contains_key((domain, remote_token@)) {
                Some(self@.linked_token_pairs[(domain, remote_token@)])
            } else {
                None
            }),
    {
        self.linked_token_pairs.get(domain, &remote_token)
    }

    /// This token messenger's own address.
    pub fn address(&self) -> (r: Address)
        ensures
            r == self@.address,
    {
        self.address
    }

    pub fn version(&self) -> (r: u32)
        ensures
            r == self@.version,
    {
        self.version
    }

    pub fn paused(&self) -> (r: bool)
        ensures
            r == self@.paused,
    {
        self.paused
    }

    pub fn local_message_transmitter(&self) -> (r: Address)
        ensures
            r == self@.local_message_transmitter,
    {
        self.local_message_transmitter
    }

    pub fn max_burn_amount_per_message(&self) -> (r: u64)
        ensures
            r == self@.max_burn_amount_per_message,
    {
        self.max_burn_amount_per_message
    }

    pub fn owner(&self) -> (r: Address)
        ensures
            r == self@.owner,
    {
        self.owner
    }

    pub fn pending_owner(&self) -> (r: Option<Address>)
        ensures
            r == self@.pending_owner,
    {
        self.pending_owner
    }

}

} // verus!
