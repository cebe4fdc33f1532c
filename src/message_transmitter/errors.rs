use vstd::prelude::*;
use crate::ErrorKind;

verus! {

/// Why a message transmitter call failed.
#[derive(Debug, Clone, Copy, PartialEq, Eq, Structural)]
pub enum Error {
    /// The caller is not the owner, or not the pending owner.
    InsufficientRights,
    /// The transmitter is paused.
    ContractIsPaused,
    /// The message names a destination caller other than this transmitter.
    InvalidMessageRecipient,
    /// A signature's recovery byte is neither 27 nor 28.
    InvalidSignatureRecoveryId,
    /// The attestation is not one signature per required signer.
    InvalidAttestationLength,
    /// The message is shorter than its fixed header.
    MalformedMessage,
    /// The message's version is not the configured one.
    InvalidMessageVersion,
    /// The message's nonce was already used.
    NonceAlreadyUsed,
    /// The recipient is the zero address.
    ZeroRecipient,
    /// The body is longer than the configured maximum.
    MessageBodyTooLarge,
    /// No nonce is left to allocate.
    NonceOverflow,
    /// No public key can be recovered from a signature.
    InvalidSignature,
    /// A signer is not an enabled attester.
    UnknownAttester,
    /// The signers are not in strictly ascending order.
    AttestersOutOfOrder,
    /// No ownership transfer is pending.
    NoPendingOwner,
}

impl Error {
    /// The class of the failure.
    pub open spec fn kind_spec(self) -> ErrorKind {
        match self {
            Error::InsufficientRights => ErrorKind::AccessControl,
            Error::NoPendingOwner => ErrorKind::AccessControl,
            Error::InvalidMessageRecipient => ErrorKind::AccessControl,
            Error::ContractIsPaused => ErrorKind::Lifecycle,
            Error::MalformedMessage => ErrorKind::Format,
            Error::InvalidMessageVersion => ErrorKind::Format,
            Error::InvalidAttestationLength => ErrorKind::Format,
            Error::NonceAlreadyUsed => ErrorKind::Replay,
            Error::ZeroRecipient => ErrorKind::Validation,
            Error::MessageBodyTooLarge => ErrorKind::Validation,
            Error::NonceOverflow => ErrorKind::Validation,
            Error::InvalidSignatureRecoveryId => ErrorKind::Signature,
            Error::InvalidSignature => ErrorKind::Signature,
            Error::UnknownAttester => ErrorKind::Signature,
            Error::AttestersOutOfOrder => ErrorKind::Signature,
        }
    }

    /// The class of the failure.
    pub fn kind(&self) -> (r: ErrorKind)
        ensures
            r == self.kind_spec(),
    {
        match self {
            Error::InsufficientRights => ErrorKind::AccessControl,
            Error::NoPendingOwner => ErrorKind::AccessControl,
            Error::InvalidMessageRecipient => ErrorKind::AccessControl,
            Error::ContractIsPaused => ErrorKind::Lifecycle,
            Error::MalformedMessage => ErrorKind::Format,
            Error::InvalidMessageVersion => ErrorKind::Format,
            Error::InvalidAttestationLength => ErrorKind::Format,
            Error::NonceAlreadyUsed => ErrorKind::Replay,
            Error::ZeroRecipient => ErrorKind::Validation,
            Error::MessageBodyTooLarge => ErrorKind::Validation,
            Error::NonceOverflow => ErrorKind::Validation,
            Error::InvalidSignatureRecoveryId => ErrorKind::Signature,
            Error::InvalidSignature => ErrorKind::Signature,
            Error::UnknownAttester => ErrorKind::Signature,
            Error::AttestersOutOfOrder => ErrorKind::Signature,
        }
    }
}

} // verus!
