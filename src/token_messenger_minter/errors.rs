use vstd::prelude::*;
use crate::message_transmitter::errors::Error as TransmitterError;
use crate::ErrorKind;

verus! {

/// Why a token messenger call failed.
#[derive(Debug, Clone, Copy, PartialEq, Eq, Structural)]
pub enum Error {
    /// The caller is not the owner, the pending owner, or the registered transmitter.
    InsufficientRights,
    /// The token messenger is paused.
    ContractIsPaused,
    /// The amount to burn is zero.
    ZeroAmount,
    /// The mint recipient is the zero address.
    ZeroMintRecipient,
    /// No counterpart is registered for the domain.
    UnknownRemoteDomain,
    /// The message does not come from the domain's registered counterpart.
    InvalidRemoteSender,
    /// No local token is linked to the remote token of that domain.
    UnlinkedTokenPair,
    /// The amount is above the per-message cap.
    AmountExceedsLimit,
    /// The burn payload is too short, or its amount does not fit in 64 bits.
    MalformedBurnMessage,
    /// The burn payload's version is not the configured one.
    InvalidBurnMessageVersion,
    /// No ownership transfer is pending.
    NoPendingOwner,
    /// The message transmitter refused the call.
    Transmitter(TransmitterError),
}

impl Error {
    /// The class of the failure.
    pub open spec fn kind_spec(self) -> ErrorKind {
        match self {
            Error::InsufficientRights => ErrorKind::AccessControl,
            Error::NoPendingOwner => ErrorKind::AccessControl,
            Error::InvalidRemoteSender => ErrorKind::AccessControl,
            Error::ContractIsPaused => ErrorKind::Lifecycle,
            Error::MalformedBurnMessage => ErrorKind::Format,
            Error::InvalidBurnMessageVersion => ErrorKind::Format,
            Error::ZeroAmount => ErrorKind::Validation,
            Error::ZeroMintRecipient => ErrorKind::Validation,
            Error::UnknownRemoteDomain => ErrorKind::Validation,
            Error::UnlinkedTokenPair => ErrorKind::Validation,
            Error::AmountExceedsLimit => ErrorKind::Validation,
            Error::Transmitter(e) => e.kind_spec(),
        }
    }

    /// The class of the failure.
    pub fn kind(&self) -> (r: ErrorKind)
        ensures
            r == self.kind_spec(),
    {
        match self {
            Error::InsufficientRights => ErrorKind::AccessControl,
            Error::NoPendingOwner => ErrorKind::AccessControl,
            Error::InvalidRemoteSender => ErrorKind::AccessControl,
            Error::ContractIsPaused => ErrorKind::Lifecycle,
            Error::MalformedBurnMessage => ErrorKind::Format,
            Error::InvalidBurnMessageVersion => ErrorKind::Format,
            Error::ZeroAmount => ErrorKind::Validation,
            Error::ZeroMintRecipient => ErrorKind::Validation,
            Error::UnknownRemoteDomain => ErrorKind::Validation,
            Error::UnlinkedTokenPair => ErrorKind::Validation,
            Error::AmountExceedsLimit => ErrorKind::Validation,
            Error::Transmitter(e) => e.kind(),
        }
    }
}

} // verus!
