//! Typed error kinds. Every error surfaced by a handler means the handler
//! aborted with no state change.

use vstd::prelude::*;

use crate::client::Status;

verus! {

/// A malformed identifier: wrong length, a character outside the allowed
/// alphabet, or a missing / wrong prefix.
#[derive(Clone, Debug, PartialEq, Eq)]
pub enum IdentifierError {
    InvalidLength,
    InvalidCharacter,
    InvalidPrefix,
}

/// Failures of the light-client subsystem.
#[derive(Clone, Debug, PartialEq, Eq)]
pub enum ClientError {
    ClientNotFound,
    ClientNotActive { status: Status },
    HeaderVerificationFailure,
    MisbehaviourHandlingFailure,
    ConsensusStateNotFound,
    UnknownClientType,
    InvalidHeight,
    MissingRawClientState,
    MissingRawConsensusState,
    UnknownConsensusStateType,
    InvalidRawConsensusState,
    InvalidRawClientState,
    InvalidIdentifier(IdentifierError),
}

/// Failures of the connection handshake.
#[derive(Clone, Debug, PartialEq, Eq)]
pub enum ConnectionError {
    InvalidState { expected: u8, actual: u8 },
    MissingCounterparty,
    EmptyVersions,
    VersionsMismatch,
    InvalidProof,
    InvalidIdentifier(IdentifierError),
    MissingClientState,
    MissingProofHeight,
    MissingConsensusHeight,
    ConnectionNotFound,
    NotEnoughTimeElapsed,
    NotEnoughBlocksElapsed,
    ConnectionCounterOverflow,
}

/// Failures of the channel handshake and closure.
#[derive(Clone, Debug, PartialEq, Eq)]
pub enum ChannelError {
    ChannelNotFound,
    InvalidState { expected: u8, actual: u8 },
    MissingCounterparty,
    UndefinedConnectionCounterparty,
    VerifyChannelFailed,
    InvalidIdentifier(IdentifierError),
    MissingHeight,
    InvalidProof,
}

/// Failures of the packet-flow handlers.
#[derive(Clone, Debug, PartialEq, Eq)]
pub enum PacketError {
    ZeroPacketSequence,
    MissingPacket,
    MissingHeight,
    InvalidProof,
    PacketTimeoutNotReached,
    PacketAlreadyReceived,
    PacketCommitmentMismatch,
    PacketCommitmentNotFound,
    PacketSequenceMismatch { expected: u64, actual: u64 },
    MissingTimeout,
    InvalidTimeoutHeight,
    PacketTimedOut,
    InvalidIdentifier(IdentifierError),
}

/// Failures at the token-transfer boundary: coin literals and amounts.
#[derive(Clone, Debug, PartialEq, Eq)]
pub enum TokenTransferError {
    InvalidCoin { coin: String },
    Utf8Decode,
    InvalidAmount,
}

/// Any error a handler can surface to the transaction dispatcher.
#[derive(Clone, Debug, PartialEq, Eq)]
pub enum ContextError {
    Client(ClientError),
    Connection(ConnectionError),
    Channel(ChannelError),
    Packet(PacketError),
}

} // verus!
