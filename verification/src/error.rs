//! The error taxonomy of the event state machine.
//!
//! Every operation either commits in full or reports exactly one of these
//! kinds; no partial effect survives a failure.

use vstd::prelude::*;

verus! {

/// Why an operation on a community, event, attendee or ticket was refused.
#[derive(Clone, Copy, Debug, PartialEq, Eq, Structural)]
pub enum FoshoErrors {
    /// The signer is not the community's authority.
    InvalidCommunityAuthority,
    /// Registration may not close after the event has started.
    InvalidRegistrationEndTime,
    /// The event must start in the future.
    InvalidEventStartTime,
    /// The registration period has not started yet.
    RegistrationNotStarted,
    /// The registration period has ended.
    RegistrationEnded,
    /// The maximum number of tickets has been reached.
    MaximumTicketsReached,
    /// Rewards cannot be claimed by the attendee while the record is pending.
    AttendeeStatusPending,
    /// Not a valid claimer.
    InvalidClaimer,
    /// An account required for this operation was not provided.
    AccountNotProvided,
    /// This attendee has already claimed the rewards.
    AlreadyClaimed,
    /// A required attribute is missing.
    MissingAttribute,
    /// Numerical overflow in an amount or an attribute value.
    NumericalOverflow,
    /// The event authority must sign.
    EventAuthorityMustSign,
    /// The co-signing key is not an authority of this event.
    InvalidEventAuthority,
    /// The ticket has been scanned already.
    AlreadyScanned,
    /// The event is cancelled.
    EventCancelled,
    /// The event has not ended.
    EventHasNotEnded,
    /// The event has not started.
    EventHasNotStarted,
    /// The event has ended.
    EventEnded,
    /// The presented collectible is not in the required collection.
    InvalidCollection,
    /// The presented collectible carries collection details it must not have.
    InvalidCollectionDetails,
    /// The presented collectible is not verified.
    NftNotVerified,
    /// The required collection key is missing.
    CollectionMissing,
    /// A verified creator is missing.
    VerifiedCreatorMissing,
    /// The presented collectible names no matching verified creator.
    InvalidCreator,
    /// The presented collectible names no creators at all.
    NoCreatorsPresentOnMetadata,
    /// Two keys that had to match do not.
    PublicKeyMismatch,
    /// The account is held by the wrong owner program.
    WrongAccountOwner,
    /// Not enough proof accounts were provided.
    NotEnoughRemainingAccounts,
    /// The presented holding does not satisfy the balance condition.
    InvalidTokenDetails,
    /// A balance is too small to cover the requested transfer.
    InsufficientFunds,
}

} // verus!
