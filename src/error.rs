use vstd::prelude::*;

verus! {

/// Errors returned by the lifecycle, settlement, dispute and governance operations.
#[derive(Debug, Clone, Copy, PartialEq, Eq, Structural)]
pub enum ErrorCode {
    /// The record's current status does not permit the requested operation.
    InvalidStatus,
    /// The caller's role does not match the operation's required role.
    Unauthorized,
    /// An amount does not fit in 64 bits.
    Overflow,
    /// The dispute was resolved already.
    AlreadyResolved,
    /// The proposal was executed already.
    AlreadyExecuted,
    /// A required derivation bump was absent.
    MissingBump,
    /// The vault balance, or the funding, is below the amount required.
    InsufficientFunds,
    /// The principal has voted on this proposal already.
    AlreadyVoted,
    /// A dispute on the record is open already.
    DisputeAlreadyOpen,
    /// A referenced record does not match or is absent.
    NotFound,
    /// A quality score lies outside 0 to 100.
    InvalidQuality,
    /// A transport reading lies outside its range.
    InvalidReading,
    /// A dispute description is longer than allowed.
    DescriptionTooLong,
}

} // verus!
