use vstd::prelude::*;

verus! {

/// Every way an instruction of the exchange can be refused.
#[derive(Clone, Copy, Debug, PartialEq, Eq, Structural)]
pub enum AdW3Error {
    InsufficientFunds,
    UnauthorizedAccess,
    AuctionAlreadySettled,
    InvalidFeePercentage,
    InvalidRevenueShare,
    RevShareTooLow,
    ProtocolPaused,
    StringTooLong,
    RollupAlreadyFinalized,
    RollupTransactionLimitExceeded,
    BidBelowFloorPrice,
    InvalidAuctionId,
    InvalidMerkleProof,
    MerkleRootMismatch,
    AccountNotDelegated,
    AccountAlreadyDelegated,
    RollupVerificationFailed,
    ExcessiveWithdrawalAmount,
    RequestClosed,
    RequestExpired,
    InvalidPublisher,
    InvalidDSP,
    Overflow,
}

impl AdW3Error {
    /// The human-readable text of the error.
    pub fn message(&self) -> &'static str {
        match self {
            AdW3Error::InsufficientFunds => "Operation exceeds available funds",
            AdW3Error::UnauthorizedAccess => "The provided authority is not authorized to perform this action",
            AdW3Error::AuctionAlreadySettled => "This auction has already been settled",
            AdW3Error::InvalidFeePercentage => "Invalid fee percentage. Must be between 0-100",
            AdW3Error::InvalidRevenueShare => "Invalid revenue share. Must be between minimum revenue share and 100",
            AdW3Error::RevShareTooLow => "Publisher revenue share below program minimum",
            AdW3Error::ProtocolPaused => "The protocol is currently paused",
            AdW3Error::StringTooLong => "String exceeds maximum allowed length",
            AdW3Error::RollupAlreadyFinalized => "The rollup has already been finalized",
            AdW3Error::RollupTransactionLimitExceeded => "The rollup transaction limit has been exceeded",
            AdW3Error::BidBelowFloorPrice => "Bid amount is below publisher floor price",
            AdW3Error::InvalidAuctionId => "The provided auction ID is invalid",
            AdW3Error::InvalidMerkleProof => "Invalid merkle proof",
            AdW3Error::MerkleRootMismatch => "Merkle root mismatch",
            AdW3Error::AccountNotDelegated => "This account has not been delegated to the ephemeral rollup",
            AdW3Error::AccountAlreadyDelegated => "This account is already delegated to the ephemeral rollup",
            AdW3Error::RollupVerificationFailed => "Failed to verify rollup commitment",
            AdW3Error::ExcessiveWithdrawalAmount => "The amount to withdraw exceeds available balance",
            AdW3Error::RequestClosed => "The request has already been closed",
            AdW3Error::RequestExpired => "The request has expired",
            AdW3Error::InvalidPublisher => "This is an invalid Publisher",
            AdW3Error::InvalidDSP => "This is an invalid DSP",
            AdW3Error::Overflow => "There is an overflow somewhere",
        }
    }
}

} // verus!
