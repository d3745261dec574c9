use vstd::prelude::*;

verus! {

/// Errors returned by the vault instructions.
#[derive(Clone, Copy, PartialEq, Eq, Structural, Debug)]
pub enum ErrorCode {
    TreasuryFeeTooBig,
    PrivateTimeLowerThanCurrentTime,
    PublicTimeLowerThanPrivateTime,
    EndTimeLowerThanPublicTime,
    InvalidSupply,
    InvalidAmount,
    AmountHigherRemainingSupply,
    UidMustNotEmpty,
    InvalidState,
    InvalidSalesChannel,
    InvalidTransactionId,
}

impl ErrorCode {
    /// The text reported with each error: the declared message where the
    /// variant has one, its name otherwise.
    pub open spec fn spec_message(self) -> Seq<char> {
        match self {
            ErrorCode::TreasuryFeeTooBig =>
                "RealboxVaultFactory: treasuryFee must not be higher than 10000 (100%)"@,
            ErrorCode::PrivateTimeLowerThanCurrentTime =>
                "RealboxVaultFactory: privateStartTime must be higher than current time"@,
            ErrorCode::PublicTimeLowerThanPrivateTime =>
                "RealboxVaultFactory: publicStartTime must be higher than privateStartTime"@,
            ErrorCode::EndTimeLowerThanPublicTime =>
                "RealboxVaultFactory: publicStartTime must be lower than endTime"@,
            ErrorCode::InvalidSupply =>
                "RealboxVaultFactory: minSupply must not be higher than maxSupply"@,
            ErrorCode::InvalidAmount => "InvalidAmount"@,
            ErrorCode::AmountHigherRemainingSupply => "AmountHigherRemainingSupply"@,
            ErrorCode::UidMustNotEmpty => "UidMustNotEmpty"@,
            ErrorCode::InvalidState => "InvalidState"@,
            ErrorCode::InvalidSalesChannel => "InvalidSalesChannel"@,
            ErrorCode::InvalidTransactionId => "InvalidTransactionId"@,
        }
    }

    /// The text reported with this error.
    pub fn message(&self) -> (s: &'static str)
        ensures
            s@ == self.spec_message(),
    {
        match self {
            ErrorCode::TreasuryFeeTooBig =>
                "RealboxVaultFactory: treasuryFee must not be higher than 10000 (100%)",
            ErrorCode::PrivateTimeLowerThanCurrentTime =>
                "RealboxVaultFactory: privateStartTime must be higher than current time",
            ErrorCode::PublicTimeLowerThanPrivateTime =>
                "RealboxVaultFactory: publicStartTime must be higher than privateStartTime",
            ErrorCode::EndTimeLowerThanPublicTime =>
                "RealboxVaultFactory: publicStartTime must be lower than endTime",
            ErrorCode::InvalidSupply =>
                "RealboxVaultFactory: minSupply must not be higher than maxSupply",
            ErrorCode::InvalidAmount => "InvalidAmount",
            ErrorCode::AmountHigherRemainingSupply => "AmountHigherRemainingSupply",
            ErrorCode::UidMustNotEmpty => "UidMustNotEmpty",
            ErrorCode::InvalidState => "InvalidState",
            ErrorCode::InvalidSalesChannel => "InvalidSalesChannel",
            ErrorCode::InvalidTransactionId => "InvalidTransactionId",
        }
    }
}

} // verus!
