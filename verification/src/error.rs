//! The reasons for which the contracts refuse a call.

use vstd::prelude::*;

verus! {

/// Why a call failed; on chain the whole transaction is reverted with the
/// message of [`Error::message`].
#[derive(Debug, PartialEq, Eq, Structural)]
pub enum Error {
    OnlyOwner,
    InsufficientStakedEgld,
    InvalidEgldAmountSent,
    LsTokenInvalid,
    InvalidTokenId,
    TokenIdAlreadySet,
    IssueAlreadyCalled,
    StorageDecode,
    LsTokenNotIssued,
    BadPaymentToken,
    BadPaymentAmount,
    PlvAmountTooLarge,
    NotEnoughGasForDelegate,
    NotEnoughGasForClaim,
    DscAddressNotSc,
    DscAddressNotSet,
    AkfAddressNotSc,
    AkfAddressNotSet,
    DelegationAddressNotSc,
    DelegationAddressNotSet,
    OnlyViaQuery,
    SubNegative,
    DivisionByZero,
    GTokenAmountTooLarge,
    PairLpTokenIdMismatch,
    UnableToMakeLpPayment,
    UnrecognizedGPair,
    NoAvailablePairs,
    PairInfoNotFound,
    InvalidSlippage,
    InvalidInterpolationArgs,
    InsufficientLiquidityDeposit,
    InvalidSlippageAmountCombination,
    InvalidPositionTokens,
    GTokenBurnAmountExceeded,
    UnexpectedLiquidityTokens,
    SwappedTokenMismatch,
    ForbiddenUseOfGToken,
    SpecifyGPairId,
    InvalidFirstTokenPayment,
    InvalidSecondTokenPayment,
    GPairAlreadyExists,
    InvalidRouterAddress,
    InvalidPaymentToken,
    UnexpectedCallResult,
}

impl Error {
    /// The message of each error.
    pub open spec fn spec_message(&self) -> Seq<char> {
        match self {
            Error::OnlyOwner => "Endpoint can only be called by owner"@,
            Error::InsufficientStakedEgld => "Insufficient staked eGLD"@,
            Error::InvalidEgldAmountSent => "Invalid egld amount sent"@,
            Error::LsTokenInvalid => "ls token invalid"@,
            Error::InvalidTokenId => "Invalid token ID"@,
            Error::TokenIdAlreadySet => "Token ID already set"@,
            Error::IssueAlreadyCalled => "Issue was already called"@,
            Error::StorageDecode => "storage decode error: input too short"@,
            Error::LsTokenNotIssued => "ERROR_LS_TOKEN_NOT_ISSUED"@,
            Error::BadPaymentToken => "ERROR_BAD_PAYMENT_TOKEN"@,
            Error::BadPaymentAmount => "ERROR_BAD_PAYMENT_AMOUNT"@,
            Error::PlvAmountTooLarge => "PLV amount is larger than unDelegate amount"@,
            Error::NotEnoughGasForDelegate => "not enough gas for delegate"@,
            Error::NotEnoughGasForClaim => "not enough gas to initiate claim call"@,
            Error::DscAddressNotSc => "DSC address is not a valid SC address"@,
            Error::DscAddressNotSet => "DSC Address not set"@,
            Error::AkfAddressNotSc => "AKF address is not a valid SC address"@,
            Error::AkfAddressNotSet => "AKF Address not set"@,
            Error::DelegationAddressNotSc => "delegation address is not a valid SC address"@,
            Error::DelegationAddressNotSet => "delegation Address not set"@,
            Error::OnlyViaQuery => "May only call this function through VM query"@,
            Error::SubNegative => "cannot subtract because result would be negative"@,
            Error::DivisionByZero => "division by 0"@,
            Error::GTokenAmountTooLarge => "GToken amount too large"@,
            Error::PairLpTokenIdMismatch => "Pair lp token id missmatch"@,
            Error::UnableToMakeLpPayment => "Unable to make LP token payment"@,
            Error::UnrecognizedGPair => "unrecognized g_pair token"@,
            Error::NoAvailablePairs => "No available pairs"@,
            Error::PairInfoNotFound => "pair info not found"@,
            Error::InvalidSlippage => "invalid slippage value"@,
            Error::InvalidInterpolationArgs => "Invalid args"@,
            Error::InsufficientLiquidityDeposit => "Insufficient liquidity deposit"@,
            Error::InvalidSlippageAmountCombination => "Invalid slippage, sent amount combination"@,
            Error::InvalidPositionTokens => "invalid position tokens received"@,
            Error::GTokenBurnAmountExceeded => "GToken burn amount exceeded for pair"@,
            Error::UnexpectedLiquidityTokens => "Unexpected liquidity tokens received"@,
            Error::SwappedTokenMismatch => "Swapped token receipt token missmatch"@,
            Error::ForbiddenUseOfGToken => "Forbidden use of GToken"@,
            Error::SpecifyGPairId => "Specify GPair ID"@,
            Error::InvalidFirstTokenPayment => "Invalid first token payment"@,
            Error::InvalidSecondTokenPayment => "Invalid second token payment"@,
            Error::GPairAlreadyExists => "GPair allready exists"@,
            Error::InvalidRouterAddress => "Invalid router address"@,
            Error::InvalidPaymentToken => "Invalid payment token"@,
            Error::UnexpectedCallResult => "unexpected call result"@,
        }
    }

    /// The message with which the contract signals the error.
    pub fn message(&self) -> (r: &'static str)
        ensures
            r@ == self.spec_message(),
    {
        match self {
            Error::OnlyOwner => "Endpoint can only be called by owner",
            Error::InsufficientStakedEgld => "Insufficient staked eGLD",
            Error::InvalidEgldAmountSent => "Invalid egld amount sent",
            Error::LsTokenInvalid => "ls token invalid",
            Error::InvalidTokenId => "Invalid token ID",
            Error::TokenIdAlreadySet => "Token ID already set",
            Error::IssueAlreadyCalled => "Issue was already called",
            Error::StorageDecode => "storage decode error: input too short",
            Error::LsTokenNotIssued => "ERROR_LS_TOKEN_NOT_ISSUED",
            Error::BadPaymentToken => "ERROR_BAD_PAYMENT_TOKEN",
            Error::BadPaymentAmount => "ERROR_BAD_PAYMENT_AMOUNT",
            Error::PlvAmountTooLarge => "PLV amount is larger than unDelegate amount",
            Error::NotEnoughGasForDelegate => "not enough gas for delegate",
            Error::NotEnoughGasForClaim => "not enough gas to initiate claim call",
            Error::DscAddressNotSc => "DSC address is not a valid SC address",
            Error::DscAddressNotSet => "DSC Address not set",
            Error::AkfAddressNotSc => "AKF address is not a valid SC address",
            Error::AkfAddressNotSet => "AKF Address not set",
            Error::DelegationAddressNotSc => "delegation address is not a valid SC address",
            Error::DelegationAddressNotSet => "delegation Address not set",
            Error::OnlyViaQuery => "May only call this function through VM query",
            Error::SubNegative => "cannot subtract because result would be negative",
            Error::DivisionByZero => "division by 0",
            Error::GTokenAmountTooLarge => "GToken amount too large",
            Error::PairLpTokenIdMismatch => "Pair lp token id missmatch",
            Error::UnableToMakeLpPayment => "Unable to make LP token payment",
            Error::UnrecognizedGPair => "unrecognized g_pair token",
            Error::NoAvailablePairs => "No available pairs",
            Error::PairInfoNotFound => "pair info not found",
            Error::InvalidSlippage => "invalid slippage value",
            Error::InvalidInterpolationArgs => "Invalid args",
            Error::InsufficientLiquidityDeposit => "Insufficient liquidity deposit",
            Error::InvalidSlippageAmountCombination => "Invalid slippage, sent amount combination",
            Error::InvalidPositionTokens => "invalid position tokens received",
            Error::GTokenBurnAmountExceeded => "GToken burn amount exceeded for pair",
            Error::UnexpectedLiquidityTokens => "Unexpected liquidity tokens received",
            Error::SwappedTokenMismatch => "Swapped token receipt token missmatch",
            Error::ForbiddenUseOfGToken => "Forbidden use of GToken",
            Error::SpecifyGPairId => "Specify GPair ID",
            Error::InvalidFirstTokenPayment => "Invalid first token payment",
            Error::InvalidSecondTokenPayment => "Invalid second token payment",
            Error::GPairAlreadyExists => "GPair allready exists",
            Error::InvalidRouterAddress => "Invalid router address",
            Error::InvalidPaymentToken => "Invalid payment token",
            Error::UnexpectedCallResult => "unexpected call result",
        }
    }
}

} // verus!
