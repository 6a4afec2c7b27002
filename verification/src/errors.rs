use vstd::prelude::*;

verus! {

/// Errors of the administrator record.
#[derive(Debug, Clone, Copy, PartialEq, Eq, Structural)]
pub enum AdminError {
    /// The caller is not the current administrator.
    Unauthorized,
}

/// Errors of risk management: initialization, pauses and parameter updates.
#[derive(Debug, Clone, Copy, PartialEq, Eq, Structural)]
pub enum RiskManagementError {
    /// The caller is not the risk administrator.
    Unauthorized,
    /// The contract, or one of its subsystems, was initialized before.
    AlreadyInitialized,
    /// A parameter update was refused.
    InvalidParameter,
}

/// Errors of the risk parameter computations.
#[derive(Debug, Clone, Copy, PartialEq, Eq, Structural)]
pub enum RiskParamsError {
    /// A negative amount, or parameters outside their bounds.
    InvalidParameter,
    /// The collateral ratio is under the minimum.
    InsufficientCollateralRatio,
    /// An intermediate product does not fit in an `i128`.
    Overflow,
}

/// Errors of the interest-rate configuration.
#[derive(Debug, Clone, Copy, PartialEq, Eq, Structural)]
pub enum InterestRateError {
    /// The configuration was initialized before.
    AlreadyInitialized,
    /// The caller is not the interest-rate administrator.
    Unauthorized,
    /// The updated configuration is outside its bounds.
    InvalidParameter,
}

/// Errors of treasury and fee management.
#[derive(Debug, Clone, Copy, PartialEq, Eq, Structural)]
pub enum TreasuryError {
    /// The caller is not the administrator.
    Unauthorized,
    /// A fee is outside `0..=10_000` basis points.
    InvalidFee,
}

} // verus!
