use vstd::prelude::*;

use crate::errors::RiskParamsError;

verus! {

/// One hundred percent, in basis points.
pub const BPS_SCALE: i128 = 10_000;

/// Minimum collateral ratio used when no parameters are stored (110%).
pub const DEFAULT_MIN_COLLATERAL_RATIO: i128 = 11_000;

/// Liquidation threshold used when no parameters are stored (105%).
pub const DEFAULT_LIQUIDATION_THRESHOLD: i128 = 10_500;

/// Close factor used when no parameters are stored (50%).
pub const DEFAULT_CLOSE_FACTOR: i128 = 5_000;

/// Liquidation incentive used when no parameters are stored (10%).
pub const DEFAULT_LIQUIDATION_INCENTIVE: i128 = 1_000;

/// Largest liquidation incentive that parameters may carry (50%).
pub const MAX_LIQUIDATION_INCENTIVE: i128 = 5_000;

/// The protocol's risk parameters, all in basis points.
#[derive(Debug, Clone, Copy)]
pub struct RiskParams {
    pub min_collateral_ratio: i128,
    pub liquidation_threshold: i128,
    pub close_factor: i128,
    pub liquidation_incentive: i128,
}

/// The value of an optional update: the new value where one is given, else the current one.
pub open spec fn updated(current: i128, update: Option<i128>) -> i128 {
    match update {
        Some(v) => v,
        None => current,
    }
}

/// Executable form of [`updated`].
pub fn apply_update(current: i128, update: Option<i128>) -> (r: i128)
    ensures
        r == updated(current, update),
{
    match update {
        Some(v) => v,
        None => current,
    }
}

/// `value * rate / 10_000` for non-negative operands, or `None` where the product
/// does not fit in an `i128`.
pub open spec fn bps_of(value: i128, rate: i128) -> Option<int> {
    if value * rate > i128::MAX {
        None
    } else {
        Some((value * rate) / (BPS_SCALE as int))
    }
}

/// The collateral ratio `collateral * 10_000 / debt` (rounded down), or `None` where
/// `collateral * 10_000` does not fit in an `i128`.
pub open spec fn collateral_ratio(collateral: i128, debt: i128) -> Option<int> {
    if collateral * BPS_SCALE > i128::MAX {
        None
    } else {
        Some((collateral * BPS_SCALE) / (debt as int))
    }
}

impl RiskParams {
    /// The parameters that apply when none are stored.
    pub open spec fn default_spec() -> RiskParams {
        RiskParams {
            min_collateral_ratio: DEFAULT_MIN_COLLATERAL_RATIO,
            liquidation_threshold: DEFAULT_LIQUIDATION_THRESHOLD,
            close_factor: DEFAULT_CLOSE_FACTOR,
            liquidation_incentive: DEFAULT_LIQUIDATION_INCENTIVE,
        }
    }

    /// Builds the default parameters.
    pub fn defaults() -> (r: RiskParams)
        ensures
            r == RiskParams::default_spec(),
    {
        RiskParams {
            min_collateral_ratio: DEFAULT_MIN_COLLATERAL_RATIO,
            liquidation_threshold: DEFAULT_LIQUIDATION_THRESHOLD,
            close_factor: DEFAULT_CLOSE_FACTOR,
            liquidation_incentive: DEFAULT_LIQUIDATION_INCENTIVE,
        }
    }

    /// The security bounds of the parameters: the minimum collateral ratio is at least
    /// 100%, the liquidation threshold is positive and under the minimum collateral ratio,
    /// the close factor is in `(0%, 100%]` and the incentive in `(0%, 50%]`.
    ///
    /// These bounds are this library's own rule for accepting new parameters: they are the
    /// security requirements that the default parameters meet (minimum at least 100%,
    /// threshold under the minimum, close factor at most 100%, incentive positive and at
    /// most 50%), with a positive threshold and close factor added by this library.
    pub open spec fn is_valid(self) -> bool {
        &&& BPS_SCALE <= self.min_collateral_ratio
        &&& 0 < self.liquidation_threshold < self.min_collateral_ratio
        &&& 0 < self.close_factor <= BPS_SCALE
        &&& 0 < self.liquidation_incentive <= MAX_LIQUIDATION_INCENTIVE
    }

    /// Tests [`RiskParams::is_valid`].
    pub fn check_valid(&self) -> (r: bool)
        ensures
            r == self.is_valid(),
    {
        BPS_SCALE <= self.min_collateral_ratio && 0 < self.liquidation_threshold
            && self.liquidation_threshold < self.min_collateral_ratio && 0 < self.close_factor
            && self.close_factor <= BPS_SCALE && 0 < self.liquidation_incentive
            && self.liquidation_incentive <= MAX_LIQUIDATION_INCENTIVE
    }

    /// These parameters with each given value in place of the current one.
    pub open spec fn with_updates(
        self,
        min_collateral_ratio: Option<i128>,
        liquidation_threshold: Option<i128>,
        close_factor: Option<i128>,
        liquidation_incentive: Option<i128>,
    ) -> RiskParams {
        RiskParams {
            min_collateral_ratio: updated(self.min_collateral_ratio, min_collateral_ratio),
            liquidation_threshold: updated(self.liquidation_threshold, liquidation_threshold),
            close_factor: updated(self.close_factor, close_factor),
            liquidation_incentive: updated(self.liquidation_incentive, liquidation_incentive),
        }
    }

    /// Executable form of [`RiskParams::with_updates`].
    pub fn apply_updates(
        &self,
        min_collateral_ratio: Option<i128>,
        liquidation_threshold: Option<i128>,
        close_factor: Option<i128>,
        liquidation_incentive: Option<i128>,
    ) -> (r: RiskParams)
        ensures
            r == self.with_updates(
                min_collateral_ratio,
                liquidation_threshold,
                close_factor,
                liquidation_incentive,
            ),
    {
        RiskParams {
            min_collateral_ratio: apply_update(self.min_collateral_ratio, min_collateral_ratio),
            liquidation_threshold: apply_update(self.liquidation_threshold, liquidation_threshold),
            close_factor: apply_update(self.close_factor, close_factor),
            liquidation_incentive: apply_update(self.liquidation_incentive, liquidation_incentive),
        }
    }

    /// What [`RiskParams::can_be_liquidated`] returns: a position can be liquidated when it
    /// has debt and its collateral ratio is under the liquidation threshold.
    pub open spec fn can_be_liquidated_spec(self, collateral: i128, debt: i128) -> Result<
        bool,
        RiskParamsError,
    > {
        if collateral < 0 || debt < 0 {
            Err(RiskParamsError::InvalidParameter)
        } else if debt == 0 {
            Ok(false)
        } else {
            match collateral_ratio(collateral, debt) {
                None => Err(RiskParamsError::Overflow),
                Some(ratio) => Ok(ratio < self.liquidation_threshold),
            }
        }
    }

    /// Whether a position with the given collateral and debt values may be liquidated.
    pub fn can_be_liquidated(&self, collateral: i128, debt: i128) -> (r: Result<
        bool,
        RiskParamsError,
    >)
        ensures
            r == self.can_be_liquidated_spec(collateral, debt),
    {
        if collateral < 0 || debt < 0 {
            return Err(RiskParamsError::InvalidParameter);
        }
        if debt == 0 {
            return Ok(false);
        }
        match collateral.checked_mul(BPS_SCALE) {
            None => Err(RiskParamsError::Overflow),
            Some(scaled) => {
                let ratio = scaled / debt;
                Ok(ratio < self.liquidation_threshold)
            },
        }
    }

    /// What [`RiskParams::require_min_collateral_ratio`] returns: a position without debt,
    /// or whose collateral ratio reaches the minimum, passes.
    pub open spec fn require_min_collateral_ratio_spec(self, collateral: i128, debt: i128) -> Result<
        (),
        RiskParamsError,
    > {
        if collateral < 0 || debt < 0 {
            Err(RiskParamsError::InvalidParameter)
        } else if debt == 0 {
            Ok(())
        } else {
            match collateral_ratio(collateral, debt) {
                None => Err(RiskParamsError::Overflow),
                Some(ratio) => if ratio < self.min_collateral_ratio {
                    Err(RiskParamsError::InsufficientCollateralRatio)
                } else {
                    Ok(())
                },
            }
        }
    }

    /// Fails unless the position's collateral ratio reaches the minimum collateral ratio.
    pub fn require_min_collateral_ratio(&self, collateral: i128, debt: i128) -> (r: Result<
        (),
        RiskParamsError,
    >)
        ensures
            r == self.require_min_collateral_ratio_spec(collateral, debt),
    {
        if collateral < 0 || debt < 0 {
            return Err(RiskParamsError::InvalidParameter);
        }
        if debt == 0 {
            return Ok(());
        }
        match collateral.checked_mul(BPS_SCALE) {
            None => Err(RiskParamsError::Overflow),
            Some(scaled) => {
                let ratio = scaled / debt;
                if ratio < self.min_collateral_ratio {
                    Err(RiskParamsError::InsufficientCollateralRatio)
                } else {
                    Ok(())
                }
            },
        }
    }

    /// What [`RiskParams::get_max_liquidatable_amount`] returns: the close factor's share
    /// of the debt.
    pub open spec fn max_liquidatable_spec(self, debt: i128) -> Result<i128, RiskParamsError> {
        if debt < 0 || self.close_factor < 0 {
            Err(RiskParamsError::InvalidParameter)
        } else {
            match bps_of(debt, self.close_factor) {
                None => Err(RiskParamsError::Overflow),
                Some(v) => Ok(v as i128),
            }
        }
    }

    /// The largest part of a debt that one liquidation may repay.
    pub fn get_max_liquidatable_amount(&self, debt: i128) -> (r: Result<i128, RiskParamsError>)
        ensures
            r == self.max_liquidatable_spec(debt),
    {
        if debt < 0 || self.close_factor < 0 {
            return Err(RiskParamsError::InvalidParameter);
        }
        match debt.checked_mul(self.close_factor) {
            None => Err(RiskParamsError::Overflow),
            Some(product) => Ok(product / BPS_SCALE),
        }
    }

    /// What [`RiskParams::get_liquidation_incentive_amount`] returns: the incentive's share
    /// of the liquidated amount.
    pub open spec fn incentive_amount_spec(self, liquidated_amount: i128) -> Result<
        i128,
        RiskParamsError,
    > {
        if liquidated_amount < 0 || self.liquidation_incentive < 0 {
            Err(RiskParamsError::InvalidParameter)
        } else {
            match bps_of(liquidated_amount, self.liquidation_incentive) {
                None => Err(RiskParamsError::Overflow),
                Some(v) => Ok(v as i128),
            }
        }
    }

    /// The bonus that a liquidator receives on top of the amount liquidated.
    pub fn get_liquidation_incentive_amount(&self, liquidated_amount: i128) -> (r: Result<
        i128,
        RiskParamsError,
    >)
        ensures
            r == self.incentive_amount_spec(liquidated_amount),
    {
        if liquidated_amount < 0 || self.liquidation_incentive < 0 {
            return Err(RiskParamsError::InvalidParameter);
        }
        match liquidated_amount.checked_mul(self.liquidation_incentive) {
            None => Err(RiskParamsError::Overflow),
            Some(product) => Ok(product / BPS_SCALE),
        }
    }
}

} // verus!
