use vstd::prelude::*;

use crate::risk_params::{apply_update, updated, BPS_SCALE};

verus! {

/// The parameters of the kinked interest-rate model, all in basis points.
#[derive(Debug, Clone, Copy)]
pub struct InterestRateConfig {
    pub base_rate_bps: i128,
    pub kink_utilization_bps: i128,
    pub multiplier_bps: i128,
    pub jump_multiplier_bps: i128,
    pub rate_floor_bps: i128,
    pub rate_ceiling_bps: i128,
    pub spread_bps: i128,
}

/// The storage entries that the interest-rate configuration keeps.
#[derive(Debug, Clone, Copy, PartialEq, Eq, Structural)]
pub enum InterestRateDataKey {
    Admin,
    InterestRateConfig,
}

impl InterestRateConfig {
    /// The configuration that initialization records. These values are this library's own
    /// choice: 1% base rate, 80% kink, 20% multiplier, 100% jump multiplier, 0.5% floor,
    /// 100% ceiling and 10% spread.
    pub open spec fn initial_spec() -> InterestRateConfig {
        InterestRateConfig {
            base_rate_bps: 100,
            kink_utilization_bps: 8_000,
            multiplier_bps: 2_000,
            jump_multiplier_bps: 10_000,
            rate_floor_bps: 50,
            rate_ceiling_bps: 10_000,
            spread_bps: 1_000,
        }
    }

    /// Builds the configuration that initialization records.
    pub fn initial() -> (r: InterestRateConfig)
        ensures
            r == InterestRateConfig::initial_spec(),
    {
        InterestRateConfig {
            base_rate_bps: 100,
            kink_utilization_bps: 8_000,
            multiplier_bps: 2_000,
            jump_multiplier_bps: 10_000,
            rate_floor_bps: 50,
            rate_ceiling_bps: 10_000,
            spread_bps: 1_000,
        }
    }

    /// The bounds of the configuration: no rate is negative, the kink lies in
    /// `(0%, 100%]`, the floor is not above the ceiling and the spread is at most 100%.
    /// These bounds are this library's own rule for accepting an updated configuration.
    pub open spec fn is_valid(self) -> bool {
        &&& 0 <= self.base_rate_bps
        &&& 0 < self.kink_utilization_bps <= BPS_SCALE
        &&& 0 <= self.multiplier_bps
        &&& 0 <= self.jump_multiplier_bps
        &&& 0 <= self.rate_floor_bps <= self.rate_ceiling_bps
        &&& 0 <= self.spread_bps <= BPS_SCALE
    }

    /// Tests [`InterestRateConfig::is_valid`].
    pub fn check_valid(&self) -> (r: bool)
        ensures
            r == self.is_valid(),
    {
        0 <= self.base_rate_bps && 0 < self.kink_utilization_bps && self.kink_utilization_bps
            <= BPS_SCALE && 0 <= self.multiplier_bps && 0 <= self.jump_multiplier_bps && 0
            <= self.rate_floor_bps && self.rate_floor_bps <= self.rate_ceiling_bps && 0
            <= self.spread_bps && self.spread_bps <= BPS_SCALE
    }

    /// This configuration with each given value in place of the current one.
    pub open spec fn with_updates(
        self,
        base_rate_bps: Option<i128>,
        kink_utilization_bps: Option<i128>,
        multiplier_bps: Option<i128>,
        jump_multiplier_bps: Option<i128>,
        rate_floor_bps: Option<i128>,
        rate_ceiling_bps: Option<i128>,
        spread_bps: Option<i128>,
    ) -> InterestRateConfig {
        InterestRateConfig {
            base_rate_bps: updated(self.base_rate_bps, base_rate_bps),
            kink_utilization_bps: updated(self.kink_utilization_bps, kink_utilization_bps),
            multiplier_bps: updated(self.multiplier_bps, multiplier_bps),
            jump_multiplier_bps: updated(self.jump_multiplier_bps, jump_multiplier_bps),
            rate_floor_bps: updated(self.rate_floor_bps, rate_floor_bps),
            rate_ceiling_bps: updated(self.rate_ceiling_bps, rate_ceiling_bps),
            spread_bps: updated(self.spread_bps, spread_bps),
        }
    }

    /// Executable form of [`InterestRateConfig::with_updates`].
    pub fn apply_updates(
        &self,
        base_rate_bps: Option<i128>,
        kink_utilization_bps: Option<i128>,
        multiplier_bps: Option<i128>,
        jump_multiplier_bps: Option<i128>,
        rate_floor_bps: Option<i128>,
        rate_ceiling_bps: Option<i128>,
        spread_bps: Option<i128>,
    ) -> (r: InterestRateConfig)
        ensures
            r == self.with_updates(
                base_rate_bps,
                kink_utilization_bps,
                multiplier_bps,
                jump_multiplier_bps,
                rate_floor_bps,
                rate_ceiling_bps,
                spread_bps,
            ),
    {
        InterestRateConfig {
            base_rate_bps: apply_update(self.base_rate_bps, base_rate_bps),
            kink_utilization_bps: apply_update(self.kink_utilization_bps, kink_utilization_bps),
            multiplier_bps: apply_update(self.multiplier_bps, multiplier_bps),
            jump_multiplier_bps: apply_update(self.jump_multiplier_bps, jump_multiplier_bps),
            rate_floor_bps: apply_update(self.rate_floor_bps, rate_floor_bps),
            rate_ceiling_bps: apply_update(self.rate_ceiling_bps, rate_ceiling_bps),
            spread_bps: apply_update(self.spread_bps, spread_bps),
        }
    }
}

} // verus!
