use vstd::prelude::*;

use crate::risk_params::BPS_SCALE;

verus! {

/// The protocol's fee shares, in basis points.
#[derive(Debug, Clone, Copy)]
pub struct TreasuryFeeConfig {
    /// Share of accrued interest that goes to the reserves.
    pub interest_fee_bps: i128,
    /// Share of each liquidation that goes to the reserves.
    pub liquidation_fee_bps: i128,
}

impl TreasuryFeeConfig {
    /// The fee configuration that applies while none is stored: no fees. This default is
    /// this library's own choice.
    pub open spec fn default_spec() -> TreasuryFeeConfig {
        TreasuryFeeConfig { interest_fee_bps: 0, liquidation_fee_bps: 0 }
    }

    /// Builds the configuration that applies while none is stored.
    pub fn defaults() -> (r: TreasuryFeeConfig)
        ensures
            r == TreasuryFeeConfig::default_spec(),
    {
        TreasuryFeeConfig { interest_fee_bps: 0, liquidation_fee_bps: 0 }
    }

    /// Both fees lie in `0..=10_000` basis points. This bound is this library's own rule for
    /// accepting a fee configuration.
    pub open spec fn is_valid(self) -> bool {
        &&& 0 <= self.interest_fee_bps <= BPS_SCALE
        &&& 0 <= self.liquidation_fee_bps <= BPS_SCALE
    }

    /// Tests [`TreasuryFeeConfig::is_valid`].
    pub fn check_valid(&self) -> (r: bool)
        ensures
            r == self.is_valid(),
    {
        0 <= self.interest_fee_bps && self.interest_fee_bps <= BPS_SCALE && 0
            <= self.liquidation_fee_bps && self.liquidation_fee_bps <= BPS_SCALE
    }
}

} // verus!
