use vstd::prelude::*;

use crate::contract::ContractState;
use crate::errors::{InterestRateError, RiskManagementError, RiskParamsError, TreasuryError};
use crate::interest_rate::InterestRateConfig;
use crate::risk_management::{RiskConfig, PauseSwitches};
use crate::risk_params::{
    RiskParams, DEFAULT_CLOSE_FACTOR, DEFAULT_LIQUIDATION_INCENTIVE, DEFAULT_LIQUIDATION_THRESHOLD,
    DEFAULT_MIN_COLLATERAL_RATIO,
};
use crate::treasury::TreasuryFeeConfig;

verus! {

/// A call of one of the contract's entry points that can write storage, with its arguments
/// as mathematical values. The other entry points only read storage.
pub enum ContractCall {
    Initialize { admin: Seq<char>, now: u64 },
    TransferAdmin { caller: Seq<char>, new_admin: Seq<char> },
    SetRiskParams {
        caller: Seq<char>,
        min_collateral_ratio: Option<i128>,
        liquidation_threshold: Option<i128>,
        close_factor: Option<i128>,
        liquidation_incentive: Option<i128>,
    },
    SetEmergencyPause { caller: Seq<char>, paused: bool },
    SetTreasury { caller: Seq<char>, treasury: Seq<char> },
    SetFeeConfig { caller: Seq<char>, interest_fee_bps: i128, liquidation_fee_bps: i128 },
    UpdateInterestRateConfig {
        caller: Seq<char>,
        base_rate_bps: Option<i128>,
        kink_utilization_bps: Option<i128>,
        multiplier_bps: Option<i128>,
        jump_multiplier_bps: Option<i128>,
        rate_floor_bps: Option<i128>,
        rate_ceiling_bps: Option<i128>,
        spread_bps: Option<i128>,
    },
}

/// The storage after one call, as the entry point's contract gives it.
pub open spec fn apply_call(s: ContractState, call: ContractCall) -> ContractState {
    match call {
        ContractCall::Initialize { admin, now } => s.initialize_spec(admin, now).0,
        ContractCall::TransferAdmin { caller, new_admin } => s.set_admin_spec(
            new_admin,
            Some(caller),
        ).0,
        ContractCall::SetRiskParams {
            caller,
            min_collateral_ratio,
            liquidation_threshold,
            close_factor,
            liquidation_incentive,
        } => s.set_risk_params_spec(
            caller,
            min_collateral_ratio,
            liquidation_threshold,
            close_factor,
            liquidation_incentive,
        ).0,
        ContractCall::SetEmergencyPause { caller, paused } => s.set_emergency_pause_spec(
            caller,
            paused,
        ).0,
        ContractCall::SetTreasury { caller, treasury } => s.set_treasury_spec(caller, treasury).0,
        ContractCall::SetFeeConfig { caller, interest_fee_bps, liquidation_fee_bps } =>
            s.set_fee_config_spec(
            caller,
            TreasuryFeeConfig { interest_fee_bps, liquidation_fee_bps },
        ).0,
        ContractCall::UpdateInterestRateConfig {
            caller,
            base_rate_bps,
            kink_utilization_bps,
            multiplier_bps,
            jump_multiplier_bps,
            rate_floor_bps,
            rate_ceiling_bps,
            spread_bps,
        } => s.update_interest_rate_config_spec(
            caller,
            base_rate_bps,
            kink_utilization_bps,
            multiplier_bps,
            jump_multiplier_bps,
            rate_floor_bps,
            rate_ceiling_bps,
            spread_bps,
        ).0,
    }
}

/// The storage after a sequence of calls, made in order.
pub open spec fn apply_calls(s: ContractState, calls: Seq<ContractCall>) -> ContractState
    decreases calls.len(),
{
    if calls.len() == 0 {
        s
    } else {
        apply_calls(apply_call(s, calls[0]), calls.drop_first())
    }
}

/// No entry point undoes initialization: once an administrator, a risk configuration or an
/// interest-rate configuration exists, one exists after any call.
pub proof fn lemma_call_keeps_initialized(s: ContractState, call: ContractCall)
    requires
        s.is_initialized(),
    ensures
        apply_call(s, call).is_initialized(),
{
}

/// Initialization succeeds at most once per contract: after an initialization, whatever
/// sequence of calls follows, every later initialization, by any caller and at any time,
/// fails with `AlreadyInitialized` and changes no storage.
pub proof fn lemma_initialize_refused_after_any_calls(
    s: ContractState,
    admin: Seq<char>,
    now: u64,
    calls: Seq<ContractCall>,
    later_admin: Seq<char>,
    later_now: u64,
)
    ensures
        ({
            let after = apply_calls(s.initialize_spec(admin, now).0, calls);
            after.initialize_spec(later_admin, later_now) == (
                after,
                Err::<(), RiskManagementError>(RiskManagementError::AlreadyInitialized),
            )
        }),
{
    lemma_initialized_stays(s.initialize_spec(admin, now).0, calls);
}

/// Initialization, once present, is present after any sequence of calls.
pub proof fn lemma_initialized_stays(s: ContractState, calls: Seq<ContractCall>)
    requires
        s.is_initialized(),
    ensures
        apply_calls(s, calls).is_initialized(),
    decreases calls.len(),
{
    if calls.len() > 0 {
        lemma_call_keeps_initialized(s, calls[0]);
        lemma_initialized_stays(apply_call(s, calls[0]), calls.drop_first());
    }
}

/// Initialization happens at most once: whatever the storage and whoever calls, a second
/// initialization fails with `AlreadyInitialized` and leaves the storage exactly as the
/// first left it (so no administrator can be replaced this way).
pub proof fn lemma_initialize_only_once(
    s: ContractState,
    first_admin: Seq<char>,
    first_now: u64,
    second_admin: Seq<char>,
    second_now: u64,
)
    ensures
        ({
            let s1 = s.initialize_spec(first_admin, first_now).0;
            let (s2, r2) = s1.initialize_spec(second_admin, second_now);
            &&& r2 == Err::<(), RiskManagementError>(RiskManagementError::AlreadyInitialized)
            &&& s2 == s1
        }),
{
}

/// A freshly deployed contract initializes successfully, and afterwards: the given
/// administrator is the administrator of the contract, of risk management and of the
/// interest-rate configuration; the risk configuration holds the default parameters
/// (110%, 105%, 50%, 10%) stamped with the initialization time; every pause switch and the
/// emergency pause are off; the risk parameters in force are the defaults; and every entry
/// that initialization writes is present.
pub proof fn lemma_fresh_initialize(admin: Seq<char>, now: u64)
    ensures
        ({
            let (s, r) = ContractState::fresh().initialize_spec(admin, now);
            &&& r is Ok
            &&& s.wf()
            &&& s.admin == Some(admin)
            &&& s.risk_admin == Some(admin)
            &&& s.interest_rate_admin == Some(admin)
            &&& s.risk_config == Some(RiskConfig::initial_spec(now))
            &&& s.risk_config->0.min_collateral_ratio == DEFAULT_MIN_COLLATERAL_RATIO
            &&& s.risk_config->0.liquidation_threshold == DEFAULT_LIQUIDATION_THRESHOLD
            &&& s.risk_config->0.close_factor == DEFAULT_CLOSE_FACTOR
            &&& s.risk_config->0.liquidation_incentive == DEFAULT_LIQUIDATION_INCENTIVE
            &&& s.risk_config->0.last_update == now
            &&& s.effective_risk_params() == RiskParams::default_spec()
            &&& !s.emergency_paused()
            &&& forall|name: Seq<char>| !#[trigger] s.operation_paused(name)
            &&& s.interest_rate_config == Some(InterestRateConfig::initial_spec())
        }),
{
}

/// Every default lies within its bounds: the default risk parameters meet the security
/// bounds (minimum collateral ratio at least 100%, liquidation threshold under it, close
/// factor at most 100%, incentive positive and at most 50%), and so do the initial risk
/// configuration, the initial interest-rate configuration and the default fees.
pub proof fn lemma_defaults_valid(now: u64)
    ensures
        RiskParams::default_spec().is_valid(),
        RiskConfig::initial_spec(now).params().is_valid(),
        RiskConfig::initial_spec(now).pause_switches == PauseSwitches::none_paused_spec(),
        InterestRateConfig::initial_spec().is_valid(),
        TreasuryFeeConfig::default_spec().is_valid(),
{
}

/// The risk administrator can switch the emergency pause, and a read afterwards gives the
/// value written.
pub proof fn lemma_emergency_pause_read_back(s: ContractState, admin: Seq<char>, paused: bool)
    requires
        s.risk_admin == Some(admin),
    ensures
        ({
            let (s1, r) = s.set_emergency_pause_spec(admin, paused);
            &&& r is Ok
            &&& s1.emergency_paused() == paused
        }),
{
}

/// A successful update of the risk parameters is what the getters read afterwards: each
/// given value, and the previous value of each parameter not given.
pub proof fn lemma_risk_params_read_back(
    s: ContractState,
    caller: Seq<char>,
    min_collateral_ratio: Option<i128>,
    liquidation_threshold: Option<i128>,
    close_factor: Option<i128>,
    liquidation_incentive: Option<i128>,
)
    ensures
        ({
            let (s1, r) = s.set_risk_params_spec(
                caller,
                min_collateral_ratio,
                liquidation_threshold,
                close_factor,
                liquidation_incentive,
            );
            let before = s.effective_risk_params();
            let after = s1.effective_risk_params();
            r is Ok ==> {
                &&& after.min_collateral_ratio == match min_collateral_ratio {
                    Some(v) => v,
                    None => before.min_collateral_ratio,
                }
                &&& after.liquidation_threshold == match liquidation_threshold {
                    Some(v) => v,
                    None => before.liquidation_threshold,
                }
                &&& after.close_factor == match close_factor {
                    Some(v) => v,
                    None => before.close_factor,
                }
                &&& after.liquidation_incentive == match liquidation_incentive {
                    Some(v) => v,
                    None => before.liquidation_incentive,
                }
                &&& after.is_valid()
            }
        }),
{
}

/// After the administrator role moves from one address to another, the new administrator
/// may configure the treasury and the former one may not.
pub proof fn lemma_transfer_admin_moves_authority(
    s: ContractState,
    old_admin: Seq<char>,
    new_admin: Seq<char>,
    treasury: Seq<char>,
)
    requires
        s.admin == Some(old_admin),
        old_admin != new_admin,
    ensures
        ({
            let (s1, r) = s.set_admin_spec(new_admin, Some(old_admin));
            &&& r is Ok
            &&& s1.admin == Some(new_admin)
            &&& s1.set_treasury_spec(new_admin, treasury).1 is Ok
            &&& s1.set_treasury_spec(old_admin, treasury).1 == Err::<(), TreasuryError>(
                TreasuryError::Unauthorized,
            )
        }),
{
}

/// Under parameters within their bounds, a position that can be liquidated is under the
/// minimum collateral ratio, and a position that meets the minimum collateral ratio cannot
/// be liquidated.
pub proof fn lemma_liquidatable_is_undercollateralized(p: RiskParams, collateral: i128, debt: i128)
    requires
        p.is_valid(),
    ensures
        p.can_be_liquidated_spec(collateral, debt) == Ok::<bool, RiskParamsError>(true)
            ==> p.require_min_collateral_ratio_spec(collateral, debt) == Err::<
            (),
            RiskParamsError,
        >(RiskParamsError::InsufficientCollateralRatio),
        p.require_min_collateral_ratio_spec(collateral, debt) is Ok ==> p.can_be_liquidated_spec(
            collateral,
            debt,
        ) == Ok::<bool, RiskParamsError>(false),
{
}

/// Under parameters within their bounds, one liquidation repays at most the whole debt,
/// and the liquidator's bonus is at most half of the amount liquidated.
pub proof fn lemma_liquidation_amounts_bounded(p: RiskParams, debt: i128, liquidated_amount: i128)
    requires
        p.is_valid(),
    ensures
        p.max_liquidatable_spec(debt) matches Ok(v) ==> 0 <= v <= debt,
        p.incentive_amount_spec(liquidated_amount) matches Ok(v) ==> 0 <= v && 2 * v
            <= liquidated_amount,
{
    if debt >= 0 && debt * p.close_factor <= i128::MAX {
        assert(0 <= debt * p.close_factor <= debt * 10_000) by (nonlinear_arith)
            requires
                0 <= debt,
                0 < p.close_factor <= 10_000,
        ;
        assert(0 <= (debt * p.close_factor) / 10_000 <= debt) by (nonlinear_arith)
            requires
                0 <= debt * p.close_factor <= debt * 10_000,
        ;
    }
    if liquidated_amount >= 0 && liquidated_amount * p.liquidation_incentive <= i128::MAX {
        assert(0 <= liquidated_amount * p.liquidation_incentive <= liquidated_amount * 5_000)
            by (nonlinear_arith)
            requires
                0 <= liquidated_amount,
                0 < p.liquidation_incentive <= 5_000,
        ;
        assert(0 <= 2 * ((liquidated_amount * p.liquidation_incentive) / 10_000)
            <= liquidated_amount) by (nonlinear_arith)
            requires
                0 <= liquidated_amount * p.liquidation_incentive <= liquidated_amount * 5_000,
        ;
    }
}

/// Under parameters within their bounds, a position that meets the minimum collateral ratio
/// still meets it with more collateral or less debt, as long as the new collateral times
/// 10_000 fits in an `i128` (beyond that the check reports `Overflow`).
pub proof fn lemma_min_ratio_monotone(
    p: RiskParams,
    collateral: i128,
    debt: i128,
    more_collateral: i128,
    less_debt: i128,
)
    requires
        p.is_valid(),
        0 <= collateral <= more_collateral,
        0 <= less_debt <= debt,
        more_collateral * 10_000 <= i128::MAX,
        p.require_min_collateral_ratio_spec(collateral, debt) is Ok,
    ensures
        p.require_min_collateral_ratio_spec(more_collateral, less_debt) is Ok,
{
    if less_debt > 0 {
        let m = p.min_collateral_ratio as int;
        let x = collateral * 10_000;
        let y = more_collateral * 10_000;
        assert(x / (debt as int) >= m);
        assert(x >= m * debt) by (nonlinear_arith)
            requires
                x / (debt as int) >= m,
                debt > 0,
                x >= 0,
        ;
        assert(m * debt >= m * less_debt) by (nonlinear_arith)
            requires
                m >= 0,
                debt >= less_debt,
        ;
        assert(y / (less_debt as int) >= m) by (nonlinear_arith)
            requires
                y >= x,
                x >= m * debt,
                m * debt >= m * less_debt,
                less_debt > 0,
        ;
    }
}

/// The new value of a setting: the given one, else the one in force.
pub open spec fn given_or(update: Option<i128>, current: i128) -> i128 {
    match update {
        Some(v) => v,
        None => current,
    }
}

/// Updating the risk parameters. Let the new values be each given value, and the value in
/// force for each one not given. The update succeeds exactly when the caller is the risk
/// administrator and the new values meet the security bounds among themselves: minimum
/// collateral ratio at least 10_000, liquidation threshold positive and under the new
/// minimum, close factor in `1..=10_000`, incentive in `1..=5_000`. After a success the
/// getters read the new values; after a failure the storage is unchanged.
pub proof fn lemma_set_risk_params_outcome(
    s: ContractState,
    caller: Seq<char>,
    min_collateral_ratio: Option<i128>,
    liquidation_threshold: Option<i128>,
    close_factor: Option<i128>,
    liquidation_incentive: Option<i128>,
)
    ensures
        ({
            let before = s.effective_risk_params();
            let m = given_or(min_collateral_ratio, before.min_collateral_ratio);
            let t = given_or(liquidation_threshold, before.liquidation_threshold);
            let c = given_or(close_factor, before.close_factor);
            let i = given_or(liquidation_incentive, before.liquidation_incentive);
            let (s1, r) = s.set_risk_params_spec(
                caller,
                min_collateral_ratio,
                liquidation_threshold,
                close_factor,
                liquidation_incentive,
            );
            &&& (r is Ok) == (s.risk_admin == Some(caller) && 10_000 <= m && 0 < t && t < m && 0
                < c && c <= 10_000 && 0 < i && i <= 5_000)
            &&& r is Ok ==> {
                &&& s1.effective_risk_params().min_collateral_ratio == m
                &&& s1.effective_risk_params().liquidation_threshold == t
                &&& s1.effective_risk_params().close_factor == c
                &&& s1.effective_risk_params().liquidation_incentive == i
            }
            &&& r is Err ==> s1 == s
        }),
{
}

/// Liquidation eligibility in terms of the inputs: with non-negative collateral, positive
/// debt and a collateral value whose 10_000-fold fits in an `i128`, a position can be
/// liquidated exactly when `collateral * 10_000 < liquidation_threshold * debt`, that is,
/// when its collateral ratio is under the threshold. Without debt it cannot be; negative
/// values are refused; a collateral too large to scale is reported as an overflow.
pub proof fn lemma_can_be_liquidated_outcome(p: RiskParams, collateral: i128, debt: i128)
    ensures
        collateral >= 0 && debt > 0 && collateral * 10_000 <= i128::MAX ==> p.can_be_liquidated_spec(
            collateral,
            debt,
        ) == Ok::<bool, RiskParamsError>(collateral * 10_000 < p.liquidation_threshold * debt),
        collateral >= 0 && debt == 0 ==> p.can_be_liquidated_spec(collateral, debt) == Ok::<
            bool,
            RiskParamsError,
        >(false),
        collateral < 0 || debt < 0 ==> p.can_be_liquidated_spec(collateral, debt) == Err::<
            bool,
            RiskParamsError,
        >(RiskParamsError::InvalidParameter),
        collateral >= 0 && debt > 0 && collateral * 10_000 > i128::MAX
            ==> p.can_be_liquidated_spec(collateral, debt) == Err::<bool, RiskParamsError>(
            RiskParamsError::Overflow,
        ),
{
    if collateral >= 0 && debt > 0 && collateral * 10_000 <= i128::MAX {
        let x = collateral * 10_000;
        let t = p.liquidation_threshold as int;
        let d = debt as int;
        assert((x / d < t) == (x < t * d)) by (nonlinear_arith)
            requires
                d > 0,
                x >= 0,
        {
            if x / d < t {
                assert(x < (x / d + 1) * d);
                assert((x / d + 1) * d <= t * d);
            } else {
                assert(x >= (x / d) * d);
                assert((x / d) * d >= t * d);
            }
        }
    }
}

/// The minimum collateral ratio in terms of the inputs: with non-negative collateral,
/// positive debt and a collateral value whose 10_000-fold fits in an `i128`, a position
/// passes exactly when `collateral * 10_000 >= min_collateral_ratio * debt`.
pub proof fn lemma_require_min_collateral_ratio_outcome(p: RiskParams, collateral: i128, debt: i128)
    ensures
        collateral >= 0 && debt > 0 && collateral * 10_000 <= i128::MAX ==> (
        p.require_min_collateral_ratio_spec(collateral, debt) is Ok) == (collateral * 10_000
            >= p.min_collateral_ratio * debt),
        collateral >= 0 && debt > 0 && collateral * 10_000 <= i128::MAX && collateral * 10_000
            < p.min_collateral_ratio * debt ==> p.require_min_collateral_ratio_spec(collateral, debt)
            == Err::<(), RiskParamsError>(RiskParamsError::InsufficientCollateralRatio),
{
    if collateral >= 0 && debt > 0 && collateral * 10_000 <= i128::MAX {
        let x = collateral * 10_000;
        let m = p.min_collateral_ratio as int;
        let d = debt as int;
        assert((x / d < m) == (x < m * d)) by (nonlinear_arith)
            requires
                d > 0,
                x >= 0,
        {
            if x / d < m {
                assert(x < (x / d + 1) * d);
                assert((x / d + 1) * d <= m * d);
            } else {
                assert(x >= (x / d) * d);
                assert((x / d) * d >= m * d);
            }
        }
    }
}

/// Updating the interest-rate configuration. Let the new values be each given value, and
/// the value in force for each one not given. The update succeeds exactly when the caller is
/// the interest-rate administrator and the new values meet the bounds (no rate negative,
/// kink in `1..=10_000`, floor not above ceiling, spread at most 10_000). After a success the
/// stored configuration holds exactly the new values, each in its own field; after a failure
/// the storage is unchanged.
pub proof fn lemma_update_interest_rate_config_outcome(
    s: ContractState,
    caller: Seq<char>,
    base_rate_bps: Option<i128>,
    kink_utilization_bps: Option<i128>,
    multiplier_bps: Option<i128>,
    jump_multiplier_bps: Option<i128>,
    rate_floor_bps: Option<i128>,
    rate_ceiling_bps: Option<i128>,
    spread_bps: Option<i128>,
)
    ensures
        ({
            let before = s.effective_interest_rate_config();
            let base = given_or(base_rate_bps, before.base_rate_bps);
            let kink = given_or(kink_utilization_bps, before.kink_utilization_bps);
            let mult = given_or(multiplier_bps, before.multiplier_bps);
            let jump = given_or(jump_multiplier_bps, before.jump_multiplier_bps);
            let floor = given_or(rate_floor_bps, before.rate_floor_bps);
            let ceiling = given_or(rate_ceiling_bps, before.rate_ceiling_bps);
            let spread = given_or(spread_bps, before.spread_bps);
            let (s1, r) = s.update_interest_rate_config_spec(
                caller,
                base_rate_bps,
                kink_utilization_bps,
                multiplier_bps,
                jump_multiplier_bps,
                rate_floor_bps,
                rate_ceiling_bps,
                spread_bps,
            );
            &&& (r is Ok) == (s.interest_rate_admin == Some(caller) && 0 <= base && 0 < kink
                && kink <= 10_000 && 0 <= mult && 0 <= jump && 0 <= floor && floor <= ceiling && 0
                <= spread && spread <= 10_000)
            &&& r is Ok ==> {
                &&& s1.interest_rate_config is Some
                &&& s1.interest_rate_config->0.base_rate_bps == base
                &&& s1.interest_rate_config->0.kink_utilization_bps == kink
                &&& s1.interest_rate_config->0.multiplier_bps == mult
                &&& s1.interest_rate_config->0.jump_multiplier_bps == jump
                &&& s1.interest_rate_config->0.rate_floor_bps == floor
                &&& s1.interest_rate_config->0.rate_ceiling_bps == ceiling
                &&& s1.interest_rate_config->0.spread_bps == spread
            }
            &&& r is Err ==> s1 == s && r == Err::<(), InterestRateError>(
                if s.interest_rate_admin == Some(caller) {
                    InterestRateError::InvalidParameter
                } else {
                    InterestRateError::Unauthorized
                },
            )
        }),
{
}

/// Setting the treasury: it succeeds exactly when the caller is the administrator, and then
/// the treasury read back is the address given, whatever was stored before; a refusal
/// changes nothing. Of two successive settings, the later one is what reads back.
pub proof fn lemma_set_treasury_outcome(
    s: ContractState,
    caller: Seq<char>,
    first: Seq<char>,
    second: Seq<char>,
)
    ensures
        ({
            let (s1, r1) = s.set_treasury_spec(caller, first);
            let (s2, r2) = s1.set_treasury_spec(caller, second);
            &&& (r1 is Ok) == (s.admin == Some(caller))
            &&& r1 is Ok ==> s1.treasury == Some(first) && s1.admin == s.admin
            &&& r1 is Err ==> s1 == s
            &&& r1 is Ok ==> r2 is Ok && s2.treasury == Some(second)
        }),
{
}

/// Setting the fees: it succeeds exactly when the caller is the administrator and both fees
/// lie in `0..=10_000`; then the fee configuration read back is exactly the two fees given,
/// whatever was stored before; a refusal changes nothing. Of two successive settings, the
/// later one is what reads back.
pub proof fn lemma_set_fee_config_outcome(
    s: ContractState,
    caller: Seq<char>,
    interest_fee_bps: i128,
    liquidation_fee_bps: i128,
    later_interest_fee_bps: i128,
    later_liquidation_fee_bps: i128,
)
    ensures
        ({
            let (s1, r1) = s.set_fee_config_spec(
                caller,
                TreasuryFeeConfig { interest_fee_bps, liquidation_fee_bps },
            );
            let (s2, r2) = s1.set_fee_config_spec(
                caller,
                TreasuryFeeConfig {
                    interest_fee_bps: later_interest_fee_bps,
                    liquidation_fee_bps: later_liquidation_fee_bps,
                },
            );
            &&& (r1 is Ok) == (s.admin == Some(caller) && 0 <= interest_fee_bps <= 10_000 && 0
                <= liquidation_fee_bps <= 10_000)
            &&& r1 is Ok ==> s1.effective_fee_config().interest_fee_bps == interest_fee_bps
                && s1.effective_fee_config().liquidation_fee_bps == liquidation_fee_bps
            &&& r1 is Err ==> s1 == s
            &&& r1 is Ok && r2 is Ok ==> s2.effective_fee_config().interest_fee_bps
                == later_interest_fee_bps && s2.effective_fee_config().liquidation_fee_bps
                == later_liquidation_fee_bps
        }),
{
}

/// The liquidation amounts in terms of the inputs: for a non-negative debt (or liquidated
/// amount) whose product with the rate fits in an `i128`, the largest liquidatable amount
/// `v` is the close factor's share of the debt rounded down,
/// `v * 10_000 <= debt * close_factor < (v + 1) * 10_000`, and likewise the incentive amount
/// is the incentive's share of the liquidated amount rounded down. Negative inputs are
/// refused and a product beyond `i128` is reported as an overflow.
pub proof fn lemma_liquidation_amount_outcomes(p: RiskParams, debt: i128, liquidated_amount: i128)
    requires
        p.is_valid(),
    ensures
        debt >= 0 && debt * p.close_factor <= i128::MAX ==> (p.max_liquidatable_spec(debt) matches Ok(
            v,
        ) && v * 10_000 <= debt * p.close_factor < (v + 1) * 10_000),
        debt >= 0 && debt * p.close_factor > i128::MAX ==> p.max_liquidatable_spec(debt) == Err::<
            i128,
            RiskParamsError,
        >(RiskParamsError::Overflow),
        debt < 0 ==> p.max_liquidatable_spec(debt) == Err::<i128, RiskParamsError>(
            RiskParamsError::InvalidParameter,
        ),
        liquidated_amount >= 0 && liquidated_amount * p.liquidation_incentive <= i128::MAX
            ==> (p.incentive_amount_spec(liquidated_amount) matches Ok(v) && v * 10_000
            <= liquidated_amount * p.liquidation_incentive < (v + 1) * 10_000),
        liquidated_amount >= 0 && liquidated_amount * p.liquidation_incentive > i128::MAX
            ==> p.incentive_amount_spec(liquidated_amount) == Err::<i128, RiskParamsError>(
            RiskParamsError::Overflow,
        ),
        liquidated_amount < 0 ==> p.incentive_amount_spec(liquidated_amount) == Err::<
            i128,
            RiskParamsError,
        >(RiskParamsError::InvalidParameter),
{
    if debt >= 0 && debt * p.close_factor <= i128::MAX {
        let x = debt * p.close_factor;
        assert(0 <= x) by (nonlinear_arith)
            requires
                x == debt * p.close_factor,
                debt >= 0,
                p.close_factor > 0,
        ;
        assert((x / 10_000) * 10_000 <= x < (x / 10_000 + 1) * 10_000) by (nonlinear_arith)
            requires
                x >= 0,
        ;
    }
    if liquidated_amount >= 0 && liquidated_amount * p.liquidation_incentive <= i128::MAX {
        let x = liquidated_amount * p.liquidation_incentive;
        assert(0 <= x) by (nonlinear_arith)
            requires
                x == liquidated_amount * p.liquidation_incentive,
                liquidated_amount >= 0,
                p.liquidation_incentive > 0,
        ;
        assert((x / 10_000) * 10_000 <= x < (x / 10_000 + 1) * 10_000) by (nonlinear_arith)
            requires
                x >= 0,
        ;
    }
}

/// Switching the emergency pause succeeds exactly when the caller is the risk
/// administrator; then the pause reads back as the value given, and every other entry is as
/// it was; a refusal changes nothing.
pub proof fn lemma_set_emergency_pause_outcome(s: ContractState, caller: Seq<char>, paused: bool)
    ensures
        ({
            let (s1, r) = s.set_emergency_pause_spec(caller, paused);
            &&& (r is Ok) == (s.risk_admin == Some(caller))
            &&& r is Ok ==> s1.emergency_paused() == paused && s1.risk_admin == s.risk_admin
                && s1.risk_config == s.risk_config && s1.risk_params == s.risk_params
            &&& r is Err ==> s1 == s
        }),
{
}

/// Handing over the administrator role succeeds exactly when the caller is the current
/// administrator; then the new administrator is the one given, and the risk-management and
/// interest-rate administrators are as they were; a refusal changes nothing.
pub proof fn lemma_transfer_admin_outcome(s: ContractState, caller: Seq<char>, new_admin: Seq<char>)
    ensures
        ({
            let (s1, r) = s.set_admin_spec(new_admin, Some(caller));
            &&& (r is Ok) == (s.admin == Some(caller))
            &&& r is Ok ==> s1.admin == Some(new_admin) && s1.risk_admin == s.risk_admin
                && s1.interest_rate_admin == s.interest_rate_admin
            &&& r is Err ==> s1 == s
        }),
{
}

} // verus!
