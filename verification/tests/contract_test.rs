//! The contract's operations beyond initialization, and the laws on concrete values.

use stellar_lend::account::AccountId;
use stellar_lend::contract::HelloContract;
use stellar_lend::errors::{
    AdminError, InterestRateError, RiskManagementError, RiskParamsError, TreasuryError,
};
use stellar_lend::risk_management::Operation;
use stellar_lend::risk_params::RiskParams;

fn initialized(admin: &AccountId, now: u64) -> HelloContract {
    let mut c = HelloContract::new();
    c.initialize(admin.clone(), now).unwrap();
    c
}

#[test]
fn hello_greets() {
    assert_eq!(HelloContract::hello(), "Hello".to_string());
}

#[test]
fn fresh_contract_reads_defaults() {
    let c = HelloContract::new();
    assert_eq!(c.get_min_collateral_ratio(), 11_000);
    assert_eq!(c.get_liquidation_threshold(), 10_500);
    assert_eq!(c.get_close_factor(), 5_000);
    assert_eq!(c.get_liquidation_incentive(), 1_000);
    assert!(c.get_risk_config().is_none());
    assert!(c.get_admin().is_none());
    assert!(c.get_treasury().is_none());
    assert!(!c.is_emergency_paused());
    assert!(!c.is_operation_paused("pause_deposit"));
    let fees = c.get_fee_config();
    assert_eq!(fees.interest_fee_bps, 0);
    assert_eq!(fees.liquidation_fee_bps, 0);
}

#[test]
fn second_initialization_changes_nothing() {
    let admin = AccountId::new("GFIRSTADMIN");
    let attacker = AccountId::new("GATTACKER");
    let mut c = initialized(&admin, 42);
    assert_eq!(
        c.initialize(attacker.clone(), 99),
        Err(RiskManagementError::AlreadyInitialized)
    );
    assert_eq!(c.get_admin().unwrap(), admin);
    assert_eq!(c.risk_admin().unwrap(), admin);
    assert_eq!(c.interest_rate_admin().unwrap(), admin);
    assert_eq!(c.get_risk_config().unwrap().last_update, 42);
}

#[test]
fn admin_transfer_needs_an_admin() {
    let mut c = HelloContract::new();
    let someone = AccountId::new("GSOMEONE");
    let other = AccountId::new("GOTHER");
    assert_eq!(
        c.transfer_admin(someone.clone(), other),
        Err(AdminError::Unauthorized)
    );
    assert!(c.get_admin().is_none());
    assert!(c.initialize(someone, 1).is_ok());
}

#[test]
fn transfer_admin_moves_authority() {
    let admin = AccountId::new("GADMIN");
    let next = AccountId::new("GNEXT");
    let treasury = AccountId::new("CTREASURY");
    let mut c = initialized(&admin, 0);
    assert_eq!(
        c.transfer_admin(next.clone(), next.clone()),
        Err(AdminError::Unauthorized)
    );
    assert_eq!(c.transfer_admin(admin.clone(), next.clone()), Ok(()));
    assert_eq!(c.get_admin().unwrap(), next);
    assert_eq!(
        c.set_treasury(admin.clone(), treasury.clone()),
        Err(TreasuryError::Unauthorized)
    );
    assert_eq!(c.set_treasury(next.clone(), treasury.clone()), Ok(()));
    assert_eq!(c.get_treasury().unwrap(), treasury);
    // Risk management keeps its own administrator.
    assert_eq!(c.risk_admin().unwrap(), admin);
}

#[test]
fn set_risk_params_updates_given_values() {
    let admin = AccountId::new("GADMIN");
    let mut c = initialized(&admin, 0);
    assert_eq!(
        c.set_risk_params(admin.clone(), Some(12_000), None, Some(4_000), None),
        Ok(())
    );
    assert_eq!(c.get_min_collateral_ratio(), 12_000);
    assert_eq!(c.get_liquidation_threshold(), 10_500);
    assert_eq!(c.get_close_factor(), 4_000);
    assert_eq!(c.get_liquidation_incentive(), 1_000);
    // The risk configuration recorded at initialization is a separate entry.
    assert_eq!(c.get_risk_config().unwrap().min_collateral_ratio, 11_000);
}

#[test]
fn set_risk_params_refuses_out_of_bounds_values() {
    let admin = AccountId::new("GADMIN");
    let mut c = initialized(&admin, 0);
    // Threshold above the minimum collateral ratio.
    assert_eq!(
        c.set_risk_params(admin.clone(), None, Some(11_500), None, None),
        Err(RiskManagementError::InvalidParameter)
    );
    // Minimum collateral ratio under 100%.
    assert_eq!(
        c.set_risk_params(admin.clone(), Some(9_999), Some(9_000), None, None),
        Err(RiskManagementError::InvalidParameter)
    );
    // Close factor over 100%.
    assert_eq!(
        c.set_risk_params(admin.clone(), None, None, Some(10_001), None),
        Err(RiskManagementError::InvalidParameter)
    );
    // Incentive over 50%.
    assert_eq!(
        c.set_risk_params(admin.clone(), None, None, None, Some(5_001)),
        Err(RiskManagementError::InvalidParameter)
    );
    assert_eq!(c.get_min_collateral_ratio(), 11_000);
    assert_eq!(c.get_liquidation_threshold(), 10_500);
    assert_eq!(c.get_close_factor(), 5_000);
    assert_eq!(c.get_liquidation_incentive(), 1_000);
}

#[test]
fn set_risk_params_requires_risk_admin() {
    let admin = AccountId::new("GADMIN");
    let mut c = initialized(&admin, 0);
    assert_eq!(
        c.set_risk_params(AccountId::new("GOTHER"), Some(12_000), None, None, None),
        Err(RiskManagementError::Unauthorized)
    );
    assert_eq!(c.get_min_collateral_ratio(), 11_000);
    let mut fresh = HelloContract::new();
    assert_eq!(
        fresh.set_risk_params(admin, Some(12_000), None, None, None),
        Err(RiskManagementError::Unauthorized)
    );
}

#[test]
fn emergency_pause_requires_risk_admin() {
    let admin = AccountId::new("GADMIN");
    let mut c = initialized(&admin, 0);
    assert_eq!(
        c.set_emergency_pause(AccountId::new("GOTHER"), true),
        Err(RiskManagementError::Unauthorized)
    );
    assert!(!c.is_emergency_paused());
    let mut fresh = HelloContract::new();
    assert_eq!(
        fresh.set_emergency_pause(admin, true),
        Err(RiskManagementError::Unauthorized)
    );
    assert!(!fresh.is_emergency_paused());
}

#[test]
fn unknown_pause_switch_reads_as_running() {
    let admin = AccountId::new("GADMIN");
    let c = initialized(&admin, 0);
    assert!(!c.is_operation_paused("pause_everything"));
    assert!(!c.is_operation_paused(""));
}

#[test]
fn switch_names_parse() {
    assert_eq!(Operation::from_switch_name("pause_deposit"), Some(Operation::Deposit));
    assert_eq!(Operation::from_switch_name("pause_withdraw"), Some(Operation::Withdraw));
    assert_eq!(Operation::from_switch_name("pause_borrow"), Some(Operation::Borrow));
    assert_eq!(Operation::from_switch_name("pause_repay"), Some(Operation::Repay));
    assert_eq!(Operation::from_switch_name("pause_liquidate"), Some(Operation::Liquidate));
    assert_eq!(Operation::from_switch_name("deposit"), None);
}

#[test]
fn liquidation_checks_with_defaults() {
    let c = HelloContract::new();
    // Ratio 10_000 < 10_500: liquidatable.
    assert_eq!(c.can_be_liquidated(1_000, 1_000), Ok(true));
    // Ratio 10_500: not under the threshold.
    assert_eq!(c.can_be_liquidated(1_050, 1_000), Ok(false));
    // Ratio 10_499 (rounded down from 10_499.x).
    assert_eq!(c.can_be_liquidated(104_999, 100_000), Ok(true));
    // No debt.
    assert_eq!(c.can_be_liquidated(0, 0), Ok(false));
    assert_eq!(c.can_be_liquidated(-1, 10), Err(RiskParamsError::InvalidParameter));
    assert_eq!(c.can_be_liquidated(10, -1), Err(RiskParamsError::InvalidParameter));
    assert_eq!(c.can_be_liquidated(i128::MAX, 1), Err(RiskParamsError::Overflow));
}

#[test]
fn min_collateral_ratio_checks_with_defaults() {
    let c = HelloContract::new();
    assert_eq!(c.require_min_collateral_ratio(1_100, 1_000), Ok(()));
    assert_eq!(
        c.require_min_collateral_ratio(1_099, 1_000),
        Err(RiskParamsError::InsufficientCollateralRatio)
    );
    assert_eq!(c.require_min_collateral_ratio(5, 0), Ok(()));
    assert_eq!(
        c.require_min_collateral_ratio(-5, 10),
        Err(RiskParamsError::InvalidParameter)
    );
    assert_eq!(
        c.require_min_collateral_ratio(i128::MAX / 2, 3),
        Err(RiskParamsError::Overflow)
    );
}

#[test]
fn liquidation_amounts_with_defaults() {
    let c = HelloContract::new();
    assert_eq!(c.get_max_liquidatable_amount(1_000), Ok(500));
    assert_eq!(c.get_max_liquidatable_amount(3), Ok(1));
    assert_eq!(c.get_max_liquidatable_amount(-1), Err(RiskParamsError::InvalidParameter));
    assert_eq!(c.get_max_liquidatable_amount(i128::MAX), Err(RiskParamsError::Overflow));
    assert_eq!(c.get_liquidation_incentive_amount(1_000), Ok(100));
    assert_eq!(c.get_liquidation_incentive_amount(19), Ok(1));
    assert_eq!(
        c.get_liquidation_incentive_amount(-7),
        Err(RiskParamsError::InvalidParameter)
    );
    assert_eq!(
        c.get_liquidation_incentive_amount(i128::MAX),
        Err(RiskParamsError::Overflow)
    );
}

#[test]
fn liquidatable_positions_are_undercollateralized() {
    let p = RiskParams::defaults();
    for collateral in [0i128, 500, 1_000, 1_049, 1_050, 1_099, 1_100, 5_000] {
        if p.can_be_liquidated(collateral, 1_000) == Ok(true) {
            assert_eq!(
                p.require_min_collateral_ratio(collateral, 1_000),
                Err(RiskParamsError::InsufficientCollateralRatio)
            );
        }
        if p.require_min_collateral_ratio(collateral, 1_000).is_ok() {
            assert_eq!(p.can_be_liquidated(collateral, 1_000), Ok(false));
        }
    }
}

#[test]
fn liquidation_amounts_are_bounded() {
    let p = RiskParams {
        min_collateral_ratio: 15_000,
        liquidation_threshold: 12_000,
        close_factor: 10_000,
        liquidation_incentive: 5_000,
    };
    assert!(p.check_valid());
    assert_eq!(p.get_max_liquidatable_amount(777), Ok(777));
    assert_eq!(p.get_liquidation_incentive_amount(777), Ok(388));
}

#[test]
fn fee_config_rules() {
    let admin = AccountId::new("GADMIN");
    let mut c = initialized(&admin, 0);
    assert_eq!(c.set_fee_config(admin.clone(), 1_000, 250), Ok(()));
    let fees = c.get_fee_config();
    assert_eq!(fees.interest_fee_bps, 1_000);
    assert_eq!(fees.liquidation_fee_bps, 250);
    assert_eq!(
        c.set_fee_config(admin.clone(), 10_001, 0),
        Err(TreasuryError::InvalidFee)
    );
    assert_eq!(
        c.set_fee_config(admin.clone(), 0, -1),
        Err(TreasuryError::InvalidFee)
    );
    assert_eq!(
        c.set_fee_config(AccountId::new("GOTHER"), 1, 1),
        Err(TreasuryError::Unauthorized)
    );
    let fees = c.get_fee_config();
    assert_eq!(fees.interest_fee_bps, 1_000);
    assert_eq!(fees.liquidation_fee_bps, 250);
}

#[test]
fn interest_rate_config_updates() {
    let admin = AccountId::new("GADMIN");
    let mut c = initialized(&admin, 0);
    let before = c.get_interest_rate_config().unwrap();
    assert_eq!(
        c.update_interest_rate_config(
            admin.clone(),
            Some(200),
            None,
            None,
            None,
            None,
            None,
            Some(500)
        ),
        Ok(())
    );
    let after = c.get_interest_rate_config().unwrap();
    assert_eq!(after.base_rate_bps, 200);
    assert_eq!(after.spread_bps, 500);
    assert_eq!(after.kink_utilization_bps, before.kink_utilization_bps);
    assert_eq!(after.multiplier_bps, before.multiplier_bps);
    // Floor above ceiling.
    assert_eq!(
        c.update_interest_rate_config(
            admin.clone(),
            None,
            None,
            None,
            None,
            Some(20_000),
            Some(100),
            None
        ),
        Err(InterestRateError::InvalidParameter)
    );
    // Kink of zero.
    assert_eq!(
        c.update_interest_rate_config(admin.clone(), None, Some(0), None, None, None, None, None),
        Err(InterestRateError::InvalidParameter)
    );
    assert_eq!(
        c.update_interest_rate_config(
            AccountId::new("GOTHER"),
            Some(1),
            None,
            None,
            None,
            None,
            None,
            None
        ),
        Err(InterestRateError::Unauthorized)
    );
    assert_eq!(c.get_interest_rate_config().unwrap().base_rate_bps, 200);
}

#[test]
fn emergency_pause_reads_back() {
    let admin = AccountId::new("GADMIN");
    let mut c = initialized(&admin, 7);
    for paused in [true, true, false, true, false] {
        c.set_emergency_pause(admin.clone(), paused).unwrap();
        assert_eq!(c.is_emergency_paused(), paused);
    }
}

#[test]
fn account_equality_is_by_key() {
    let a = AccountId::new("GSAME");
    let b = AccountId::new("GSAME");
    let c = AccountId::new("GDIFFERENT");
    assert!(a.same_as(&b));
    assert!(!a.same_as(&c));
    assert_eq!(a, b);
    assert_ne!(a, c);
}

#[test]
fn initialization_stays_refused_after_other_calls() {
    let admin = AccountId::new("GADMIN");
    let next = AccountId::new("GNEXT");
    let mut c = initialized(&admin, 3);
    c.transfer_admin(admin.clone(), next.clone()).unwrap();
    c.set_risk_params(admin.clone(), Some(12_000), None, None, None).unwrap();
    c.set_emergency_pause(admin.clone(), true).unwrap();
    c.set_treasury(next.clone(), AccountId::new("CTREASURY")).unwrap();
    c.set_fee_config(next.clone(), 100, 100).unwrap();
    c.update_interest_rate_config(admin.clone(), Some(300), None, None, None, None, None, None)
        .unwrap();
    for who in [admin.clone(), next.clone(), AccountId::new("GATTACKER")] {
        assert_eq!(
            c.initialize(who, 1_000),
            Err(RiskManagementError::AlreadyInitialized)
        );
    }
    assert_eq!(c.get_admin().unwrap(), next);
    assert_eq!(c.risk_admin().unwrap(), admin);
    assert_eq!(c.get_risk_config().unwrap().last_update, 3);
    assert_eq!(c.get_min_collateral_ratio(), 12_000);
    assert!(c.is_emergency_paused());
}

#[test]
fn more_collateral_or_less_debt_keeps_minimum_ratio() {
    let p = RiskParams::defaults();
    assert_eq!(p.require_min_collateral_ratio(1_100, 1_000), Ok(()));
    assert_eq!(p.require_min_collateral_ratio(1_500, 1_000), Ok(()));
    assert_eq!(p.require_min_collateral_ratio(1_100, 900), Ok(()));
    assert_eq!(p.require_min_collateral_ratio(2, 1), Ok(()));
    // Beyond the `i128` range of collateral times 10_000 the check reports overflow.
    assert_eq!(
        p.require_min_collateral_ratio(i128::MAX, 1),
        Err(RiskParamsError::Overflow)
    );
}
