use vstd::prelude::*;

use crate::account::{clone_opt_account, is_account, opt_account_view, AccountId};
use crate::errors::{
    AdminError, InterestRateError, RiskManagementError, RiskParamsError, TreasuryError,
};
use crate::interest_rate::{InterestRateConfig, InterestRateDataKey};
use crate::risk_management::{operation_named, Operation, RiskConfig, RiskDataKey};
use crate::risk_params::RiskParams;
use crate::treasury::TreasuryFeeConfig;

verus! {

/// What the contract keeps in its ledger storage, as mathematical values.
///
/// Each field is one storage entry; `None` is an entry that was never written.
pub struct ContractState {
    /// The administrator record.
    pub admin: Option<Seq<char>>,
    /// Risk management's administrator.
    pub risk_admin: Option<Seq<char>>,
    /// Risk management's configuration.
    pub risk_config: Option<RiskConfig>,
    /// Risk management's emergency pause flag.
    pub emergency_pause: Option<bool>,
    /// The stored risk parameters.
    pub risk_params: Option<RiskParams>,
    /// The interest-rate administrator.
    pub interest_rate_admin: Option<Seq<char>>,
    /// The interest-rate configuration.
    pub interest_rate_config: Option<InterestRateConfig>,
    /// The treasury address.
    pub treasury: Option<Seq<char>>,
    /// The stored fee configuration.
    pub fee_config: Option<TreasuryFeeConfig>,
}

impl RiskConfig {
    /// The risk parameters that a risk configuration carries.
    pub open spec fn params(self) -> RiskParams {
        RiskParams {
            min_collateral_ratio: self.min_collateral_ratio,
            liquidation_threshold: self.liquidation_threshold,
            close_factor: self.close_factor,
            liquidation_incentive: self.liquidation_incentive,
        }
    }
}

impl ContractState {
    /// The storage of a freshly deployed contract: nothing written.
    pub open spec fn fresh() -> ContractState {
        ContractState {
            admin: None,
            risk_admin: None,
            risk_config: None,
            emergency_pause: None,
            risk_params: None,
            interest_rate_admin: None,
            interest_rate_config: None,
            treasury: None,
            fee_config: None,
        }
    }

    /// Whether any of the three records that initialization checks exists.
    pub open spec fn is_initialized(self) -> bool {
        ||| self.admin is Some
        ||| self.risk_config is Some
        ||| self.interest_rate_config is Some
    }

    /// The invariant of every reachable storage: initialization wrote all of its records
    /// or none of them, and every stored parameter set lies within its bounds.
    pub open spec fn wf(self) -> bool {
        &&& if self.risk_config is Some {
            &&& self.admin is Some
            &&& self.risk_admin is Some
            &&& self.emergency_pause is Some
            &&& self.risk_params is Some
            &&& self.interest_rate_admin is Some
            &&& self.interest_rate_config is Some
        } else {
            &&& self.admin is None
            &&& self.risk_admin is None
            &&& self.emergency_pause is None
            &&& self.risk_params is None
            &&& self.interest_rate_admin is None
            &&& self.interest_rate_config is None
            &&& self.treasury is None
            &&& self.fee_config is None
        }
        &&& self.risk_config matches Some(c) ==> c.params().is_valid()
        &&& self.risk_params matches Some(p) ==> p.is_valid()
        &&& self.interest_rate_config matches Some(c) ==> c.is_valid()
        &&& self.fee_config matches Some(f) ==> f.is_valid()
    }

    /// The risk parameters in force: the stored ones, else the defaults.
    pub open spec fn effective_risk_params(self) -> RiskParams {
        match self.risk_params {
            Some(p) => p,
            None => RiskParams::default_spec(),
        }
    }

    /// The interest-rate configuration in force: the stored one, else the initial one.
    pub open spec fn effective_interest_rate_config(self) -> InterestRateConfig {
        match self.interest_rate_config {
            Some(c) => c,
            None => InterestRateConfig::initial_spec(),
        }
    }

    /// The fee configuration in force: the stored one, else no fees.
    pub open spec fn effective_fee_config(self) -> TreasuryFeeConfig {
        match self.fee_config {
            Some(f) => f,
            None => TreasuryFeeConfig::default_spec(),
        }
    }

    /// Whether the pause switch of the given name is on. A name of no switch, or a
    /// contract without risk configuration, reads as not paused.
    pub open spec fn operation_paused(self, name: Seq<char>) -> bool {
        match self.risk_config {
            Some(c) => match operation_named(name) {
                Some(op) => c.pause_switches.switch_of(op),
                None => false,
            },
            None => false,
        }
    }

    /// Whether the emergency pause is on; an unwritten flag reads as off.
    pub open spec fn emergency_paused(self) -> bool {
        self.emergency_pause == Some(true)
    }

    /// Whether the risk-data entry of the given key is written.
    pub open spec fn has_risk_data(self, key: RiskDataKey) -> bool {
        match key {
            RiskDataKey::Admin => self.risk_admin is Some,
            RiskDataKey::RiskConfig => self.risk_config is Some,
            RiskDataKey::EmergencyPause => self.emergency_pause is Some,
        }
    }

    /// Whether the interest-rate entry of the given key is written.
    pub open spec fn has_interest_rate_data(self, key: InterestRateDataKey) -> bool {
        match key {
            InterestRateDataKey::Admin => self.interest_rate_admin is Some,
            InterestRateDataKey::InterestRateConfig => self.interest_rate_config is Some,
        }
    }

    /// Initialization: refused with `AlreadyInitialized`, leaving the storage as it was,
    /// where an administrator, a risk configuration or an interest-rate configuration
    /// exists; otherwise `admin` becomes the administrator of all three subsystems, and the
    /// default risk configuration (stamped `now`), the default risk parameters, an
    /// emergency pause that is off and the initial interest-rate configuration are written.
    pub open spec fn initialize_spec(self, admin: Seq<char>, now: u64) -> (
        ContractState,
        Result<(), RiskManagementError>,
    ) {
        if self.is_initialized() {
            (self, Err(RiskManagementError::AlreadyInitialized))
        } else {
            (
                ContractState {
                    admin: Some(admin),
                    risk_admin: Some(admin),
                    risk_config: Some(RiskConfig::initial_spec(now)),
                    emergency_pause: Some(false),
                    risk_params: Some(RiskParams::default_spec()),
                    interest_rate_admin: Some(admin),
                    interest_rate_config: Some(InterestRateConfig::initial_spec()),
                    ..self
                },
                Ok(()),
            )
        }
    }

    /// Writing the administrator record: allowed exactly when `caller` is the current
    /// administrator (no caller where there is none yet).
    ///
    /// This administrator model is this library's own rule. In particular no address can
    /// claim the role of a contract that has no administrator by transferring it; only
    /// initialization writes the first administrator. The record is the contract's
    /// administrator only: risk management and the interest-rate configuration keep the
    /// administrators that initialization gave them, so after a transfer each subsystem may
    /// have its own administrator.
    pub open spec fn set_admin_spec(self, new_admin: Seq<char>, caller: Option<Seq<char>>) -> (
        ContractState,
        Result<(), AdminError>,
    ) {
        if self.admin == caller {
            (ContractState { admin: Some(new_admin), ..self }, Ok(()))
        } else {
            (self, Err(AdminError::Unauthorized))
        }
    }

    /// Changing the stored risk parameters: only the risk administrator may, and only to
    /// parameters within their bounds; a value not given keeps the one in force.
    pub open spec fn set_risk_params_spec(
        self,
        caller: Seq<char>,
        min_collateral_ratio: Option<i128>,
        liquidation_threshold: Option<i128>,
        close_factor: Option<i128>,
        liquidation_incentive: Option<i128>,
    ) -> (ContractState, Result<(), RiskManagementError>) {
        if self.risk_admin != Some(caller) {
            (self, Err(RiskManagementError::Unauthorized))
        } else {
            let p = self.effective_risk_params().with_updates(
                min_collateral_ratio,
                liquidation_threshold,
                close_factor,
                liquidation_incentive,
            );
            if p.is_valid() {
                (ContractState { risk_params: Some(p), ..self }, Ok(()))
            } else {
                (self, Err(RiskManagementError::InvalidParameter))
            }
        }
    }

    /// Switching the emergency pause: only the risk administrator may.
    pub open spec fn set_emergency_pause_spec(self, caller: Seq<char>, paused: bool) -> (
        ContractState,
        Result<(), RiskManagementError>,
    ) {
        if self.risk_admin != Some(caller) {
            (self, Err(RiskManagementError::Unauthorized))
        } else {
            (ContractState { emergency_pause: Some(paused), ..self }, Ok(()))
        }
    }

    /// Setting the treasury address: only the administrator may.
    pub open spec fn set_treasury_spec(self, caller: Seq<char>, treasury: Seq<char>) -> (
        ContractState,
        Result<(), TreasuryError>,
    ) {
        if self.admin != Some(caller) {
            (self, Err(TreasuryError::Unauthorized))
        } else {
            (ContractState { treasury: Some(treasury), ..self }, Ok(()))
        }
    }

    /// Setting the fee configuration: only the administrator may, and only fees within
    /// `0..=10_000` basis points.
    pub open spec fn set_fee_config_spec(self, caller: Seq<char>, config: TreasuryFeeConfig) -> (
        ContractState,
        Result<(), TreasuryError>,
    ) {
        if self.admin != Some(caller) {
            (self, Err(TreasuryError::Unauthorized))
        } else if !config.is_valid() {
            (self, Err(TreasuryError::InvalidFee))
        } else {
            (ContractState { fee_config: Some(config), ..self }, Ok(()))
        }
    }

    /// Changing the interest-rate configuration: only the interest-rate administrator may,
    /// and only to a configuration within its bounds; a value not given keeps the one in
    /// force.
    pub open spec fn update_interest_rate_config_spec(
        self,
        caller: Seq<char>,
        base_rate_bps: Option<i128>,
        kink_utilization_bps: Option<i128>,
        multiplier_bps: Option<i128>,
        jump_multiplier_bps: Option<i128>,
        rate_floor_bps: Option<i128>,
        rate_ceiling_bps: Option<i128>,
        spread_bps: Option<i128>,
    ) -> (ContractState, Result<(), InterestRateError>) {
        if self.interest_rate_admin != Some(caller) {
            (self, Err(InterestRateError::Unauthorized))
        } else {
            let c = self.effective_interest_rate_config().with_updates(
                base_rate_bps,
                kink_utilization_bps,
                multiplier_bps,
                jump_multiplier_bps,
                rate_floor_bps,
                rate_ceiling_bps,
                spread_bps,
            );
            if c.is_valid() {
                (ContractState { interest_rate_config: Some(c), ..self }, Ok(()))
            } else {
                (self, Err(InterestRateError::InvalidParameter))
            }
        }
    }
}

/// The StellarLend core contract, with the storage that it keeps on the ledger.
///
/// Each field is one storage entry, as in [`ContractState`].
pub struct HelloContract {
    pub admin: Option<AccountId>,
    pub risk_admin: Option<AccountId>,
    pub risk_config: Option<RiskConfig>,
    pub emergency_pause: Option<bool>,
    pub risk_params: Option<RiskParams>,
    pub interest_rate_admin: Option<AccountId>,
    pub interest_rate_config: Option<InterestRateConfig>,
    pub treasury: Option<AccountId>,
    pub fee_config: Option<TreasuryFeeConfig>,
}

impl View for HelloContract {
    type V = ContractState;

    open spec fn view(&self) -> ContractState {
        ContractState {
            admin: opt_account_view(self.admin),
            risk_admin: opt_account_view(self.risk_admin),
            risk_config: self.risk_config,
            emergency_pause: self.emergency_pause,
            risk_params: self.risk_params,
            interest_rate_admin: opt_account_view(self.interest_rate_admin),
            interest_rate_config: self.interest_rate_config,
            treasury: opt_account_view(self.treasury),
            fee_config: self.fee_config,
        }
    }
}

impl HelloContract {
    /// A freshly deployed contract, whose storage holds nothing.
    pub fn new() -> (r: HelloContract)
        ensures
            r@ == ContractState::fresh(),
            r@.wf(),
    {
        HelloContract {
            admin: None,
            risk_admin: None,
            risk_config: None,
            emergency_pause: None,
            risk_params: None,
            interest_rate_admin: None,
            interest_rate_config: None,
            treasury: None,
            fee_config: None,
        }
    }

    /// Writes the administrator record, as the administrator module does.
    fn set_admin(&mut self, new_admin: AccountId, caller: Option<&AccountId>) -> (r: Result<
        (),
        AdminError,
    >)
        ensures
            (final(self)@, r) == old(self)@.set_admin_spec(
                new_admin@,
                match caller {
                    Some(c) => Some(c@),
                    None => None,
                },
            ),
    {
        let allowed = match caller {
            None => self.admin.is_none(),
            Some(c) => is_account(&self.admin, c),
        };
        if allowed {
            self.admin = Some(new_admin);
            Ok(())
        } else {
            Err(AdminError::Unauthorized)
        }
    }

    /// Risk management's own initialization: its administrator, its configuration and an
    /// emergency pause that is off, unless a configuration exists.
    fn initialize_risk_management(&mut self, admin: AccountId, now: u64) -> (r: Result<
        (),
        RiskManagementError,
    >)
        ensures
            old(self)@.risk_config is Some ==> final(self)@ == old(self)@ && r == Err::<
                (),
                RiskManagementError,
            >(RiskManagementError::AlreadyInitialized),
            old(self)@.risk_config is None ==> r is Ok && final(self)@ == (ContractState {
                risk_admin: Some(admin@),
                risk_config: Some(RiskConfig::initial_spec(now)),
                emergency_pause: Some(false),
                ..old(self)@
            }),
    {
        if self.risk_config.is_some() {
            return Err(RiskManagementError::AlreadyInitialized);
        }
        self.risk_admin = Some(admin);
        self.risk_config = Some(RiskConfig::initial(now));
        self.emergency_pause = Some(false);
        Ok(())
    }

    /// Writes the default risk parameters.
    fn initialize_risk_params(&mut self) -> (r: Result<(), RiskParamsError>)
        ensures
            r is Ok,
            final(self)@ == (ContractState {
                risk_params: Some(RiskParams::default_spec()),
                ..old(self)@
            }),
    {
        self.risk_params = Some(RiskParams::defaults());
        Ok(())
    }

    /// The interest-rate configuration's own initialization: its administrator and the
    /// initial configuration, unless a configuration exists.
    fn initialize_interest_rate_config(&mut self, admin: AccountId) -> (r: Result<
        (),
        InterestRateError,
    >)
        ensures
            old(self)@.interest_rate_config is Some ==> final(self)@ == old(self)@ && r == Err::<
                (),
                InterestRateError,
            >(InterestRateError::AlreadyInitialized),
            old(self)@.interest_rate_config is None ==> r is Ok && final(self)@ == (ContractState {
                interest_rate_admin: Some(admin@),
                interest_rate_config: Some(InterestRateConfig::initial_spec()),
                ..old(self)@
            }),
    {
        if self.interest_rate_config.is_some() {
            return Err(InterestRateError::AlreadyInitialized);
        }
        self.interest_rate_admin = Some(admin);
        self.interest_rate_config = Some(InterestRateConfig::initial());
        Ok(())
    }

    /// Initializes the contract once: `admin` becomes the administrator of the contract,
    /// of risk management and of the interest-rate configuration; the default risk
    /// configuration, stamped with the ledger time `now`, the default risk parameters, an
    /// emergency pause that is off and the initial interest-rate configuration are written.
    /// A second initialization, by any caller, fails with `AlreadyInitialized` and changes
    /// nothing.
    pub fn initialize(&mut self, admin: AccountId, now: u64) -> (r: Result<
        (),
        RiskManagementError,
    >)
        ensures
            (final(self)@, r) == old(self)@.initialize_spec(admin@, now),
            old(self)@.wf() ==> final(self)@.wf(),
    {
        if self.admin.is_some() || self.risk_config.is_some()
            || self.interest_rate_config.is_some() {
            return Err(RiskManagementError::AlreadyInitialized);
        }
        match self.set_admin(admin.clone(), None) {
            Ok(()) => {},
            Err(_) => {
                return Err(RiskManagementError::Unauthorized);
            },
        }
        match self.initialize_risk_management(admin.clone(), now) {
            Ok(()) => {},
            Err(e) => {
                return Err(e);
            },
        }
        match self.initialize_risk_params() {
            Ok(()) => {},
            Err(_) => {
                return Err(RiskManagementError::InvalidParameter);
            },
        }
        match self.initialize_interest_rate_config(admin) {
            Ok(()) => {},
            Err(e) => {
                if e == InterestRateError::AlreadyInitialized {
                    return Err(RiskManagementError::AlreadyInitialized);
                } else {
                    return Err(RiskManagementError::Unauthorized);
                }
            },
        }
        Ok(())
    }

    /// Hands the administrator role to `new_admin`; only the current administrator may.
    /// Only the contract's administrator record changes; the risk-management and
    /// interest-rate administrators stay as they are.
    pub fn transfer_admin(&mut self, caller: AccountId, new_admin: AccountId) -> (r: Result<
        (),
        AdminError,
    >)
        ensures
            (final(self)@, r) == old(self)@.set_admin_spec(new_admin@, Some(caller@)),
            old(self)@.wf() ==> final(self)@.wf(),
    {
        self.set_admin(new_admin, Some(&caller))
    }

    /// The administrator of the contract, if any.
    pub fn get_admin(&self) -> (r: Option<AccountId>)
        ensures
            opt_account_view(r) == self@.admin,
    {
        clone_opt_account(&self.admin)
    }

    /// The administrator of risk management, if any.
    pub fn risk_admin(&self) -> (r: Option<AccountId>)
        ensures
            opt_account_view(r) == self@.risk_admin,
    {
        clone_opt_account(&self.risk_admin)
    }

    /// The administrator of the interest-rate configuration, if any.
    pub fn interest_rate_admin(&self) -> (r: Option<AccountId>)
        ensures
            opt_account_view(r) == self@.interest_rate_admin,
    {
        clone_opt_account(&self.interest_rate_admin)
    }

    /// Whether the risk-management entry of the given key is written.
    pub fn has_risk_data(&self, key: RiskDataKey) -> (r: bool)
        ensures
            r == self@.has_risk_data(key),
    {
        match key {
            RiskDataKey::Admin => self.risk_admin.is_some(),
            RiskDataKey::RiskConfig => self.risk_config.is_some(),
            RiskDataKey::EmergencyPause => self.emergency_pause.is_some(),
        }
    }

    /// Whether the interest-rate entry of the given key is written.
    pub fn has_interest_rate_data(&self, key: InterestRateDataKey) -> (r: bool)
        ensures
            r == self@.has_interest_rate_data(key),
    {
        match key {
            InterestRateDataKey::Admin => self.interest_rate_admin.is_some(),
            InterestRateDataKey::InterestRateConfig => self.interest_rate_config.is_some(),
        }
    }

    /// The stored risk parameters, else the defaults.
    fn effective_risk_params(&self) -> (r: RiskParams)
        ensures
            r == self@.effective_risk_params(),
    {
        match self.risk_params {
            Some(p) => p,
            None => RiskParams::defaults(),
        }
    }

    /// Changes the risk parameters that are given, keeping the others; only the risk
    /// administrator may, and the result must lie within the parameters' bounds, else the
    /// update fails with `InvalidParameter` and nothing changes.
    pub fn set_risk_params(
        &mut self,
        caller: AccountId,
        min_collateral_ratio: Option<i128>,
        liquidation_threshold: Option<i128>,
        close_factor: Option<i128>,
        liquidation_incentive: Option<i128>,
    ) -> (r: Result<(), RiskManagementError>)
        ensures
            (final(self)@, r) == old(self)@.set_risk_params_spec(
                caller@,
                min_collateral_ratio,
                liquidation_threshold,
                close_factor,
                liquidation_incentive,
            ),
            old(self)@.wf() ==> final(self)@.wf(),
    {
        if !is_account(&self.risk_admin, &caller) {
            return Err(RiskManagementError::Unauthorized);
        }
        let p = self.effective_risk_params().apply_updates(
            min_collateral_ratio,
            liquidation_threshold,
            close_factor,
            liquidation_incentive,
        );
        if !p.check_valid() {
            return Err(RiskManagementError::InvalidParameter);
        }
        self.risk_params = Some(p);
        Ok(())
    }

    /// Switches the emergency pause; only the risk administrator may.
    pub fn set_emergency_pause(&mut self, caller: AccountId, paused: bool) -> (r: Result<
        (),
        RiskManagementError,
    >)
        ensures
            (final(self)@, r) == old(self)@.set_emergency_pause_spec(caller@, paused),
            old(self)@.wf() ==> final(self)@.wf(),
    {
        if !is_account(&self.risk_admin, &caller) {
            return Err(RiskManagementError::Unauthorized);
        }
        self.emergency_pause = Some(paused);
        Ok(())
    }

    /// Whether the emergency pause is on.
    pub fn is_emergency_paused(&self) -> (r: bool)
        ensures
            r == self@.emergency_paused(),
    {
        match self.emergency_pause {
            Some(p) => p,
            None => false,
        }
    }

    /// Whether the pause switch of the given name (`pause_deposit`, `pause_withdraw`,
    /// `pause_borrow`, `pause_repay` or `pause_liquidate`) is on.
    pub fn is_operation_paused(&self, operation: &str) -> (r: bool)
        ensures
            r == self@.operation_paused(operation@),
    {
        match &self.risk_config {
            Some(c) => match Operation::from_switch_name(operation) {
                Some(op) => c.pause_switches.get(op),
                None => false,
            },
            None => false,
        }
    }

    /// The risk-management configuration, if initialized.
    pub fn get_risk_config(&self) -> (r: Option<RiskConfig>)
        ensures
            r == self@.risk_config,
    {
        self.risk_config
    }

    /// The minimum collateral ratio in force, in basis points.
    pub fn get_min_collateral_ratio(&self) -> (r: i128)
        ensures
            r == self@.effective_risk_params().min_collateral_ratio,
    {
        self.effective_risk_params().min_collateral_ratio
    }

    /// The liquidation threshold in force, in basis points.
    pub fn get_liquidation_threshold(&self) -> (r: i128)
        ensures
            r == self@.effective_risk_params().liquidation_threshold,
    {
        self.effective_risk_params().liquidation_threshold
    }

    /// The close factor in force, in basis points.
    pub fn get_close_factor(&self) -> (r: i128)
        ensures
            r == self@.effective_risk_params().close_factor,
    {
        self.effective_risk_params().close_factor
    }

    /// The liquidation incentive in force, in basis points.
    pub fn get_liquidation_incentive(&self) -> (r: i128)
        ensures
            r == self@.effective_risk_params().liquidation_incentive,
    {
        self.effective_risk_params().liquidation_incentive
    }

    /// Whether a position with the given collateral and debt values may be liquidated
    /// under the parameters in force.
    pub fn can_be_liquidated(&self, collateral_value: i128, debt_value: i128) -> (r: Result<
        bool,
        RiskParamsError,
    >)
        ensures
            r == self@.effective_risk_params().can_be_liquidated_spec(collateral_value, debt_value),
    {
        self.effective_risk_params().can_be_liquidated(collateral_value, debt_value)
    }

    /// The largest part of the debt that one liquidation may repay under the parameters in
    /// force.
    pub fn get_max_liquidatable_amount(&self, debt_value: i128) -> (r: Result<
        i128,
        RiskParamsError,
    >)
        ensures
            r == self@.effective_risk_params().max_liquidatable_spec(debt_value),
    {
        self.effective_risk_params().get_max_liquidatable_amount(debt_value)
    }

    /// The liquidator's bonus on a liquidated amount under the parameters in force.
    pub fn get_liquidation_incentive_amount(&self, liquidated_amount: i128) -> (r: Result<
        i128,
        RiskParamsError,
    >)
        ensures
            r == self@.effective_risk_params().incentive_amount_spec(liquidated_amount),
    {
        self.effective_risk_params().get_liquidation_incentive_amount(liquidated_amount)
    }

    /// Fails unless the position reaches the minimum collateral ratio in force.
    pub fn require_min_collateral_ratio(&self, collateral_value: i128, debt_value: i128) -> (r:
        Result<(), RiskParamsError>)
        ensures
            r == self@.effective_risk_params().require_min_collateral_ratio_spec(
                collateral_value,
                debt_value,
            ),
    {
        self.effective_risk_params().require_min_collateral_ratio(collateral_value, debt_value)
    }

    /// Sets the protocol treasury address; only the administrator may.
    pub fn set_treasury(&mut self, caller: AccountId, treasury: AccountId) -> (r: Result<
        (),
        TreasuryError,
    >)
        ensures
            (final(self)@, r) == old(self)@.set_treasury_spec(caller@, treasury@),
            old(self)@.wf() ==> final(self)@.wf(),
    {
        if !is_account(&self.admin, &caller) {
            return Err(TreasuryError::Unauthorized);
        }
        self.treasury = Some(treasury);
        Ok(())
    }

    /// The configured treasury address, if any.
    pub fn get_treasury(&self) -> (r: Option<AccountId>)
        ensures
            opt_account_view(r) == self@.treasury,
    {
        clone_opt_account(&self.treasury)
    }

    /// Sets the protocol fee percentages; only the administrator may, and each fee must
    /// lie in `0..=10_000` basis points.
    pub fn set_fee_config(
        &mut self,
        caller: AccountId,
        interest_fee_bps: i128,
        liquidation_fee_bps: i128,
    ) -> (r: Result<(), TreasuryError>)
        ensures
            (final(self)@, r) == old(self)@.set_fee_config_spec(
                caller@,
                TreasuryFeeConfig { interest_fee_bps, liquidation_fee_bps },
            ),
            old(self)@.wf() ==> final(self)@.wf(),
    {
        let config = TreasuryFeeConfig { interest_fee_bps, liquidation_fee_bps };
        if !is_account(&self.admin, &caller) {
            return Err(TreasuryError::Unauthorized);
        }
        if !config.check_valid() {
            return Err(TreasuryError::InvalidFee);
        }
        self.fee_config = Some(config);
        Ok(())
    }

    /// The fee configuration in force.
    pub fn get_fee_config(&self) -> (r: TreasuryFeeConfig)
        ensures
            r == self@.effective_fee_config(),
    {
        match self.fee_config {
            Some(f) => f,
            None => TreasuryFeeConfig::defaults(),
        }
    }

    /// The stored interest-rate configuration, if initialized.
    pub fn get_interest_rate_config(&self) -> (r: Option<InterestRateConfig>)
        ensures
            r == self@.interest_rate_config,
    {
        self.interest_rate_config
    }

    /// Changes the interest-rate parameters that are given, keeping the others; only the
    /// interest-rate administrator may, and the result must lie within the configuration's
    /// bounds, else the update fails with `InvalidParameter` and nothing changes.
    pub fn update_interest_rate_config(
        &mut self,
        caller: AccountId,
        base_rate_bps: Option<i128>,
        kink_utilization_bps: Option<i128>,
        multiplier_bps: Option<i128>,
        jump_multiplier_bps: Option<i128>,
        rate_floor_bps: Option<i128>,
        rate_ceiling_bps: Option<i128>,
        spread_bps: Option<i128>,
    ) -> (r: Result<(), InterestRateError>)
        ensures
            (final(self)@, r) == old(self)@.update_interest_rate_config_spec(
                caller@,
                base_rate_bps,
                kink_utilization_bps,
                multiplier_bps,
                jump_multiplier_bps,
                rate_floor_bps,
                rate_ceiling_bps,
                spread_bps,
            ),
            old(self)@.wf() ==> final(self)@.wf(),
    {
        if !is_account(&self.interest_rate_admin, &caller) {
            return Err(InterestRateError::Unauthorized);
        }
        let current = match self.interest_rate_config {
            Some(c) => c,
            None => InterestRateConfig::initial(),
        };
        let c = current.apply_updates(
            base_rate_bps,
            kink_utilization_bps,
            multiplier_bps,
            jump_multiplier_bps,
            rate_floor_bps,
            rate_ceiling_bps,
            spread_bps,
        );
        if !c.check_valid() {
            return Err(InterestRateError::InvalidParameter);
        }
        self.interest_rate_config = Some(c);
        Ok(())
    }

    /// The greeting of the contract.
    pub fn hello() -> (r: String)
        ensures
            r@ == "Hello"@,
    {
        "Hello".to_owned()
    }
}

} // verus!
