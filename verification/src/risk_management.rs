use vstd::prelude::*;

use crate::risk_params::{
    DEFAULT_CLOSE_FACTOR, DEFAULT_LIQUIDATION_INCENTIVE, DEFAULT_LIQUIDATION_THRESHOLD,
    DEFAULT_MIN_COLLATERAL_RATIO,
};

verus! {

/// The per-operation pause switches of the risk configuration.
#[derive(Debug, Clone, Copy)]
pub struct PauseSwitches {
    pub deposit: bool,
    pub withdraw: bool,
    pub borrow: bool,
    pub repay: bool,
    pub liquidate: bool,
}

/// The risk-management configuration that initialization records.
#[derive(Debug, Clone, Copy)]
pub struct RiskConfig {
    pub min_collateral_ratio: i128,
    pub liquidation_threshold: i128,
    pub close_factor: i128,
    pub liquidation_incentive: i128,
    pub pause_switches: PauseSwitches,
    /// Ledger timestamp of the last change.
    pub last_update: u64,
}

/// The operations that a pause switch can stop.
#[derive(Debug, Clone, Copy, PartialEq, Eq, Structural)]
pub enum Operation {
    Deposit,
    Withdraw,
    Borrow,
    Repay,
    Liquidate,
}

/// The storage entries that risk management keeps.
#[derive(Debug, Clone, Copy, PartialEq, Eq, Structural)]
pub enum RiskDataKey {
    Admin,
    RiskConfig,
    EmergencyPause,
}

impl PauseSwitches {
    /// All operations running.
    pub open spec fn none_paused_spec() -> PauseSwitches {
        PauseSwitches { deposit: false, withdraw: false, borrow: false, repay: false, liquidate: false }
    }

    /// Builds the switches with all operations running.
    pub fn none_paused() -> (r: PauseSwitches)
        ensures
            r == PauseSwitches::none_paused_spec(),
    {
        PauseSwitches { deposit: false, withdraw: false, borrow: false, repay: false, liquidate: false }
    }

    /// The switch of one operation.
    pub open spec fn switch_of(self, op: Operation) -> bool {
        match op {
            Operation::Deposit => self.deposit,
            Operation::Withdraw => self.withdraw,
            Operation::Borrow => self.borrow,
            Operation::Repay => self.repay,
            Operation::Liquidate => self.liquidate,
        }
    }

    /// Reads the switch of one operation.
    pub fn get(&self, op: Operation) -> (r: bool)
        ensures
            r == self.switch_of(op),
    {
        match op {
            Operation::Deposit => self.deposit,
            Operation::Withdraw => self.withdraw,
            Operation::Borrow => self.borrow,
            Operation::Repay => self.repay,
            Operation::Liquidate => self.liquidate,
        }
    }
}

impl RiskConfig {
    /// The configuration that initialization at ledger time `now` records: the default
    /// parameters, no operation paused.
    pub open spec fn initial_spec(now: u64) -> RiskConfig {
        RiskConfig {
            min_collateral_ratio: DEFAULT_MIN_COLLATERAL_RATIO,
            liquidation_threshold: DEFAULT_LIQUIDATION_THRESHOLD,
            close_factor: DEFAULT_CLOSE_FACTOR,
            liquidation_incentive: DEFAULT_LIQUIDATION_INCENTIVE,
            pause_switches: PauseSwitches::none_paused_spec(),
            last_update: now,
        }
    }

    /// Builds the configuration recorded by initialization at ledger time `now`.
    pub fn initial(now: u64) -> (r: RiskConfig)
        ensures
            r == RiskConfig::initial_spec(now),
    {
        RiskConfig {
            min_collateral_ratio: DEFAULT_MIN_COLLATERAL_RATIO,
            liquidation_threshold: DEFAULT_LIQUIDATION_THRESHOLD,
            close_factor: DEFAULT_CLOSE_FACTOR,
            liquidation_incentive: DEFAULT_LIQUIDATION_INCENTIVE,
            pause_switches: PauseSwitches::none_paused(),
            last_update: now,
        }
    }
}

/// The operation whose pause switch carries the given name, if any.
pub open spec fn operation_named(name: Seq<char>) -> Option<Operation> {
    if name == "pause_deposit"@ {
        Some(Operation::Deposit)
    } else if name == "pause_withdraw"@ {
        Some(Operation::Withdraw)
    } else if name == "pause_borrow"@ {
        Some(Operation::Borrow)
    } else if name == "pause_repay"@ {
        Some(Operation::Repay)
    } else if name == "pause_liquidate"@ {
        Some(Operation::Liquidate)
    } else {
        None
    }
}

impl Operation {
    /// Finds the operation whose pause switch carries the given name.
    pub fn from_switch_name(name: &str) -> (r: Option<Operation>)
        ensures
            r == operation_named(name@),
    {
        let name = name.to_owned();
        if name == "pause_deposit".to_owned() {
            Some(Operation::Deposit)
        } else if name == "pause_withdraw".to_owned() {
            Some(Operation::Withdraw)
        } else if name == "pause_borrow".to_owned() {
            Some(Operation::Borrow)
        } else if name == "pause_repay".to_owned() {
            Some(Operation::Repay)
        } else if name == "pause_liquidate".to_owned() {
            Some(Operation::Liquidate)
        } else {
            None
        }
    }
}

} // verus!
