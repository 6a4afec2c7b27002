pub mod account;
pub mod errors;
pub mod risk_params;
pub mod risk_management;
pub mod interest_rate;
pub mod treasury;
pub mod contract;
pub mod laws;
