//! Builders of the command line of each command.

pub mod account_command;
pub mod advisor_command;
pub mod daemon_command;
pub mod db_command;
pub mod distribution_command;
pub mod grade_command;
pub mod key_command;
pub mod level_command;
pub mod market_data_command;
pub mod metrics_command;
pub mod onboarding_command;
pub mod policy_command;
pub mod report_command;
pub mod rule_command;
pub mod session_command;
pub mod trade_command;
pub mod trading_vehicle_command;
pub mod transaction_command;
