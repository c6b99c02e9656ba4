//! Verified core of the Trust trading command-line tool: text helpers,
//! output formatting, decimal display rules, protected-keyword handling,
//! broker import mapping, command routing and the command-line layout.

pub mod cli;
pub mod cli_clap;
pub mod cli_spec;
pub mod decimal;
pub mod dialogs;
pub mod command_routing;
pub mod commands;
pub mod display_precision;
pub mod exporters;
pub mod output;
pub mod parse;
pub mod protected_keyword;
pub mod text;
pub mod trading_vehicle_import;
