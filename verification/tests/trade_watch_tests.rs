use trust_cli::dialogs::funding::{advisory_gate, confirm_funding, AdvisoryAlertLevel};
use trust_cli::dialogs::io::{DialogError, RecordingDialog, ScriptedDialog};
use trust_cli::dialogs::trade_watch::{
    latest_trade_index, open_trade_statuses, terminal_status, trade_position, WatchState,
};
use trust_cli::exporters::TradeStatus;

fn ids(values: &[&str]) -> Vec<String> {
    values.iter().map(|v| v.to_string()).collect()
}

#[test]
fn terminal_status_identifies_all_terminal_variants() {
    assert!(terminal_status(TradeStatus::ClosedTarget));
    assert!(terminal_status(TradeStatus::ClosedStopLoss));
    assert!(terminal_status(TradeStatus::Canceled));
    assert!(terminal_status(TradeStatus::Expired));
    assert!(terminal_status(TradeStatus::Rejected));
    assert!(!terminal_status(TradeStatus::Submitted));
    assert!(!terminal_status(TradeStatus::Filled));
}

#[test]
fn open_trades_are_looked_up_by_these_statuses() {
    assert_eq!(
        open_trade_statuses(),
        vec![
            TradeStatus::Submitted,
            TradeStatus::Filled,
            TradeStatus::PartiallyFilled
        ]
    );
}

#[test]
fn latest_trade_is_the_last_of_the_most_recent() {
    assert_eq!(latest_trade_index(&[]), None);
    assert_eq!(latest_trade_index(&[5]), Some(0));
    assert_eq!(latest_trade_index(&[1, 9, 3]), Some(1));
    assert_eq!(latest_trade_index(&[9, 2, 9, 4]), Some(2));
    assert_eq!(latest_trade_index(&[-3, -7]), Some(0));
}

#[test]
fn trades_are_found_by_id() {
    assert_eq!(trade_position(&[4, 7, 7], 7), Some(1));
    assert_eq!(trade_position(&[4, 7], 9), None);
    assert_eq!(trade_position(&[], 1), None);
}

#[test]
fn each_poll_reports_status_changes_and_new_executions_once() {
    let mut watch = WatchState::new();
    let first = watch.observe(TradeStatus::Submitted, &ids(&[]));
    assert!(first.status_changed);
    assert!(first.new_executions.is_empty());
    assert!(!first.finished);

    let second = watch.observe(TradeStatus::Submitted, &ids(&["e1", "e2", "e1"]));
    assert!(!second.status_changed);
    assert_eq!(second.new_executions, vec![0, 1]);

    let third = watch.observe(TradeStatus::Filled, &ids(&["e2", "e3", "e1", "e3"]));
    assert!(third.status_changed);
    assert_eq!(third.new_executions, vec![1]);
    assert!(!third.finished);

    let last = watch.observe(TradeStatus::ClosedTarget, &ids(&["e1", "e2", "e3", "e4"]));
    assert!(last.status_changed);
    assert_eq!(last.new_executions, vec![3]);
    assert!(last.finished);
}

#[test]
fn advisory_blocks_and_confirmations_decide_funding() {
    let no = Ok(false);
    assert!(advisory_gate(AdvisoryAlertLevel::NoConcern, no.clone()).is_ok());
    assert_eq!(
        advisory_gate(AdvisoryAlertLevel::Block, Ok(true)),
        Err("Trade blocked by advisory limits")
    );
    assert!(advisory_gate(AdvisoryAlertLevel::Warning, Ok(true)).is_ok());
    assert_eq!(
        advisory_gate(AdvisoryAlertLevel::Caution, no),
        Err("Funding canceled by user after advisory")
    );
    assert_eq!(
        advisory_gate(AdvisoryAlertLevel::Warning, Err(DialogError::other("x"))),
        Err("Funding canceled by user after advisory")
    );
}

#[test]
fn funding_asks_only_when_the_advisory_warns() {
    let mut io = RecordingDialog::new(ScriptedDialog::new());
    io.inner.push_confirm(Ok(true));
    assert!(confirm_funding(&mut io, AdvisoryAlertLevel::NoConcern).is_ok());
    assert!(confirm_funding(&mut io, AdvisoryAlertLevel::Block).is_err());
    assert!(confirm_funding(&mut io, AdvisoryAlertLevel::Caution).is_ok());
    assert_eq!(
        confirm_funding(&mut io, AdvisoryAlertLevel::Warning),
        Err("Funding canceled by user after advisory")
    );
}
