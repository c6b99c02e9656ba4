use trust_cli::decimal::Decimal;
use trust_cli::output::{
    Account, AccountFormatter, AccountType, DistributionFormatter, DistributionResult,
    Environment, ErrorFormatter, ProgressIndicator,
};
use trust_cli::text::truncate;

const TEST_ID: u128 = 0x550e8400_e29b_41d4_a716_446655440000;

fn create_test_account() -> Account {
    Account {
        id: TEST_ID,
        name: "Test Account".to_string(),
        account_type: AccountType::Primary,
        environment: Environment::Paper,
        parent_account_id: None,
    }
}

#[test]
fn test_account_formatter_format_account() {
    let account = create_test_account();
    let result = AccountFormatter::format_account(&account);

    assert!(result.contains("550e8400"));
    assert!(result.contains("Test Account"));
    assert!(result.contains("Primary"));
    assert!(result.contains("Paper"));
}

#[test]
fn test_account_formatter_creation_success() {
    let account = create_test_account();
    let result = AccountFormatter::format_creation_success(&account);

    assert!(result.contains("✅ Account Created Successfully"));
    assert!(result.contains("550e8400-e29b-41d4-a716-446655440000"));
    assert!(result.contains("Test Account"));
    assert!(result.contains("Primary"));
    assert!(result.contains("None (Root Account)"));
}

#[test]
fn test_distribution_formatter_configuration_summary() {
    let result = DistributionFormatter::format_configuration_summary(
        Decimal::from_i128_with_scale(40, 2),
        Decimal::from_i128_with_scale(30, 2),
        Decimal::from_i128_with_scale(30, 2),
        Decimal::from_i128_with_scale(1000, 1),
    );

    assert!(result.contains("⚙️  Distribution Rules Configured"));
    assert!(result.contains("40% of profit"));
    assert!(result.contains("30% of profit"));
    assert!(result.contains("$100"));
}

#[test]
fn configuration_summary_shows_fractions_as_percentages() {
    let result = DistributionFormatter::format_configuration_summary(
        Decimal::from_i128_with_scale(4, 1),
        Decimal::from_i128_with_scale(3333, 4),
        Decimal::from_i128_with_scale(0, 0),
        Decimal::from_i128_with_scale(100, 0),
    );

    assert!(result.starts_with("⚙️  Distribution Rules Configured"));
    assert!(result.contains("│ ├─ Earnings:     40% of profit"));
    assert!(result.contains("│ ├─ Tax Reserve:  33.33% of profit"));
    assert!(result.contains("│ └─ Reinvestment: 0% of profit"));
    assert!(result.contains("│ Minimum Threshold: $100 "));
}

#[test]
fn configuration_summary_takes_fractions_with_all_places() {
    let fraction = Decimal::from_i128_with_scale(4_000_000_000_000_000_000_000_000_000, 28);
    let result = DistributionFormatter::format_configuration_summary(
        fraction,
        fraction,
        fraction,
        Decimal::from_i128_with_scale(1, 0),
    );
    assert!(result.contains("│ ├─ Earnings:     40% of profit"));
}

#[test]
fn test_error_formatter_validation_error() {
    let result = ErrorFormatter::format_validation_error(
        "Amount",
        "Must be positive",
        "Please enter a value greater than 0",
    );

    assert!(result.contains("❌ Validation Error"));
    assert!(result.contains("Amount"));
    assert!(result.contains("Must be positive"));
    assert!(result.contains("Please enter a value greater than 0"));
}

#[test]
fn test_progress_indicator_creation() {
    let progress = ProgressIndicator::new("Testing".to_string(), 3);
    assert_eq!(progress.get_current(), 0);
    assert_eq!(progress.get_steps(), 3);
    assert_eq!(progress.get_message(), "Testing");
}

#[test]
fn test_truncate_function() {
    assert_eq!(truncate("short", 10), "short     ");
    assert_eq!(truncate("this is a very long string", 10), "this is...");
    assert_eq!(truncate("exactly10c", 10), "exactly10c");
}

#[test]
fn account_row_pads_every_column() {
    let account = create_test_account();
    assert_eq!(
        AccountFormatter::format_account(&account),
        "│ 550e8400 │ Test Account    │ Primary    │ Paper        │"
    );
}

#[test]
fn account_row_cuts_long_names() {
    let account = Account {
        id: 0,
        name: "A very long account name".to_string(),
        account_type: AccountType::TaxReserve,
        environment: Environment::Live,
        parent_account_id: Some(1),
    };
    assert_eq!(
        AccountFormatter::format_account(&account),
        "│ 00000000 │ A very long ... │ TaxReserve │ Live         │"
    );
    let created = AccountFormatter::format_creation_success(&account);
    assert!(created.contains("00000000-0000-0000-0000-000000000001"));
    assert!(created.contains("TaxReserve"));
}

#[test]
fn system_error_lists_error_and_recovery() {
    let result = ErrorFormatter::format_system_error("disk full", "free some space");
    assert_eq!(
        result,
        "🚨 System Error\n┌─────────────────────────────────────────────────────────┐\n│ Error:    disk full                              \n│ Recovery: free some space                              \n└─────────────────────────────────────────────────────────┘"
    );
}

#[test]
fn validation_error_exact_text() {
    let result = ErrorFormatter::format_validation_error("f", "i", "s");
    assert_eq!(
        result,
        "❌ Validation Error\n┌─────────────────────────────────────────────────────────┐\n│ Field:      f                            \n│ Issue:      i                            \n│ Suggestion: s                            \n└─────────────────────────────────────────────────────────┘"
    );
}

#[test]
fn progress_indicator_advances_one_step_at_a_time() {
    let mut progress = ProgressIndicator::new("Sync".to_string(), 2);
    progress.advance();
    progress.advance();
    assert_eq!(progress.get_current(), 2);
    assert_eq!(progress.get_steps(), 2);
}

#[test]
fn distribution_result_shows_amounts_and_zero_for_missing_ones() {
    let result = DistributionFormatter::format_distribution_result(&DistributionResult {
        source_account_id: TEST_ID,
        original_amount: Decimal::from_i128_with_scale(1050, 2),
        earnings_amount: Some(Decimal::from_i128_with_scale(3, 0)),
        tax_amount: None,
        reinvestment_amount: Some(Decimal::from_i128_with_scale(-5, 1)),
    });
    assert!(result.contains("│ Source Account: 550e8400-e29b-41d4-a716-446655440000"));
    assert!(result.contains("│ Total Profit:   $10.50"));
    assert!(result.contains("│ ├─ Earnings:     $3 → Account: N/A"));
    assert!(result.contains("│ ├─ Tax Reserve:  $0 → Account: N/A"));
    assert!(result.contains("│ └─ Reinvestment: $-0.5 → Account: N/A"));
}

#[test]
fn truncate_keeps_multibyte_names_on_character_boundaries() {
    assert_eq!(truncate("héllo wörld!!", 10), "héllo ...");
    assert_eq!(truncate("", 3), "   ");
    assert_eq!(truncate("abcd", 2), "...");
}
