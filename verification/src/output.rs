//! Boxed messages the command-line tool prints for accounts, profit
//! distributions, errors and progress.

use vstd::prelude::*;
use crate::decimal::{
    decimal_product, exact_product, exact_product_fits, normalize_spec, product_in_range,
    to_string_spec, Decimal, DecimalView,
};
use crate::text::{byte_len, is_char_boundary_at, pad_right, pad_to_width, truncate, truncate_cut, truncate_spec};

verus! {

/// Kind of account in the account hierarchy.
#[derive(Clone, Copy, Debug, PartialEq, Eq, Structural)]
pub enum AccountType {
    Primary,
    Earnings,
    TaxReserve,
    Reinvestment,
}

/// Whether an account trades on paper or live.
#[derive(Clone, Copy, Debug, PartialEq, Eq, Structural)]
pub enum Environment {
    Paper,
    Live,
}

/// The account fields the formatters show.
pub struct Account {
    /// The account's UUID as a 128-bit value.
    pub id: u128,
    pub name: String,
    pub account_type: AccountType,
    pub environment: Environment,
    pub parent_account_id: Option<u128>,
}

/// The outcome of a profit distribution, as far as it is shown.
pub struct DistributionResult {
    pub source_account_id: u128,
    pub original_amount: Decimal,
    pub earnings_amount: Option<Decimal>,
    pub tax_amount: Option<Decimal>,
    pub reinvestment_amount: Option<Decimal>,
}

/// The variant name of an account type, as `{:?}` prints it.
pub open spec fn account_type_name(t: AccountType) -> Seq<char> {
    match t {
        AccountType::Primary => "Primary"@,
        AccountType::Earnings => "Earnings"@,
        AccountType::TaxReserve => "TaxReserve"@,
        AccountType::Reinvestment => "Reinvestment"@,
    }
}

/// The variant name of an environment, as `{:?}` prints it.
pub open spec fn environment_name(e: Environment) -> Seq<char> {
    match e {
        Environment::Paper => "Paper"@,
        Environment::Live => "Live"@,
    }
}

/// The name `{:?}` prints for an account type.
pub fn account_type_debug(t: AccountType) -> (r: &'static str)
    ensures
        r@ == account_type_name(t),
{
    match t {
        AccountType::Primary => "Primary",
        AccountType::Earnings => "Earnings",
        AccountType::TaxReserve => "TaxReserve",
        AccountType::Reinvestment => "Reinvestment",
    }
}

/// The name `{:?}` prints for an environment.
pub fn environment_debug(e: Environment) -> (r: &'static str)
    ensures
        r@ == environment_name(e),
{
    match e {
        Environment::Paper => "Paper",
        Environment::Live => "Live",
    }
}

/// Lower-case hexadecimal digit of `n < 16`.
pub open spec fn hex_digit(n: nat) -> char {
    if n < 10 {
        (('0' as u32) + n) as char
    } else {
        (('a' as u32) + n - 10) as char
    }
}

/// `16^n`.
pub open spec fn pow16(n: nat) -> nat
    decreases n,
{
    if n == 0 {
        1
    } else {
        16 * pow16((n - 1) as nat)
    }
}

/// The 32 hexadecimal digits of a 128-bit value, most significant first.
pub open spec fn hex_digits(v: u128) -> Seq<char> {
    Seq::new(32, |i: int| hex_digit(((v as nat) / pow16((31 - i) as nat)) % 16))
}

/// A UUID in hyphenated lower-case form: 8-4-4-4-12 hexadecimal digits.
pub open spec fn uuid_text(v: u128) -> Seq<char> {
    let h = hex_digits(v);
    h.subrange(0, 8) + seq!['-'] + h.subrange(8, 12) + seq!['-'] + h.subrange(12, 16) + seq!['-']
        + h.subrange(16, 20) + seq!['-'] + h.subrange(20, 32)
}

/// The text of the UUID with value `v` (`Uuid::from_u128(v).to_string()`).
#[verifier::external_body]
pub(crate) fn uuid_to_string(v: u128) -> (r: String)
    ensures
        r@ == uuid_text(v),
{
    uuid::Uuid::from_u128(v).to_string()
}

/// One table row for an account: the first eight digits of its id, its
/// name cut or padded to fifteen, its type and environment.
pub open spec fn account_row_text(account_id: u128, name: Seq<char>, t: AccountType, e: Environment) -> Seq<char> {
    "│ "@ + uuid_text(account_id).subrange(0, 8) + " │ "@ + pad_right(truncate_spec(name, 15), 15) + " │ "@
        + pad_right(account_type_name(t), 10) + " │ "@ + pad_right(environment_name(e), 12) + " │"@
}

/// The account-created message.
pub open spec fn creation_success_text(account_id: u128, name: Seq<char>, t: AccountType, e: Environment, parent: Option<u128>) -> Seq<char> {
    "✅ Account Created Successfully\n┌─────────────────────────────────────────────────────────┐\n│ ID:          "@
        + uuid_text(account_id) + " \n│ Name:        "@ + name
        + "                    \n│ Type:        "@ + account_type_name(t)
        + "                      \n│ Environment: "@ + environment_name(e)
        + "                       \n│ Parent:      "@ + (match parent {
        Some(p) => uuid_text(p),
        None => "None (Root Account)"@,
    }) + "                        \n└─────────────────────────────────────────────────────────┘"@
}

/// Formats account information in a structured table.
pub struct AccountFormatter;

impl AccountFormatter {
    /// One table row for `account`.
    pub fn format_account(account: &Account) -> (r: String)
        requires
            byte_len(account.name@) <= usize::MAX,
            byte_len(account.name@) > 15 ==> is_char_boundary_at(account.name@, truncate_cut(15)),
        ensures
            r@ == account_row_text(account.id, account.name@, account.account_type, account.environment),
    {
        let id = uuid_to_string(account.id);
        let id_prefix = id.as_str().substring_char(0, 8);
        let name = truncate(account.name.as_str(), 15);
        let name_col = pad_to_width(name.as_str(), 15);
        let type_col = pad_to_width(account_type_debug(account.account_type), 10);
        let env_col = pad_to_width(environment_debug(account.environment), 12);
        String::from_str("│ ").concat(id_prefix).concat(" │ ").concat(name_col.as_str()).concat(" │ ").concat(
            type_col.as_str(),
        ).concat(" │ ").concat(env_col.as_str()).concat(" │")
    }

    /// The message shown after an account is created.
    pub fn format_creation_success(account: &Account) -> (r: String)
        ensures
            r@ == creation_success_text(account.id, account.name@, account.account_type, account.environment, account.parent_account_id),
    {
        let id = uuid_to_string(account.id);
        let parent = match account.parent_account_id {
            Some(p) => uuid_to_string(p),
            None => String::from_str("None (Root Account)"),
        };
        String::from_str(
            "✅ Account Created Successfully\n┌─────────────────────────────────────────────────────────┐\n│ ID:          ",
        ).concat(id.as_str()).concat(" \n│ Name:        ").concat(account.name.as_str()).concat(
            "                    \n│ Type:        ",
        ).concat(account_type_debug(account.account_type)).concat(
            "                      \n│ Environment: ",
        ).concat(environment_debug(account.environment)).concat(
            "                       \n│ Parent:      ",
        ).concat(parent.as_str()).concat(
            "                        \n└─────────────────────────────────────────────────────────┘",
        )
    }
}

/// The text of an optional amount, zero when absent.
pub open spec fn amount_or_zero_text(a: Option<DecimalView>) -> Seq<char> {
    match a {
        Some(v) => to_string_spec(v),
        None => to_string_spec(DecimalView { negative: false, magnitude: 0, scale: 0 }),
    }
}

/// The view of an optional decimal.
pub open spec fn option_view(a: Option<Decimal>) -> Option<DecimalView> {
    match a {
        Some(d) => Some(d@),
        None => None,
    }
}

/// The profit-distribution breakdown.
pub open spec fn distribution_result_text(source: u128, original: DecimalView, earnings: Option<DecimalView>, tax: Option<DecimalView>, reinvestment: Option<DecimalView>) -> Seq<char> {
    "💰 Profit Distribution Executed\n┌─────────────────────────────────────────────────────────┐\n│ Source Account: "@
        + uuid_text(source) + "          \n│ Total Profit:   $"@ + to_string_spec(original)
        + "                      \n│                                                         \n│ Distribution Breakdown:                                 \n│ ├─ Earnings:     $"@
        + amount_or_zero_text(earnings) + " → Account: N/A   \n│ ├─ Tax Reserve:  $"@
        + amount_or_zero_text(tax) + " → Account: N/A   \n│ └─ Reinvestment: $"@
        + amount_or_zero_text(reinvestment)
        + " → Account: N/A   \n└─────────────────────────────────────────────────────────┘"@
}

/// One hundred, as a decimal.
pub open spec fn hundred() -> DecimalView {
    DecimalView { negative: false, magnitude: 100, scale: 0 }
}

/// A fraction as a percentage: its product with 100, which is exact
/// whenever the exact product is a decimal.
pub open spec fn percent_value(v: DecimalView) -> DecimalView {
    if exact_product_fits(v, hundred()) {
        exact_product(v, hundred())
    } else {
        decimal_product(v, hundred())
    }
}

/// A percentage as printed: without trailing fractional zeros.
pub open spec fn percent_text_spec(v: DecimalView) -> Seq<char> {
    to_string_spec(normalize_spec(percent_value(v)))
}

/// The distribution-rules summary.
pub open spec fn configuration_summary_text(earnings: DecimalView, tax: DecimalView, reinvestment: DecimalView, minimum: DecimalView) -> Seq<char> {
    "⚙️  Distribution Rules Configured\n┌─────────────────────────────────────────────────────────┐\n│ Allocation Rules:                                       \n│ ├─ Earnings:     "@
        + percent_text_spec(earnings) + "% of profit              \n│ ├─ Tax Reserve:  "@
        + percent_text_spec(tax) + "% of profit              \n│ └─ Reinvestment: "@
        + percent_text_spec(reinvestment)
        + "% of profit              \n│                                                         \n│ Minimum Threshold: $"@
        + to_string_spec(minimum)
        + "                     \n│ (Only profits above this amount will be distributed)    \n└─────────────────────────────────────────────────────────┘"@
}

/// Whether a fraction can be turned into a percentage without overflow.
pub open spec fn percent_in_range(v: DecimalView) -> bool {
    product_in_range(v, hundred())
}

/// The text of an optional amount, zero when absent (`unwrap_or_default`).
fn amount_or_zero(a: Option<Decimal>) -> (r: String)
    ensures
        r@ == amount_or_zero_text(option_view(a)),
{
    match a {
        Some(d) => d.to_text(),
        None => Decimal::zero().to_text(),
    }
}

/// A fraction printed as a percentage.
fn percent_text(v: &Decimal) -> (r: String)
    requires
        percent_in_range(v@),
    ensures
        r@ == percent_text_spec(v@),
{
    let hundred = Decimal::from_i128_with_scale(100, 0);
    v.note_valid();
    v.mul(&hundred).normalize().to_text()
}

/// Formats distribution-related output.
pub struct DistributionFormatter;

impl DistributionFormatter {
    /// The breakdown of an executed distribution.
    pub fn format_distribution_result(result: &DistributionResult) -> (r: String)
        ensures
            r@ == distribution_result_text(
                result.source_account_id,
                result.original_amount@,
                option_view(result.earnings_amount),
                option_view(result.tax_amount),
                option_view(result.reinvestment_amount),
            ),
    {
        String::from_str(
            "💰 Profit Distribution Executed\n┌─────────────────────────────────────────────────────────┐\n│ Source Account: ",
        ).concat(uuid_to_string(result.source_account_id).as_str()).concat(
            "          \n│ Total Profit:   $",
        ).concat(result.original_amount.to_text().as_str()).concat(
            "                      \n│                                                         \n│ Distribution Breakdown:                                 \n│ ├─ Earnings:     $",
        ).concat(amount_or_zero(result.earnings_amount).as_str()).concat(
            " → Account: N/A   \n│ ├─ Tax Reserve:  $",
        ).concat(amount_or_zero(result.tax_amount).as_str()).concat(
            " → Account: N/A   \n│ └─ Reinvestment: $",
        ).concat(amount_or_zero(result.reinvestment_amount).as_str()).concat(
            " → Account: N/A   \n└─────────────────────────────────────────────────────────┘",
        )
    }

    /// The summary of configured distribution rules; the fractions are
    /// shown as percentages without trailing zeros.
    pub fn format_configuration_summary(earnings_pct: Decimal, tax_pct: Decimal, reinvestment_pct: Decimal, minimum: Decimal) -> (r: String)
        requires
            percent_in_range(earnings_pct@),
            percent_in_range(tax_pct@),
            percent_in_range(reinvestment_pct@),
        ensures
            r@ == configuration_summary_text(earnings_pct@, tax_pct@, reinvestment_pct@, minimum@),
    {
        String::from_str(
            "⚙️  Distribution Rules Configured\n┌─────────────────────────────────────────────────────────┐\n│ Allocation Rules:                                       \n│ ├─ Earnings:     ",
        ).concat(percent_text(&earnings_pct).as_str()).concat(
            "% of profit              \n│ ├─ Tax Reserve:  ",
        ).concat(percent_text(&tax_pct).as_str()).concat(
            "% of profit              \n│ └─ Reinvestment: ",
        ).concat(percent_text(&reinvestment_pct).as_str()).concat(
            "% of profit              \n│                                                         \n│ Minimum Threshold: $",
        ).concat(minimum.to_text().as_str()).concat(
            "                     \n│ (Only profits above this amount will be distributed)    \n└─────────────────────────────────────────────────────────┘",
        )
    }
}

/// The validation-error message.
pub open spec fn validation_error_text(field: Seq<char>, issue: Seq<char>, suggestion: Seq<char>) -> Seq<char> {
    "❌ Validation Error\n┌─────────────────────────────────────────────────────────┐\n│ Field:      "@ + field
        + "                            \n│ Issue:      "@ + issue
        + "                            \n│ Suggestion: "@ + suggestion
        + "                            \n└─────────────────────────────────────────────────────────┘"@
}

/// The system-error message.
pub open spec fn system_error_text(error: Seq<char>, recovery: Seq<char>) -> Seq<char> {
    "🚨 System Error\n┌─────────────────────────────────────────────────────────┐\n│ Error:    "@ + error
        + "                              \n│ Recovery: "@ + recovery
        + "                              \n└─────────────────────────────────────────────────────────┘"@
}

/// Formats error messages with helpful context.
pub struct ErrorFormatter;

impl ErrorFormatter {
    /// A validation error naming the field, the issue and a suggestion.
    pub fn format_validation_error(field: &str, issue: &str, suggestion: &str) -> (r: String)
        ensures
            r@ == validation_error_text(field@, issue@, suggestion@),
    {
        String::from_str(
            "❌ Validation Error\n┌─────────────────────────────────────────────────────────┐\n│ Field:      ",
        ).concat(field).concat("                            \n│ Issue:      ").concat(issue).concat(
            "                            \n│ Suggestion: ",
        ).concat(suggestion).concat(
            "                            \n└─────────────────────────────────────────────────────────┘",
        )
    }

    /// A system error with recovery guidance.
    pub fn format_system_error(error: &str, recovery: &str) -> (r: String)
        ensures
            r@ == system_error_text(error@, recovery@),
    {
        String::from_str(
            "🚨 System Error\n┌─────────────────────────────────────────────────────────┐\n│ Error:    ",
        ).concat(error).concat("                              \n│ Recovery: ").concat(recovery).concat(
            "                              \n└─────────────────────────────────────────────────────────┘",
        )
    }
}

/// Progress of a long-running operation: a message, the number of steps and
/// how many of them are done.
pub struct ProgressIndicator {
    message: String,
    steps: usize,
    current: usize,
}

impl ProgressIndicator {
    /// A progress indicator with no step done.
    pub fn new(message: String, total_steps: usize) -> (r: Self)
        ensures
            r.message()@ == message@,
            r.steps() == total_steps,
            r.current() == 0,
    {
        Self { message, steps: total_steps, current: 0 }
    }

    pub closed spec fn message(&self) -> String {
        self.message
    }

    pub closed spec fn steps(&self) -> usize {
        self.steps
    }

    pub closed spec fn current(&self) -> usize {
        self.current
    }

    /// The message.
    pub fn get_message(&self) -> (r: &str)
        ensures
            r@ == self.message()@,
    {
        self.message.as_str()
    }

    /// The total number of steps.
    pub fn get_steps(&self) -> (r: usize)
        ensures
            r == self.steps(),
    {
        self.steps
    }

    /// How many steps are done.
    pub fn get_current(&self) -> (r: usize)
        ensures
            r == self.current(),
    {
        self.current
    }

    /// Marks one more step as done.
    pub fn advance(&mut self)
        requires
            old(self).current() < usize::MAX,
        ensures
            final(self).current() == old(self).current() + 1,
            final(self).steps() == old(self).steps(),
            final(self).message() == old(self).message(),
    {
        self.current = self.current + 1;
    }
}

} // verus!
