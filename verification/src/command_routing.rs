//! Which command a parsed command line asks for: the subcommand names of
//! the tool mapped to the commands they select.

use vstd::prelude::*;
use crate::text::str_eq;
use vstd::pervasive::unreached;

verus! {

/// The parsed arguments of a command line (`clap::ArgMatches`).
#[verifier::external_type_specification]
#[verifier::external_body]
pub struct ExArgMatches(clap::ArgMatches);

/// The names of the subcommands a parsed command line holds, outermost
/// first: the name `ArgMatches::subcommand` gives, then the one its
/// arguments give, and so on.
pub uninterp spec fn subcommand_path_of(m: clap::ArgMatches) -> Seq<Seq<char>>;

/// The subcommand that was given and its arguments
/// (`ArgMatches::subcommand`): the first name of the matches' subcommand
/// path, with the matches that hold the rest of the path; nothing when the
/// path is empty.
#[verifier::external_body]
pub(crate) fn subcommand_of(matches: &clap::ArgMatches) -> (r: Option<(&str, &clap::ArgMatches)>)
    ensures
        match r {
            Some((name, args)) => subcommand_path_of(*matches) == seq![name@] + subcommand_path_of(*args),
            None => subcommand_path_of(*matches) == Seq::<Seq<char>>::empty(),
        },
{
    matches.subcommand()
}

/// A subcommand selected by name, with its arguments where it takes any.
pub enum DbSubcommand<'a> {
    Export(&'a clap::ArgMatches),
    Import(&'a clap::ArgMatches),
}

/// A subcommand selected by name, with its arguments where it takes any.
pub enum KeysSubcommand<'a> {
    Create(&'a clap::ArgMatches),
    Show,
    Delete(&'a clap::ArgMatches),
    ProtectedSet(&'a clap::ArgMatches),
    ProtectedShow,
    ProtectedDelete(&'a clap::ArgMatches),
}

/// A subcommand selected by name, with its arguments where it takes any.
pub enum AccountsSubcommand<'a> {
    Create(&'a clap::ArgMatches),
    Search,
    List(&'a clap::ArgMatches),
    Balance(&'a clap::ArgMatches),
    Transfer(&'a clap::ArgMatches),
}

/// A subcommand selected by name, with its arguments where it takes any.
pub enum TransactionsSubcommand<'a> {
    Deposit(&'a clap::ArgMatches),
    Withdraw(&'a clap::ArgMatches),
}

/// A subcommand selected by name, with its arguments where it takes any.
pub enum RulesSubcommand<'a> {
    Create(&'a clap::ArgMatches),
    Remove(&'a clap::ArgMatches),
}

/// A subcommand selected by name, with its arguments where it takes any.
pub enum TradingVehicleSubcommand<'a> {
    Create(&'a clap::ArgMatches),
    Search,
}

/// A subcommand selected by name, with its arguments where it takes any.
pub enum TradeSubcommand<'a> {
    Create(&'a clap::ArgMatches),
    Fund(&'a clap::ArgMatches),
    Cancel(&'a clap::ArgMatches),
    Submit(&'a clap::ArgMatches),
    ManuallyFill,
    ManuallyStop,
    ManuallyTarget,
    ManuallyClose(&'a clap::ArgMatches),
    Sync(&'a clap::ArgMatches),
    Watch(&'a clap::ArgMatches),
    Search(&'a clap::ArgMatches),
    ListOpen(&'a clap::ArgMatches),
    Reconcile(&'a clap::ArgMatches),
    ModifyStop,
    ModifyTarget,
    SizePreview(&'a clap::ArgMatches),
}

/// A subcommand selected by name, with its arguments where it takes any.
pub enum DistributionSubcommand<'a> {
    Configure(&'a clap::ArgMatches),
    Execute(&'a clap::ArgMatches),
    History(&'a clap::ArgMatches),
    Rules(&'a clap::ArgMatches),
}

/// A subcommand selected by name, with its arguments where it takes any.
pub enum ReportSubcommand<'a> {
    Drawdown(&'a clap::ArgMatches),
    Performance(&'a clap::ArgMatches),
    Risk(&'a clap::ArgMatches),
    Concentration(&'a clap::ArgMatches),
    Summary(&'a clap::ArgMatches),
    Metrics(&'a clap::ArgMatches),
    Attribution(&'a clap::ArgMatches),
    Benchmark(&'a clap::ArgMatches),
    Timeline(&'a clap::ArgMatches),
}

/// A subcommand selected by name, with its arguments where it takes any.
pub enum MarketDataSubcommand<'a> {
    Snapshot(&'a clap::ArgMatches),
    Bars(&'a clap::ArgMatches),
    Stream(&'a clap::ArgMatches),
    Quote(&'a clap::ArgMatches),
    Trade(&'a clap::ArgMatches),
    Session(&'a clap::ArgMatches),
}

/// A subcommand selected by name, with its arguments where it takes any.
pub enum GradeSubcommand<'a> {
    Show(&'a clap::ArgMatches),
    Summary(&'a clap::ArgMatches),
}


/// A subcommand selected by name, with its arguments where it takes any.
pub enum OnboardingSubcommand<'a> {
    Init(&'a clap::ArgMatches),
    Status,
}

/// A subcommand selected by name, with its arguments where it takes any.
pub enum MetricsSubcommand<'a> {
    Advanced(&'a clap::ArgMatches),
    Compare(&'a clap::ArgMatches),
}

/// A subcommand selected by name, with its arguments where it takes any.
pub enum AdvisorSubcommand<'a> {
    Configure(&'a clap::ArgMatches),
    Check(&'a clap::ArgMatches),
    Status(&'a clap::ArgMatches),
    History(&'a clap::ArgMatches),
}

/// The DbSubcommand a subcommand name selects; `None` for an unknown or missing one.
pub open spec fn db_subcommand_route<'a>(sub: Option<(&'a str, &'a clap::ArgMatches)>) -> Option<DbSubcommand<'a>> {
    match sub {
        Some((name, args)) => {
            if name@ == "export"@ {
                Some(DbSubcommand::Export(args))
            } else if name@ == "import"@ {
                Some(DbSubcommand::Import(args))
            } else {
                None
            }
        },
        None => None,
    }
}

/// Maps a subcommand name to the DbSubcommand it selects.
pub fn route_db_subcommand<'a>(sub: Option<(&'a str, &'a clap::ArgMatches)>) -> (r: Option<DbSubcommand<'a>>)
    ensures
        r == db_subcommand_route(sub),
{
    match sub {
        Some((name, args)) => {
            if str_eq(name, "export") {
                Some(DbSubcommand::Export(args))
            } else if str_eq(name, "import") {
                Some(DbSubcommand::Import(args))
            } else {
                None
            }
        },
        None => None,
    }
}

/// Whether `name` is a subcommand of `db` that the dispatcher knows.
pub open spec fn is_db_name(name: Seq<char>) -> bool {
    name == "export"@ || name == "import"@
}

/// The DbSubcommand that the subcommand of the given arguments selects, with the
/// subcommand's own arguments; `None` when it is missing or unknown.
pub fn try_parse_db_subcommand(sub_matches: &clap::ArgMatches) -> (r: Option<DbSubcommand<'_>>)
    ensures
        r is Some <==> (subcommand_path_of(*sub_matches).len() > 0 && is_db_name(subcommand_path_of(*sub_matches)[0])),
        subcommand_path_of(*sub_matches).len() > 0 ==> exists|name: &str, args: &clap::ArgMatches|
            name@ == subcommand_path_of(*sub_matches)[0] && subcommand_path_of(*args) == subcommand_path_of(*sub_matches).drop_first()
                && r == #[trigger] db_subcommand_route(Some((name, args))),
{
    let sub = subcommand_of(sub_matches);
    let r = route_db_subcommand(sub);
    assert(r == db_subcommand_route(sub));
    r
}

/// The DbSubcommand that the subcommand of the given arguments selects, with the
/// subcommand's own arguments; the subcommand must be one of `db`.
pub fn parse_db_subcommand(sub_matches: &clap::ArgMatches) -> (r: DbSubcommand<'_>)
    requires
        subcommand_path_of(*sub_matches).len() > 0,
        is_db_name(subcommand_path_of(*sub_matches)[0]),
    ensures
        exists|name: &str, args: &clap::ArgMatches|
            name@ == subcommand_path_of(*sub_matches)[0] && subcommand_path_of(*args) == subcommand_path_of(*sub_matches).drop_first()
                && Some(r) == #[trigger] db_subcommand_route(Some((name, args))),
{
    match try_parse_db_subcommand(sub_matches) {
        Some(r) => r,
        None => unreached(),
    }
}

/// The KeysSubcommand a subcommand name selects; `None` for an unknown or missing one.
pub open spec fn keys_subcommand_route<'a>(sub: Option<(&'a str, &'a clap::ArgMatches)>) -> Option<KeysSubcommand<'a>> {
    match sub {
        Some((name, args)) => {
            if name@ == "create"@ {
                Some(KeysSubcommand::Create(args))
            } else if name@ == "show"@ {
                Some(KeysSubcommand::Show)
            } else if name@ == "delete"@ {
                Some(KeysSubcommand::Delete(args))
            } else if name@ == "protected-set"@ {
                Some(KeysSubcommand::ProtectedSet(args))
            } else if name@ == "protected-show"@ {
                Some(KeysSubcommand::ProtectedShow)
            } else if name@ == "protected-delete"@ {
                Some(KeysSubcommand::ProtectedDelete(args))
            } else {
                None
            }
        },
        None => None,
    }
}

/// Maps a subcommand name to the KeysSubcommand it selects.
pub fn route_keys_subcommand<'a>(sub: Option<(&'a str, &'a clap::ArgMatches)>) -> (r: Option<KeysSubcommand<'a>>)
    ensures
        r == keys_subcommand_route(sub),
{
    match sub {
        Some((name, args)) => {
            if str_eq(name, "create") {
                Some(KeysSubcommand::Create(args))
            } else if str_eq(name, "show") {
                Some(KeysSubcommand::Show)
            } else if str_eq(name, "delete") {
                Some(KeysSubcommand::Delete(args))
            } else if str_eq(name, "protected-set") {
                Some(KeysSubcommand::ProtectedSet(args))
            } else if str_eq(name, "protected-show") {
                Some(KeysSubcommand::ProtectedShow)
            } else if str_eq(name, "protected-delete") {
                Some(KeysSubcommand::ProtectedDelete(args))
            } else {
                None
            }
        },
        None => None,
    }
}

/// Whether `name` is a subcommand of `keys` that the dispatcher knows.
pub open spec fn is_keys_name(name: Seq<char>) -> bool {
    name == "create"@ || name == "show"@ || name == "delete"@ || name == "protected-set"@ || name == "protected-show"@ || name == "protected-delete"@
}

/// The KeysSubcommand that the subcommand of the given arguments selects, with the
/// subcommand's own arguments; `None` when it is missing or unknown.
pub fn try_parse_keys_subcommand(sub_matches: &clap::ArgMatches) -> (r: Option<KeysSubcommand<'_>>)
    ensures
        r is Some <==> (subcommand_path_of(*sub_matches).len() > 0 && is_keys_name(subcommand_path_of(*sub_matches)[0])),
        subcommand_path_of(*sub_matches).len() > 0 ==> exists|name: &str, args: &clap::ArgMatches|
            name@ == subcommand_path_of(*sub_matches)[0] && subcommand_path_of(*args) == subcommand_path_of(*sub_matches).drop_first()
                && r == #[trigger] keys_subcommand_route(Some((name, args))),
{
    let sub = subcommand_of(sub_matches);
    let r = route_keys_subcommand(sub);
    assert(r == keys_subcommand_route(sub));
    r
}

/// The KeysSubcommand that the subcommand of the given arguments selects, with the
/// subcommand's own arguments; the subcommand must be one of `keys`.
pub fn parse_keys_subcommand(sub_matches: &clap::ArgMatches) -> (r: KeysSubcommand<'_>)
    requires
        subcommand_path_of(*sub_matches).len() > 0,
        is_keys_name(subcommand_path_of(*sub_matches)[0]),
    ensures
        exists|name: &str, args: &clap::ArgMatches|
            name@ == subcommand_path_of(*sub_matches)[0] && subcommand_path_of(*args) == subcommand_path_of(*sub_matches).drop_first()
                && Some(r) == #[trigger] keys_subcommand_route(Some((name, args))),
{
    match try_parse_keys_subcommand(sub_matches) {
        Some(r) => r,
        None => unreached(),
    }
}

/// The AccountsSubcommand a subcommand name selects; `None` for an unknown or missing one.
pub open spec fn accounts_subcommand_route<'a>(sub: Option<(&'a str, &'a clap::ArgMatches)>) -> Option<AccountsSubcommand<'a>> {
    match sub {
        Some((name, args)) => {
            if name@ == "create"@ {
                Some(AccountsSubcommand::Create(args))
            } else if name@ == "search"@ {
                Some(AccountsSubcommand::Search)
            } else if name@ == "list"@ {
                Some(AccountsSubcommand::List(args))
            } else if name@ == "balance"@ {
                Some(AccountsSubcommand::Balance(args))
            } else if name@ == "transfer"@ {
                Some(AccountsSubcommand::Transfer(args))
            } else {
                None
            }
        },
        None => None,
    }
}

/// Maps a subcommand name to the AccountsSubcommand it selects.
pub fn route_accounts_subcommand<'a>(sub: Option<(&'a str, &'a clap::ArgMatches)>) -> (r: Option<AccountsSubcommand<'a>>)
    ensures
        r == accounts_subcommand_route(sub),
{
    match sub {
        Some((name, args)) => {
            if str_eq(name, "create") {
                Some(AccountsSubcommand::Create(args))
            } else if str_eq(name, "search") {
                Some(AccountsSubcommand::Search)
            } else if str_eq(name, "list") {
                Some(AccountsSubcommand::List(args))
            } else if str_eq(name, "balance") {
                Some(AccountsSubcommand::Balance(args))
            } else if str_eq(name, "transfer") {
                Some(AccountsSubcommand::Transfer(args))
            } else {
                None
            }
        },
        None => None,
    }
}

/// Whether `name` is a subcommand of `accounts` that the dispatcher knows.
pub open spec fn is_accounts_name(name: Seq<char>) -> bool {
    name == "create"@ || name == "search"@ || name == "list"@ || name == "balance"@ || name == "transfer"@
}

/// The AccountsSubcommand that the subcommand of the given arguments selects, with the
/// subcommand's own arguments; `None` when it is missing or unknown.
pub fn try_parse_accounts_subcommand(sub_matches: &clap::ArgMatches) -> (r: Option<AccountsSubcommand<'_>>)
    ensures
        r is Some <==> (subcommand_path_of(*sub_matches).len() > 0 && is_accounts_name(subcommand_path_of(*sub_matches)[0])),
        subcommand_path_of(*sub_matches).len() > 0 ==> exists|name: &str, args: &clap::ArgMatches|
            name@ == subcommand_path_of(*sub_matches)[0] && subcommand_path_of(*args) == subcommand_path_of(*sub_matches).drop_first()
                && r == #[trigger] accounts_subcommand_route(Some((name, args))),
{
    let sub = subcommand_of(sub_matches);
    let r = route_accounts_subcommand(sub);
    assert(r == accounts_subcommand_route(sub));
    r
}

/// The AccountsSubcommand that the subcommand of the given arguments selects, with the
/// subcommand's own arguments; the subcommand must be one of `accounts`.
pub fn parse_accounts_subcommand(sub_matches: &clap::ArgMatches) -> (r: AccountsSubcommand<'_>)
    requires
        subcommand_path_of(*sub_matches).len() > 0,
        is_accounts_name(subcommand_path_of(*sub_matches)[0]),
    ensures
        exists|name: &str, args: &clap::ArgMatches|
            name@ == subcommand_path_of(*sub_matches)[0] && subcommand_path_of(*args) == subcommand_path_of(*sub_matches).drop_first()
                && Some(r) == #[trigger] accounts_subcommand_route(Some((name, args))),
{
    match try_parse_accounts_subcommand(sub_matches) {
        Some(r) => r,
        None => unreached(),
    }
}

/// The TransactionsSubcommand a subcommand name selects; `None` for an unknown or missing one.
pub open spec fn transactions_subcommand_route<'a>(sub: Option<(&'a str, &'a clap::ArgMatches)>) -> Option<TransactionsSubcommand<'a>> {
    match sub {
        Some((name, args)) => {
            if name@ == "deposit"@ {
                Some(TransactionsSubcommand::Deposit(args))
            } else if name@ == "withdraw"@ {
                Some(TransactionsSubcommand::Withdraw(args))
            } else {
                None
            }
        },
        None => None,
    }
}

/// Maps a subcommand name to the TransactionsSubcommand it selects.
pub fn route_transactions_subcommand<'a>(sub: Option<(&'a str, &'a clap::ArgMatches)>) -> (r: Option<TransactionsSubcommand<'a>>)
    ensures
        r == transactions_subcommand_route(sub),
{
    match sub {
        Some((name, args)) => {
            if str_eq(name, "deposit") {
                Some(TransactionsSubcommand::Deposit(args))
            } else if str_eq(name, "withdraw") {
                Some(TransactionsSubcommand::Withdraw(args))
            } else {
                None
            }
        },
        None => None,
    }
}

/// Whether `name` is a subcommand of `transaction` that the dispatcher knows.
pub open spec fn is_transactions_name(name: Seq<char>) -> bool {
    name == "deposit"@ || name == "withdraw"@
}

/// The TransactionsSubcommand that the subcommand of the given arguments selects, with the
/// subcommand's own arguments; `None` when it is missing or unknown.
pub fn try_parse_transactions_subcommand(sub_matches: &clap::ArgMatches) -> (r: Option<TransactionsSubcommand<'_>>)
    ensures
        r is Some <==> (subcommand_path_of(*sub_matches).len() > 0 && is_transactions_name(subcommand_path_of(*sub_matches)[0])),
        subcommand_path_of(*sub_matches).len() > 0 ==> exists|name: &str, args: &clap::ArgMatches|
            name@ == subcommand_path_of(*sub_matches)[0] && subcommand_path_of(*args) == subcommand_path_of(*sub_matches).drop_first()
                && r == #[trigger] transactions_subcommand_route(Some((name, args))),
{
    let sub = subcommand_of(sub_matches);
    let r = route_transactions_subcommand(sub);
    assert(r == transactions_subcommand_route(sub));
    r
}

/// The TransactionsSubcommand that the subcommand of the given arguments selects, with the
/// subcommand's own arguments; the subcommand must be one of `transaction`.
pub fn parse_transactions_subcommand(sub_matches: &clap::ArgMatches) -> (r: TransactionsSubcommand<'_>)
    requires
        subcommand_path_of(*sub_matches).len() > 0,
        is_transactions_name(subcommand_path_of(*sub_matches)[0]),
    ensures
        exists|name: &str, args: &clap::ArgMatches|
            name@ == subcommand_path_of(*sub_matches)[0] && subcommand_path_of(*args) == subcommand_path_of(*sub_matches).drop_first()
                && Some(r) == #[trigger] transactions_subcommand_route(Some((name, args))),
{
    match try_parse_transactions_subcommand(sub_matches) {
        Some(r) => r,
        None => unreached(),
    }
}

/// The RulesSubcommand a subcommand name selects; `None` for an unknown or missing one.
pub open spec fn rules_subcommand_route<'a>(sub: Option<(&'a str, &'a clap::ArgMatches)>) -> Option<RulesSubcommand<'a>> {
    match sub {
        Some((name, args)) => {
            if name@ == "create"@ {
                Some(RulesSubcommand::Create(args))
            } else if name@ == "remove"@ {
                Some(RulesSubcommand::Remove(args))
            } else {
                None
            }
        },
        None => None,
    }
}

/// Maps a subcommand name to the RulesSubcommand it selects.
pub fn route_rules_subcommand<'a>(sub: Option<(&'a str, &'a clap::ArgMatches)>) -> (r: Option<RulesSubcommand<'a>>)
    ensures
        r == rules_subcommand_route(sub),
{
    match sub {
        Some((name, args)) => {
            if str_eq(name, "create") {
                Some(RulesSubcommand::Create(args))
            } else if str_eq(name, "remove") {
                Some(RulesSubcommand::Remove(args))
            } else {
                None
            }
        },
        None => None,
    }
}

/// Whether `name` is a subcommand of `rule` that the dispatcher knows.
pub open spec fn is_rules_name(name: Seq<char>) -> bool {
    name == "create"@ || name == "remove"@
}

/// The RulesSubcommand that the subcommand of the given arguments selects, with the
/// subcommand's own arguments; `None` when it is missing or unknown.
pub fn try_parse_rules_subcommand(sub_matches: &clap::ArgMatches) -> (r: Option<RulesSubcommand<'_>>)
    ensures
        r is Some <==> (subcommand_path_of(*sub_matches).len() > 0 && is_rules_name(subcommand_path_of(*sub_matches)[0])),
        subcommand_path_of(*sub_matches).len() > 0 ==> exists|name: &str, args: &clap::ArgMatches|
            name@ == subcommand_path_of(*sub_matches)[0] && subcommand_path_of(*args) == subcommand_path_of(*sub_matches).drop_first()
                && r == #[trigger] rules_subcommand_route(Some((name, args))),
{
    let sub = subcommand_of(sub_matches);
    let r = route_rules_subcommand(sub);
    assert(r == rules_subcommand_route(sub));
    r
}

/// The RulesSubcommand that the subcommand of the given arguments selects, with the
/// subcommand's own arguments; the subcommand must be one of `rule`.
pub fn parse_rules_subcommand(sub_matches: &clap::ArgMatches) -> (r: RulesSubcommand<'_>)
    requires
        subcommand_path_of(*sub_matches).len() > 0,
        is_rules_name(subcommand_path_of(*sub_matches)[0]),
    ensures
        exists|name: &str, args: &clap::ArgMatches|
            name@ == subcommand_path_of(*sub_matches)[0] && subcommand_path_of(*args) == subcommand_path_of(*sub_matches).drop_first()
                && Some(r) == #[trigger] rules_subcommand_route(Some((name, args))),
{
    match try_parse_rules_subcommand(sub_matches) {
        Some(r) => r,
        None => unreached(),
    }
}

/// The TradingVehicleSubcommand a subcommand name selects; `None` for an unknown or missing one.
pub open spec fn trading_vehicle_subcommand_route<'a>(sub: Option<(&'a str, &'a clap::ArgMatches)>) -> Option<TradingVehicleSubcommand<'a>> {
    match sub {
        Some((name, args)) => {
            if name@ == "create"@ {
                Some(TradingVehicleSubcommand::Create(args))
            } else if name@ == "search"@ {
                Some(TradingVehicleSubcommand::Search)
            } else {
                None
            }
        },
        None => None,
    }
}

/// Maps a subcommand name to the TradingVehicleSubcommand it selects.
pub fn route_trading_vehicle_subcommand<'a>(sub: Option<(&'a str, &'a clap::ArgMatches)>) -> (r: Option<TradingVehicleSubcommand<'a>>)
    ensures
        r == trading_vehicle_subcommand_route(sub),
{
    match sub {
        Some((name, args)) => {
            if str_eq(name, "create") {
                Some(TradingVehicleSubcommand::Create(args))
            } else if str_eq(name, "search") {
                Some(TradingVehicleSubcommand::Search)
            } else {
                None
            }
        },
        None => None,
    }
}

/// Whether `name` is a subcommand of `trading-vehicle` that the dispatcher knows.
pub open spec fn is_trading_vehicle_name(name: Seq<char>) -> bool {
    name == "create"@ || name == "search"@
}

/// The TradingVehicleSubcommand that the subcommand of the given arguments selects, with the
/// subcommand's own arguments; `None` when it is missing or unknown.
pub fn try_parse_trading_vehicle_subcommand(sub_matches: &clap::ArgMatches) -> (r: Option<TradingVehicleSubcommand<'_>>)
    ensures
        r is Some <==> (subcommand_path_of(*sub_matches).len() > 0 && is_trading_vehicle_name(subcommand_path_of(*sub_matches)[0])),
        subcommand_path_of(*sub_matches).len() > 0 ==> exists|name: &str, args: &clap::ArgMatches|
            name@ == subcommand_path_of(*sub_matches)[0] && subcommand_path_of(*args) == subcommand_path_of(*sub_matches).drop_first()
                && r == #[trigger] trading_vehicle_subcommand_route(Some((name, args))),
{
    let sub = subcommand_of(sub_matches);
    let r = route_trading_vehicle_subcommand(sub);
    assert(r == trading_vehicle_subcommand_route(sub));
    r
}

/// The TradingVehicleSubcommand that the subcommand of the given arguments selects, with the
/// subcommand's own arguments; the subcommand must be one of `trading-vehicle`.
pub fn parse_trading_vehicle_subcommand(sub_matches: &clap::ArgMatches) -> (r: TradingVehicleSubcommand<'_>)
    requires
        subcommand_path_of(*sub_matches).len() > 0,
        is_trading_vehicle_name(subcommand_path_of(*sub_matches)[0]),
    ensures
        exists|name: &str, args: &clap::ArgMatches|
            name@ == subcommand_path_of(*sub_matches)[0] && subcommand_path_of(*args) == subcommand_path_of(*sub_matches).drop_first()
                && Some(r) == #[trigger] trading_vehicle_subcommand_route(Some((name, args))),
{
    match try_parse_trading_vehicle_subcommand(sub_matches) {
        Some(r) => r,
        None => unreached(),
    }
}

/// The TradeSubcommand a subcommand name selects; `None` for an unknown or missing one.
pub open spec fn trade_subcommand_route<'a>(sub: Option<(&'a str, &'a clap::ArgMatches)>) -> Option<TradeSubcommand<'a>> {
    match sub {
        Some((name, args)) => {
            if name@ == "create"@ {
                Some(TradeSubcommand::Create(args))
            } else if name@ == "fund"@ {
                Some(TradeSubcommand::Fund(args))
            } else if name@ == "cancel"@ {
                Some(TradeSubcommand::Cancel(args))
            } else if name@ == "submit"@ {
                Some(TradeSubcommand::Submit(args))
            } else if name@ == "manually-fill"@ {
                Some(TradeSubcommand::ManuallyFill)
            } else if name@ == "manually-stop"@ {
                Some(TradeSubcommand::ManuallyStop)
            } else if name@ == "manually-target"@ {
                Some(TradeSubcommand::ManuallyTarget)
            } else if name@ == "manually-close"@ {
                Some(TradeSubcommand::ManuallyClose(args))
            } else if name@ == "sync"@ {
                Some(TradeSubcommand::Sync(args))
            } else if name@ == "watch"@ {
                Some(TradeSubcommand::Watch(args))
            } else if name@ == "search"@ {
                Some(TradeSubcommand::Search(args))
            } else if name@ == "list-open"@ {
                Some(TradeSubcommand::ListOpen(args))
            } else if name@ == "reconcile"@ {
                Some(TradeSubcommand::Reconcile(args))
            } else if name@ == "modify-stop"@ {
                Some(TradeSubcommand::ModifyStop)
            } else if name@ == "modify-target"@ {
                Some(TradeSubcommand::ModifyTarget)
            } else if name@ == "size-preview"@ {
                Some(TradeSubcommand::SizePreview(args))
            } else {
                None
            }
        },
        None => None,
    }
}

/// Maps a subcommand name to the TradeSubcommand it selects.
pub fn route_trade_subcommand<'a>(sub: Option<(&'a str, &'a clap::ArgMatches)>) -> (r: Option<TradeSubcommand<'a>>)
    ensures
        r == trade_subcommand_route(sub),
{
    match sub {
        Some((name, args)) => {
            if str_eq(name, "create") {
                Some(TradeSubcommand::Create(args))
            } else if str_eq(name, "fund") {
                Some(TradeSubcommand::Fund(args))
            } else if str_eq(name, "cancel") {
                Some(TradeSubcommand::Cancel(args))
            } else if str_eq(name, "submit") {
                Some(TradeSubcommand::Submit(args))
            } else if str_eq(name, "manually-fill") {
                Some(TradeSubcommand::ManuallyFill)
            } else if str_eq(name, "manually-stop") {
                Some(TradeSubcommand::ManuallyStop)
            } else if str_eq(name, "manually-target") {
                Some(TradeSubcommand::ManuallyTarget)
            } else if str_eq(name, "manually-close") {
                Some(TradeSubcommand::ManuallyClose(args))
            } else if str_eq(name, "sync") {
                Some(TradeSubcommand::Sync(args))
            } else if str_eq(name, "watch") {
                Some(TradeSubcommand::Watch(args))
            } else if str_eq(name, "search") {
                Some(TradeSubcommand::Search(args))
            } else if str_eq(name, "list-open") {
                Some(TradeSubcommand::ListOpen(args))
            } else if str_eq(name, "reconcile") {
                Some(TradeSubcommand::Reconcile(args))
            } else if str_eq(name, "modify-stop") {
                Some(TradeSubcommand::ModifyStop)
            } else if str_eq(name, "modify-target") {
                Some(TradeSubcommand::ModifyTarget)
            } else if str_eq(name, "size-preview") {
                Some(TradeSubcommand::SizePreview(args))
            } else {
                None
            }
        },
        None => None,
    }
}

/// Whether `name` is a subcommand of `trade` that the dispatcher knows.
pub open spec fn is_trade_name(name: Seq<char>) -> bool {
    name == "create"@ || name == "fund"@ || name == "cancel"@ || name == "submit"@ || name == "manually-fill"@ || name == "manually-stop"@ || name == "manually-target"@ || name == "manually-close"@ || name == "sync"@ || name == "watch"@ || name == "search"@ || name == "list-open"@ || name == "reconcile"@ || name == "modify-stop"@ || name == "modify-target"@ || name == "size-preview"@
}

/// The TradeSubcommand that the subcommand of the given arguments selects, with the
/// subcommand's own arguments; `None` when it is missing or unknown.
pub fn try_parse_trade_subcommand(sub_matches: &clap::ArgMatches) -> (r: Option<TradeSubcommand<'_>>)
    ensures
        r is Some <==> (subcommand_path_of(*sub_matches).len() > 0 && is_trade_name(subcommand_path_of(*sub_matches)[0])),
        subcommand_path_of(*sub_matches).len() > 0 ==> exists|name: &str, args: &clap::ArgMatches|
            name@ == subcommand_path_of(*sub_matches)[0] && subcommand_path_of(*args) == subcommand_path_of(*sub_matches).drop_first()
                && r == #[trigger] trade_subcommand_route(Some((name, args))),
{
    let sub = subcommand_of(sub_matches);
    let r = route_trade_subcommand(sub);
    assert(r == trade_subcommand_route(sub));
    r
}

/// The TradeSubcommand that the subcommand of the given arguments selects, with the
/// subcommand's own arguments; the subcommand must be one of `trade`.
pub fn parse_trade_subcommand(sub_matches: &clap::ArgMatches) -> (r: TradeSubcommand<'_>)
    requires
        subcommand_path_of(*sub_matches).len() > 0,
        is_trade_name(subcommand_path_of(*sub_matches)[0]),
    ensures
        exists|name: &str, args: &clap::ArgMatches|
            name@ == subcommand_path_of(*sub_matches)[0] && subcommand_path_of(*args) == subcommand_path_of(*sub_matches).drop_first()
                && Some(r) == #[trigger] trade_subcommand_route(Some((name, args))),
{
    match try_parse_trade_subcommand(sub_matches) {
        Some(r) => r,
        None => unreached(),
    }
}

/// The DistributionSubcommand a subcommand name selects; `None` for an unknown or missing one.
pub open spec fn distribution_subcommand_route<'a>(sub: Option<(&'a str, &'a clap::ArgMatches)>) -> Option<DistributionSubcommand<'a>> {
    match sub {
        Some((name, args)) => {
            if name@ == "configure"@ {
                Some(DistributionSubcommand::Configure(args))
            } else if name@ == "execute"@ {
                Some(DistributionSubcommand::Execute(args))
            } else if name@ == "history"@ {
                Some(DistributionSubcommand::History(args))
            } else if name@ == "rules"@ {
                Some(DistributionSubcommand::Rules(args))
            } else {
                None
            }
        },
        None => None,
    }
}

/// Maps a subcommand name to the DistributionSubcommand it selects.
pub fn route_distribution_subcommand<'a>(sub: Option<(&'a str, &'a clap::ArgMatches)>) -> (r: Option<DistributionSubcommand<'a>>)
    ensures
        r == distribution_subcommand_route(sub),
{
    match sub {
        Some((name, args)) => {
            if str_eq(name, "configure") {
                Some(DistributionSubcommand::Configure(args))
            } else if str_eq(name, "execute") {
                Some(DistributionSubcommand::Execute(args))
            } else if str_eq(name, "history") {
                Some(DistributionSubcommand::History(args))
            } else if str_eq(name, "rules") {
                Some(DistributionSubcommand::Rules(args))
            } else {
                None
            }
        },
        None => None,
    }
}

/// Whether `name` is a subcommand of `distribution` that the dispatcher knows.
pub open spec fn is_distribution_name(name: Seq<char>) -> bool {
    name == "configure"@ || name == "execute"@ || name == "history"@ || name == "rules"@
}

/// The DistributionSubcommand that the subcommand of the given arguments selects, with the
/// subcommand's own arguments; `None` when it is missing or unknown.
pub fn try_parse_distribution_subcommand(sub_matches: &clap::ArgMatches) -> (r: Option<DistributionSubcommand<'_>>)
    ensures
        r is Some <==> (subcommand_path_of(*sub_matches).len() > 0 && is_distribution_name(subcommand_path_of(*sub_matches)[0])),
        subcommand_path_of(*sub_matches).len() > 0 ==> exists|name: &str, args: &clap::ArgMatches|
            name@ == subcommand_path_of(*sub_matches)[0] && subcommand_path_of(*args) == subcommand_path_of(*sub_matches).drop_first()
                && r == #[trigger] distribution_subcommand_route(Some((name, args))),
{
    let sub = subcommand_of(sub_matches);
    let r = route_distribution_subcommand(sub);
    assert(r == distribution_subcommand_route(sub));
    r
}

/// The DistributionSubcommand that the subcommand of the given arguments selects, with the
/// subcommand's own arguments; the subcommand must be one of `distribution`.
pub fn parse_distribution_subcommand(sub_matches: &clap::ArgMatches) -> (r: DistributionSubcommand<'_>)
    requires
        subcommand_path_of(*sub_matches).len() > 0,
        is_distribution_name(subcommand_path_of(*sub_matches)[0]),
    ensures
        exists|name: &str, args: &clap::ArgMatches|
            name@ == subcommand_path_of(*sub_matches)[0] && subcommand_path_of(*args) == subcommand_path_of(*sub_matches).drop_first()
                && Some(r) == #[trigger] distribution_subcommand_route(Some((name, args))),
{
    match try_parse_distribution_subcommand(sub_matches) {
        Some(r) => r,
        None => unreached(),
    }
}

/// The ReportSubcommand a subcommand name selects; `None` for an unknown or missing one.
pub open spec fn report_subcommand_route<'a>(sub: Option<(&'a str, &'a clap::ArgMatches)>) -> Option<ReportSubcommand<'a>> {
    match sub {
        Some((name, args)) => {
            if name@ == "drawdown"@ {
                Some(ReportSubcommand::Drawdown(args))
            } else if name@ == "performance"@ {
                Some(ReportSubcommand::Performance(args))
            } else if name@ == "risk"@ {
                Some(ReportSubcommand::Risk(args))
            } else if name@ == "concentration"@ {
                Some(ReportSubcommand::Concentration(args))
            } else if name@ == "summary"@ {
                Some(ReportSubcommand::Summary(args))
            } else if name@ == "metrics"@ {
                Some(ReportSubcommand::Metrics(args))
            } else if name@ == "attribution"@ {
                Some(ReportSubcommand::Attribution(args))
            } else if name@ == "benchmark"@ {
                Some(ReportSubcommand::Benchmark(args))
            } else if name@ == "timeline"@ {
                Some(ReportSubcommand::Timeline(args))
            } else {
                None
            }
        },
        None => None,
    }
}

/// Maps a subcommand name to the ReportSubcommand it selects.
pub fn route_report_subcommand<'a>(sub: Option<(&'a str, &'a clap::ArgMatches)>) -> (r: Option<ReportSubcommand<'a>>)
    ensures
        r == report_subcommand_route(sub),
{
    match sub {
        Some((name, args)) => {
            if str_eq(name, "drawdown") {
                Some(ReportSubcommand::Drawdown(args))
            } else if str_eq(name, "performance") {
                Some(ReportSubcommand::Performance(args))
            } else if str_eq(name, "risk") {
                Some(ReportSubcommand::Risk(args))
            } else if str_eq(name, "concentration") {
                Some(ReportSubcommand::Concentration(args))
            } else if str_eq(name, "summary") {
                Some(ReportSubcommand::Summary(args))
            } else if str_eq(name, "metrics") {
                Some(ReportSubcommand::Metrics(args))
            } else if str_eq(name, "attribution") {
                Some(ReportSubcommand::Attribution(args))
            } else if str_eq(name, "benchmark") {
                Some(ReportSubcommand::Benchmark(args))
            } else if str_eq(name, "timeline") {
                Some(ReportSubcommand::Timeline(args))
            } else {
                None
            }
        },
        None => None,
    }
}

/// Whether `name` is a subcommand of `report` that the dispatcher knows.
pub open spec fn is_report_name(name: Seq<char>) -> bool {
    name == "drawdown"@ || name == "performance"@ || name == "risk"@ || name == "concentration"@ || name == "summary"@ || name == "metrics"@ || name == "attribution"@ || name == "benchmark"@ || name == "timeline"@
}

/// The ReportSubcommand that the subcommand of the given arguments selects, with the
/// subcommand's own arguments; `None` when it is missing or unknown.
pub fn try_parse_report_subcommand(sub_matches: &clap::ArgMatches) -> (r: Option<ReportSubcommand<'_>>)
    ensures
        r is Some <==> (subcommand_path_of(*sub_matches).len() > 0 && is_report_name(subcommand_path_of(*sub_matches)[0])),
        subcommand_path_of(*sub_matches).len() > 0 ==> exists|name: &str, args: &clap::ArgMatches|
            name@ == subcommand_path_of(*sub_matches)[0] && subcommand_path_of(*args) == subcommand_path_of(*sub_matches).drop_first()
                && r == #[trigger] report_subcommand_route(Some((name, args))),
{
    let sub = subcommand_of(sub_matches);
    let r = route_report_subcommand(sub);
    assert(r == report_subcommand_route(sub));
    r
}

/// The ReportSubcommand that the subcommand of the given arguments selects, with the
/// subcommand's own arguments; the subcommand must be one of `report`.
pub fn parse_report_subcommand(sub_matches: &clap::ArgMatches) -> (r: ReportSubcommand<'_>)
    requires
        subcommand_path_of(*sub_matches).len() > 0,
        is_report_name(subcommand_path_of(*sub_matches)[0]),
    ensures
        exists|name: &str, args: &clap::ArgMatches|
            name@ == subcommand_path_of(*sub_matches)[0] && subcommand_path_of(*args) == subcommand_path_of(*sub_matches).drop_first()
                && Some(r) == #[trigger] report_subcommand_route(Some((name, args))),
{
    match try_parse_report_subcommand(sub_matches) {
        Some(r) => r,
        None => unreached(),
    }
}

/// The MarketDataSubcommand a subcommand name selects; `None` for an unknown or missing one.
pub open spec fn market_data_subcommand_route<'a>(sub: Option<(&'a str, &'a clap::ArgMatches)>) -> Option<MarketDataSubcommand<'a>> {
    match sub {
        Some((name, args)) => {
            if name@ == "snapshot"@ {
                Some(MarketDataSubcommand::Snapshot(args))
            } else if name@ == "bars"@ {
                Some(MarketDataSubcommand::Bars(args))
            } else if name@ == "stream"@ {
                Some(MarketDataSubcommand::Stream(args))
            } else if name@ == "quote"@ {
                Some(MarketDataSubcommand::Quote(args))
            } else if name@ == "trade"@ {
                Some(MarketDataSubcommand::Trade(args))
            } else if name@ == "session"@ {
                Some(MarketDataSubcommand::Session(args))
            } else {
                None
            }
        },
        None => None,
    }
}

/// Maps a subcommand name to the MarketDataSubcommand it selects.
pub fn route_market_data_subcommand<'a>(sub: Option<(&'a str, &'a clap::ArgMatches)>) -> (r: Option<MarketDataSubcommand<'a>>)
    ensures
        r == market_data_subcommand_route(sub),
{
    match sub {
        Some((name, args)) => {
            if str_eq(name, "snapshot") {
                Some(MarketDataSubcommand::Snapshot(args))
            } else if str_eq(name, "bars") {
                Some(MarketDataSubcommand::Bars(args))
            } else if str_eq(name, "stream") {
                Some(MarketDataSubcommand::Stream(args))
            } else if str_eq(name, "quote") {
                Some(MarketDataSubcommand::Quote(args))
            } else if str_eq(name, "trade") {
                Some(MarketDataSubcommand::Trade(args))
            } else if str_eq(name, "session") {
                Some(MarketDataSubcommand::Session(args))
            } else {
                None
            }
        },
        None => None,
    }
}

/// Whether `name` is a subcommand of `market-data` that the dispatcher knows.
pub open spec fn is_market_data_name(name: Seq<char>) -> bool {
    name == "snapshot"@ || name == "bars"@ || name == "stream"@ || name == "quote"@ || name == "trade"@ || name == "session"@
}

/// The MarketDataSubcommand that the subcommand of the given arguments selects, with the
/// subcommand's own arguments; `None` when it is missing or unknown.
pub fn try_parse_market_data_subcommand(sub_matches: &clap::ArgMatches) -> (r: Option<MarketDataSubcommand<'_>>)
    ensures
        r is Some <==> (subcommand_path_of(*sub_matches).len() > 0 && is_market_data_name(subcommand_path_of(*sub_matches)[0])),
        subcommand_path_of(*sub_matches).len() > 0 ==> exists|name: &str, args: &clap::ArgMatches|
            name@ == subcommand_path_of(*sub_matches)[0] && subcommand_path_of(*args) == subcommand_path_of(*sub_matches).drop_first()
                && r == #[trigger] market_data_subcommand_route(Some((name, args))),
{
    let sub = subcommand_of(sub_matches);
    let r = route_market_data_subcommand(sub);
    assert(r == market_data_subcommand_route(sub));
    r
}

/// The MarketDataSubcommand that the subcommand of the given arguments selects, with the
/// subcommand's own arguments; the subcommand must be one of `market-data`.
pub fn parse_market_data_subcommand(sub_matches: &clap::ArgMatches) -> (r: MarketDataSubcommand<'_>)
    requires
        subcommand_path_of(*sub_matches).len() > 0,
        is_market_data_name(subcommand_path_of(*sub_matches)[0]),
    ensures
        exists|name: &str, args: &clap::ArgMatches|
            name@ == subcommand_path_of(*sub_matches)[0] && subcommand_path_of(*args) == subcommand_path_of(*sub_matches).drop_first()
                && Some(r) == #[trigger] market_data_subcommand_route(Some((name, args))),
{
    match try_parse_market_data_subcommand(sub_matches) {
        Some(r) => r,
        None => unreached(),
    }
}

/// The GradeSubcommand a subcommand name selects; `None` for an unknown or missing one.
pub open spec fn grade_subcommand_route<'a>(sub: Option<(&'a str, &'a clap::ArgMatches)>) -> Option<GradeSubcommand<'a>> {
    match sub {
        Some((name, args)) => {
            if name@ == "show"@ {
                Some(GradeSubcommand::Show(args))
            } else if name@ == "summary"@ {
                Some(GradeSubcommand::Summary(args))
            } else {
                None
            }
        },
        None => None,
    }
}

/// Maps a subcommand name to the GradeSubcommand it selects.
pub fn route_grade_subcommand<'a>(sub: Option<(&'a str, &'a clap::ArgMatches)>) -> (r: Option<GradeSubcommand<'a>>)
    ensures
        r == grade_subcommand_route(sub),
{
    match sub {
        Some((name, args)) => {
            if str_eq(name, "show") {
                Some(GradeSubcommand::Show(args))
            } else if str_eq(name, "summary") {
                Some(GradeSubcommand::Summary(args))
            } else {
                None
            }
        },
        None => None,
    }
}

/// Whether `name` is a subcommand of `grade` that the dispatcher knows.
pub open spec fn is_grade_name(name: Seq<char>) -> bool {
    name == "show"@ || name == "summary"@
}

/// The GradeSubcommand that the subcommand of the given arguments selects, with the
/// subcommand's own arguments; `None` when it is missing or unknown.
pub fn try_parse_grade_subcommand(sub_matches: &clap::ArgMatches) -> (r: Option<GradeSubcommand<'_>>)
    ensures
        r is Some <==> (subcommand_path_of(*sub_matches).len() > 0 && is_grade_name(subcommand_path_of(*sub_matches)[0])),
        subcommand_path_of(*sub_matches).len() > 0 ==> exists|name: &str, args: &clap::ArgMatches|
            name@ == subcommand_path_of(*sub_matches)[0] && subcommand_path_of(*args) == subcommand_path_of(*sub_matches).drop_first()
                && r == #[trigger] grade_subcommand_route(Some((name, args))),
{
    let sub = subcommand_of(sub_matches);
    let r = route_grade_subcommand(sub);
    assert(r == grade_subcommand_route(sub));
    r
}

/// The GradeSubcommand that the subcommand of the given arguments selects, with the
/// subcommand's own arguments; the subcommand must be one of `grade`.
pub fn parse_grade_subcommand(sub_matches: &clap::ArgMatches) -> (r: GradeSubcommand<'_>)
    requires
        subcommand_path_of(*sub_matches).len() > 0,
        is_grade_name(subcommand_path_of(*sub_matches)[0]),
    ensures
        exists|name: &str, args: &clap::ArgMatches|
            name@ == subcommand_path_of(*sub_matches)[0] && subcommand_path_of(*args) == subcommand_path_of(*sub_matches).drop_first()
                && Some(r) == #[trigger] grade_subcommand_route(Some((name, args))),
{
    match try_parse_grade_subcommand(sub_matches) {
        Some(r) => r,
        None => unreached(),
    }
}

/// The OnboardingSubcommand a subcommand name selects; `None` for an unknown or missing one.
pub open spec fn onboarding_subcommand_route<'a>(sub: Option<(&'a str, &'a clap::ArgMatches)>) -> Option<OnboardingSubcommand<'a>> {
    match sub {
        Some((name, args)) => {
            if name@ == "init"@ {
                Some(OnboardingSubcommand::Init(args))
            } else if name@ == "status"@ {
                Some(OnboardingSubcommand::Status)
            } else {
                None
            }
        },
        None => None,
    }
}

/// Maps a subcommand name to the OnboardingSubcommand it selects.
pub fn route_onboarding_subcommand<'a>(sub: Option<(&'a str, &'a clap::ArgMatches)>) -> (r: Option<OnboardingSubcommand<'a>>)
    ensures
        r == onboarding_subcommand_route(sub),
{
    match sub {
        Some((name, args)) => {
            if str_eq(name, "init") {
                Some(OnboardingSubcommand::Init(args))
            } else if str_eq(name, "status") {
                Some(OnboardingSubcommand::Status)
            } else {
                None
            }
        },
        None => None,
    }
}

/// Whether `name` is a subcommand of `onboarding` that the dispatcher knows.
pub open spec fn is_onboarding_name(name: Seq<char>) -> bool {
    name == "init"@ || name == "status"@
}

/// The OnboardingSubcommand that the subcommand of the given arguments selects, with the
/// subcommand's own arguments; `None` when it is missing or unknown.
pub fn try_parse_onboarding_subcommand(sub_matches: &clap::ArgMatches) -> (r: Option<OnboardingSubcommand<'_>>)
    ensures
        r is Some <==> (subcommand_path_of(*sub_matches).len() > 0 && is_onboarding_name(subcommand_path_of(*sub_matches)[0])),
        subcommand_path_of(*sub_matches).len() > 0 ==> exists|name: &str, args: &clap::ArgMatches|
            name@ == subcommand_path_of(*sub_matches)[0] && subcommand_path_of(*args) == subcommand_path_of(*sub_matches).drop_first()
                && r == #[trigger] onboarding_subcommand_route(Some((name, args))),
{
    let sub = subcommand_of(sub_matches);
    let r = route_onboarding_subcommand(sub);
    assert(r == onboarding_subcommand_route(sub));
    r
}

/// The OnboardingSubcommand that the subcommand of the given arguments selects, with the
/// subcommand's own arguments; the subcommand must be one of `onboarding`.
pub fn parse_onboarding_subcommand(sub_matches: &clap::ArgMatches) -> (r: OnboardingSubcommand<'_>)
    requires
        subcommand_path_of(*sub_matches).len() > 0,
        is_onboarding_name(subcommand_path_of(*sub_matches)[0]),
    ensures
        exists|name: &str, args: &clap::ArgMatches|
            name@ == subcommand_path_of(*sub_matches)[0] && subcommand_path_of(*args) == subcommand_path_of(*sub_matches).drop_first()
                && Some(r) == #[trigger] onboarding_subcommand_route(Some((name, args))),
{
    match try_parse_onboarding_subcommand(sub_matches) {
        Some(r) => r,
        None => unreached(),
    }
}

/// The MetricsSubcommand a subcommand name selects; `None` for an unknown or missing one.
pub open spec fn metrics_subcommand_route<'a>(sub: Option<(&'a str, &'a clap::ArgMatches)>) -> Option<MetricsSubcommand<'a>> {
    match sub {
        Some((name, args)) => {
            if name@ == "advanced"@ {
                Some(MetricsSubcommand::Advanced(args))
            } else if name@ == "compare"@ {
                Some(MetricsSubcommand::Compare(args))
            } else {
                None
            }
        },
        None => None,
    }
}

/// Maps a subcommand name to the MetricsSubcommand it selects.
pub fn route_metrics_subcommand<'a>(sub: Option<(&'a str, &'a clap::ArgMatches)>) -> (r: Option<MetricsSubcommand<'a>>)
    ensures
        r == metrics_subcommand_route(sub),
{
    match sub {
        Some((name, args)) => {
            if str_eq(name, "advanced") {
                Some(MetricsSubcommand::Advanced(args))
            } else if str_eq(name, "compare") {
                Some(MetricsSubcommand::Compare(args))
            } else {
                None
            }
        },
        None => None,
    }
}

/// Whether `name` is a subcommand of `metrics` that the dispatcher knows.
pub open spec fn is_metrics_name(name: Seq<char>) -> bool {
    name == "advanced"@ || name == "compare"@
}

/// The MetricsSubcommand that the subcommand of the given arguments selects, with the
/// subcommand's own arguments; `None` when it is missing or unknown.
pub fn try_parse_metrics_subcommand(sub_matches: &clap::ArgMatches) -> (r: Option<MetricsSubcommand<'_>>)
    ensures
        r is Some <==> (subcommand_path_of(*sub_matches).len() > 0 && is_metrics_name(subcommand_path_of(*sub_matches)[0])),
        subcommand_path_of(*sub_matches).len() > 0 ==> exists|name: &str, args: &clap::ArgMatches|
            name@ == subcommand_path_of(*sub_matches)[0] && subcommand_path_of(*args) == subcommand_path_of(*sub_matches).drop_first()
                && r == #[trigger] metrics_subcommand_route(Some((name, args))),
{
    let sub = subcommand_of(sub_matches);
    let r = route_metrics_subcommand(sub);
    assert(r == metrics_subcommand_route(sub));
    r
}

/// The MetricsSubcommand that the subcommand of the given arguments selects, with the
/// subcommand's own arguments; the subcommand must be one of `metrics`.
pub fn parse_metrics_subcommand(sub_matches: &clap::ArgMatches) -> (r: MetricsSubcommand<'_>)
    requires
        subcommand_path_of(*sub_matches).len() > 0,
        is_metrics_name(subcommand_path_of(*sub_matches)[0]),
    ensures
        exists|name: &str, args: &clap::ArgMatches|
            name@ == subcommand_path_of(*sub_matches)[0] && subcommand_path_of(*args) == subcommand_path_of(*sub_matches).drop_first()
                && Some(r) == #[trigger] metrics_subcommand_route(Some((name, args))),
{
    match try_parse_metrics_subcommand(sub_matches) {
        Some(r) => r,
        None => unreached(),
    }
}

/// The AdvisorSubcommand a subcommand name selects; `None` for an unknown or missing one.
pub open spec fn advisor_subcommand_route<'a>(sub: Option<(&'a str, &'a clap::ArgMatches)>) -> Option<AdvisorSubcommand<'a>> {
    match sub {
        Some((name, args)) => {
            if name@ == "configure"@ {
                Some(AdvisorSubcommand::Configure(args))
            } else if name@ == "check"@ {
                Some(AdvisorSubcommand::Check(args))
            } else if name@ == "status"@ {
                Some(AdvisorSubcommand::Status(args))
            } else if name@ == "history"@ {
                Some(AdvisorSubcommand::History(args))
            } else {
                None
            }
        },
        None => None,
    }
}

/// Maps a subcommand name to the AdvisorSubcommand it selects.
pub fn route_advisor_subcommand<'a>(sub: Option<(&'a str, &'a clap::ArgMatches)>) -> (r: Option<AdvisorSubcommand<'a>>)
    ensures
        r == advisor_subcommand_route(sub),
{
    match sub {
        Some((name, args)) => {
            if str_eq(name, "configure") {
                Some(AdvisorSubcommand::Configure(args))
            } else if str_eq(name, "check") {
                Some(AdvisorSubcommand::Check(args))
            } else if str_eq(name, "status") {
                Some(AdvisorSubcommand::Status(args))
            } else if str_eq(name, "history") {
                Some(AdvisorSubcommand::History(args))
            } else {
                None
            }
        },
        None => None,
    }
}

/// Whether `name` is a subcommand of `advisor` that the dispatcher knows.
pub open spec fn is_advisor_name(name: Seq<char>) -> bool {
    name == "configure"@ || name == "check"@ || name == "status"@ || name == "history"@
}

/// The AdvisorSubcommand that the subcommand of the given arguments selects, with the
/// subcommand's own arguments; `None` when it is missing or unknown.
pub fn try_parse_advisor_subcommand(sub_matches: &clap::ArgMatches) -> (r: Option<AdvisorSubcommand<'_>>)
    ensures
        r is Some <==> (subcommand_path_of(*sub_matches).len() > 0 && is_advisor_name(subcommand_path_of(*sub_matches)[0])),
        subcommand_path_of(*sub_matches).len() > 0 ==> exists|name: &str, args: &clap::ArgMatches|
            name@ == subcommand_path_of(*sub_matches)[0] && subcommand_path_of(*args) == subcommand_path_of(*sub_matches).drop_first()
                && r == #[trigger] advisor_subcommand_route(Some((name, args))),
{
    let sub = subcommand_of(sub_matches);
    let r = route_advisor_subcommand(sub);
    assert(r == advisor_subcommand_route(sub));
    r
}

/// The AdvisorSubcommand that the subcommand of the given arguments selects, with the
/// subcommand's own arguments; the subcommand must be one of `advisor`.
pub fn parse_advisor_subcommand(sub_matches: &clap::ArgMatches) -> (r: AdvisorSubcommand<'_>)
    requires
        subcommand_path_of(*sub_matches).len() > 0,
        is_advisor_name(subcommand_path_of(*sub_matches)[0]),
    ensures
        exists|name: &str, args: &clap::ArgMatches|
            name@ == subcommand_path_of(*sub_matches)[0] && subcommand_path_of(*args) == subcommand_path_of(*sub_matches).drop_first()
                && Some(r) == #[trigger] advisor_subcommand_route(Some((name, args))),
{
    match try_parse_advisor_subcommand(sub_matches) {
        Some(r) => r,
        None => unreached(),
    }
}

/// The top-level command a command line selects.
pub enum TopLevelCommand<'a> {
    Db(&'a clap::ArgMatches),
    Keys(&'a clap::ArgMatches),
    Accounts(&'a clap::ArgMatches),
    Transaction(&'a clap::ArgMatches),
    Rule(&'a clap::ArgMatches),
    TradingVehicle(&'a clap::ArgMatches),
    Trade(&'a clap::ArgMatches),
    Distribution(&'a clap::ArgMatches),
    Report(&'a clap::ArgMatches),
    MarketData(&'a clap::ArgMatches),
    Grade(&'a clap::ArgMatches),
    Level(&'a clap::ArgMatches),
    Onboarding(&'a clap::ArgMatches),
    Policy(&'a clap::ArgMatches),
    Metrics(&'a clap::ArgMatches),
    Advisor(&'a clap::ArgMatches),
    /// A subcommand the tool does not define, passed on by name.
    External { name: &'a str, args: &'a clap::ArgMatches },
}

/// The top-level command a subcommand name selects: `account` and
/// `accounts` both select the accounts command, and any other name is an
/// external command; `None` only when no subcommand was given.
pub open spec fn top_level_route<'a>(sub: Option<(&'a str, &'a clap::ArgMatches)>) -> Option<TopLevelCommand<'a>> {
    match sub {
        Some((name, args)) => {
            if name@ == "db"@ {
                Some(TopLevelCommand::Db(args))
            } else if name@ == "keys"@ {
                Some(TopLevelCommand::Keys(args))
            } else if name@ == "account"@ {
                Some(TopLevelCommand::Accounts(args))
            } else if name@ == "accounts"@ {
                Some(TopLevelCommand::Accounts(args))
            } else if name@ == "transaction"@ {
                Some(TopLevelCommand::Transaction(args))
            } else if name@ == "rule"@ {
                Some(TopLevelCommand::Rule(args))
            } else if name@ == "trading-vehicle"@ {
                Some(TopLevelCommand::TradingVehicle(args))
            } else if name@ == "trade"@ {
                Some(TopLevelCommand::Trade(args))
            } else if name@ == "distribution"@ {
                Some(TopLevelCommand::Distribution(args))
            } else if name@ == "report"@ {
                Some(TopLevelCommand::Report(args))
            } else if name@ == "market-data"@ {
                Some(TopLevelCommand::MarketData(args))
            } else if name@ == "grade"@ {
                Some(TopLevelCommand::Grade(args))
            } else if name@ == "level"@ {
                Some(TopLevelCommand::Level(args))
            } else if name@ == "onboarding"@ {
                Some(TopLevelCommand::Onboarding(args))
            } else if name@ == "policy"@ {
                Some(TopLevelCommand::Policy(args))
            } else if name@ == "metrics"@ {
                Some(TopLevelCommand::Metrics(args))
            } else if name@ == "advisor"@ {
                Some(TopLevelCommand::Advisor(args))
            } else {
                Some(TopLevelCommand::External { name, args })
            }
        },
        None => None,
    }
}

/// Maps a top-level subcommand name to the command it selects.
pub fn route_top_level_command<'a>(sub: Option<(&'a str, &'a clap::ArgMatches)>) -> (r: Option<TopLevelCommand<'a>>)
    ensures
        r == top_level_route(sub),
{
    match sub {
        Some((name, args)) => {
            if str_eq(name, "db") {
                Some(TopLevelCommand::Db(args))
            } else if str_eq(name, "keys") {
                Some(TopLevelCommand::Keys(args))
            } else if str_eq(name, "account") {
                Some(TopLevelCommand::Accounts(args))
            } else if str_eq(name, "accounts") {
                Some(TopLevelCommand::Accounts(args))
            } else if str_eq(name, "transaction") {
                Some(TopLevelCommand::Transaction(args))
            } else if str_eq(name, "rule") {
                Some(TopLevelCommand::Rule(args))
            } else if str_eq(name, "trading-vehicle") {
                Some(TopLevelCommand::TradingVehicle(args))
            } else if str_eq(name, "trade") {
                Some(TopLevelCommand::Trade(args))
            } else if str_eq(name, "distribution") {
                Some(TopLevelCommand::Distribution(args))
            } else if str_eq(name, "report") {
                Some(TopLevelCommand::Report(args))
            } else if str_eq(name, "market-data") {
                Some(TopLevelCommand::MarketData(args))
            } else if str_eq(name, "grade") {
                Some(TopLevelCommand::Grade(args))
            } else if str_eq(name, "level") {
                Some(TopLevelCommand::Level(args))
            } else if str_eq(name, "onboarding") {
                Some(TopLevelCommand::Onboarding(args))
            } else if str_eq(name, "policy") {
                Some(TopLevelCommand::Policy(args))
            } else if str_eq(name, "metrics") {
                Some(TopLevelCommand::Metrics(args))
            } else if str_eq(name, "advisor") {
                Some(TopLevelCommand::Advisor(args))
            } else {
                Some(TopLevelCommand::External { name, args })
            }
        },
        None => None,
    }
}

/// The top-level command that the subcommand of the parsed command line
/// selects (any name not of the tool is an external command); `None` when
/// no subcommand was given.
pub fn try_parse_top_level_command(matches: &clap::ArgMatches) -> (r: Option<TopLevelCommand<'_>>)
    ensures
        r is Some <==> subcommand_path_of(*matches).len() > 0,
        subcommand_path_of(*matches).len() > 0 ==> exists|name: &str, args: &clap::ArgMatches|
            name@ == subcommand_path_of(*matches)[0] && subcommand_path_of(*args) == subcommand_path_of(*matches).drop_first()
                && r == #[trigger] top_level_route(Some((name, args))),
{
    let sub = subcommand_of(matches);
    let r = route_top_level_command(sub);
    assert(r == top_level_route(sub));
    r
}

/// The top-level command that the subcommand of the parsed command line
/// selects; a subcommand must have been given.
pub fn parse_top_level_command(matches: &clap::ArgMatches) -> (r: TopLevelCommand<'_>)
    requires
        subcommand_path_of(*matches).len() > 0,
    ensures
        exists|name: &str, args: &clap::ArgMatches|
            name@ == subcommand_path_of(*matches)[0] && subcommand_path_of(*args) == subcommand_path_of(*matches).drop_first()
                && Some(r) == #[trigger] top_level_route(Some((name, args))),
{
    match try_parse_top_level_command(matches) {
        Some(r) => r,
        None => unreached(),
    }
}

/// A level subcommand selected by name; `rules` takes a nested `show` or `set`.
pub enum LevelSubcommand<'a> {
    Triggers(&'a clap::ArgMatches),
    Status(&'a clap::ArgMatches),
    History(&'a clap::ArgMatches),
    Change(&'a clap::ArgMatches),
    Evaluate(&'a clap::ArgMatches),
    Progress(&'a clap::ArgMatches),
    RulesShow(&'a clap::ArgMatches),
    RulesSet(&'a clap::ArgMatches),
}

/// The level subcommand a name selects, `nested` being the subcommand given
/// under `rules`; `None` for an unknown or missing one.
pub open spec fn level_route<'a>(sub: Option<(&'a str, &'a clap::ArgMatches)>, nested: Option<(&'a str, &'a clap::ArgMatches)>) -> Option<LevelSubcommand<'a>> {
    match sub {
        Some((name, args)) => {
            if name@ == "triggers"@ {
                Some(LevelSubcommand::Triggers(args))
            } else if name@ == "status"@ {
                Some(LevelSubcommand::Status(args))
            } else if name@ == "history"@ {
                Some(LevelSubcommand::History(args))
            } else if name@ == "change"@ {
                Some(LevelSubcommand::Change(args))
            } else if name@ == "evaluate"@ {
                Some(LevelSubcommand::Evaluate(args))
            } else if name@ == "progress"@ {
                Some(LevelSubcommand::Progress(args))
            } else if name@ == "rules"@ {
                match nested {
                    Some((inner, inner_args)) => {
                        if inner@ == "show"@ {
                            Some(LevelSubcommand::RulesShow(inner_args))
                        } else if inner@ == "set"@ {
                            Some(LevelSubcommand::RulesSet(inner_args))
                        } else {
                            None
                        }
                    },
                    None => None,
                }
            } else {
                None
            }
        },
        None => None,
    }
}

/// Maps a level subcommand name (and the one nested under `rules`) to the
/// subcommand it selects.
pub fn route_level_subcommand<'a>(sub: Option<(&'a str, &'a clap::ArgMatches)>, nested: Option<(&'a str, &'a clap::ArgMatches)>) -> (r: Option<LevelSubcommand<'a>>)
    ensures
        r == level_route(sub, nested),
{
    match sub {
        Some((name, args)) => {
            if str_eq(name, "triggers") {
                Some(LevelSubcommand::Triggers(args))
            } else if str_eq(name, "status") {
                Some(LevelSubcommand::Status(args))
            } else if str_eq(name, "history") {
                Some(LevelSubcommand::History(args))
            } else if str_eq(name, "change") {
                Some(LevelSubcommand::Change(args))
            } else if str_eq(name, "evaluate") {
                Some(LevelSubcommand::Evaluate(args))
            } else if str_eq(name, "progress") {
                Some(LevelSubcommand::Progress(args))
            } else if str_eq(name, "rules") {
                match nested {
                    Some((inner, inner_args)) => {
                        if str_eq(inner, "show") {
                            Some(LevelSubcommand::RulesShow(inner_args))
                        } else if str_eq(inner, "set") {
                            Some(LevelSubcommand::RulesSet(inner_args))
                        } else {
                            None
                        }
                    },
                    None => None,
                }
            } else {
                None
            }
        },
        None => None,
    }
}

/// Whether `name` is a level subcommand that takes no nested subcommand.
pub open spec fn is_level_name(name: Seq<char>) -> bool {
    name == "triggers"@ || name == "status"@ || name == "history"@ || name == "change"@
        || name == "evaluate"@ || name == "progress"@
}

/// Whether a subcommand path names a level subcommand the dispatcher
/// knows: one of the plain ones, or `rules` followed by `show` or `set`.
pub open spec fn level_path_known(path: Seq<Seq<char>>) -> bool {
    path.len() > 0 && (is_level_name(path[0]) || (path[0] == "rules"@ && path.len() > 1 && (
    path[1] == "show"@ || path[1] == "set"@)))
}

/// Whether `nested` is what the subcommand under `name` gives, `rest` being
/// the path below `name`: it is only looked up under `rules`.
pub open spec fn nested_follows(nested: Option<(&str, &clap::ArgMatches)>, name: Seq<char>, rest: Seq<Seq<char>>) -> bool {
    if name == "rules"@ {
        match nested {
            Some((n, a)) => rest.len() > 0 && n@ == rest[0] && subcommand_path_of(*a) == rest.drop_first(),
            None => rest.len() == 0,
        }
    } else {
        nested is None
    }
}

/// The level subcommand the given arguments select (`rules` with its
/// nested `show` or `set`); `None` when it is missing or unknown.
pub fn try_parse_level_subcommand(sub_matches: &clap::ArgMatches) -> (r: Option<LevelSubcommand<'_>>)
    ensures
        r is Some <==> level_path_known(subcommand_path_of(*sub_matches)),
        subcommand_path_of(*sub_matches).len() > 0 ==> exists|name: &str, args: &clap::ArgMatches, nested: Option<(&str, &clap::ArgMatches)>|
            name@ == subcommand_path_of(*sub_matches)[0] && subcommand_path_of(*args) == subcommand_path_of(*sub_matches).drop_first()
                && nested_follows(nested, name@, subcommand_path_of(*args))
                && r == #[trigger] level_route(Some((name, args)), nested),
{
    let sub = subcommand_of(sub_matches);
    let nested = match sub {
        Some((name, args)) => if str_eq(name, "rules") {
            subcommand_of(args)
        } else {
            None
        },
        None => None,
    };
    let r = route_level_subcommand(sub, nested);
    proof {
        if let Some((name, args)) = sub {
            assert((seq![name@] + subcommand_path_of(*args)).drop_first() =~= subcommand_path_of(*args));
            if let Some((n, a)) = nested {
                assert((seq![n@] + subcommand_path_of(*a)).drop_first() =~= subcommand_path_of(*a));
            }
            assert(nested_follows(nested, name@, subcommand_path_of(*args)));
        }
    }
    assert(r == level_route(sub, nested));
    r
}

/// The level subcommand the given arguments select; it must be a known one,
/// and `rules` must be followed by `show` or `set`.
pub fn parse_level_subcommand(sub_matches: &clap::ArgMatches) -> (r: LevelSubcommand<'_>)
    requires
        level_path_known(subcommand_path_of(*sub_matches)),
    ensures
        exists|name: &str, args: &clap::ArgMatches, nested: Option<(&str, &clap::ArgMatches)>|
            name@ == subcommand_path_of(*sub_matches)[0] && subcommand_path_of(*args) == subcommand_path_of(*sub_matches).drop_first()
                && nested_follows(nested, name@, subcommand_path_of(*args))
                && Some(r) == #[trigger] level_route(Some((name, args)), nested),
{
    match try_parse_level_subcommand(sub_matches) {
        Some(r) => r,
        None => unreached(),
    }
}

/// Whether `c` is the command that the name `name` selects, with the
/// arguments `args` where it takes any.
pub open spec fn db_subcommand_selected_by(c: DbSubcommand<'_>, name: Seq<char>, args: &clap::ArgMatches) -> bool {
    match c {
        DbSubcommand::Export(a) => name == "export"@ && a == args,
        DbSubcommand::Import(a) => name == "import"@ && a == args,
    }
}

/// Routing by name: a name selects a command exactly when it is a known
/// subcommand of db, and then the command that answers to that
/// name, with the arguments given; no name selects nothing.
pub proof fn lemma_db_subcommand_routes_by_name(name: &str, args: &clap::ArgMatches)
    ensures
        db_subcommand_route(Some((name, args))) is Some <==> is_db_name(name@),
        db_subcommand_route(Some((name, args))) matches Some(c) ==> db_subcommand_selected_by(c, name@, args),
        db_subcommand_route(None) is None,
{
}

/// Whether `c` is the command that the name `name` selects, with the
/// arguments `args` where it takes any.
pub open spec fn keys_subcommand_selected_by(c: KeysSubcommand<'_>, name: Seq<char>, args: &clap::ArgMatches) -> bool {
    match c {
        KeysSubcommand::Create(a) => name == "create"@ && a == args,
        KeysSubcommand::Show => name == "show"@,
        KeysSubcommand::Delete(a) => name == "delete"@ && a == args,
        KeysSubcommand::ProtectedSet(a) => name == "protected-set"@ && a == args,
        KeysSubcommand::ProtectedShow => name == "protected-show"@,
        KeysSubcommand::ProtectedDelete(a) => name == "protected-delete"@ && a == args,
    }
}

/// Routing by name: a name selects a command exactly when it is a known
/// subcommand of keys, and then the command that answers to that
/// name, with the arguments given; no name selects nothing.
pub proof fn lemma_keys_subcommand_routes_by_name(name: &str, args: &clap::ArgMatches)
    ensures
        keys_subcommand_route(Some((name, args))) is Some <==> is_keys_name(name@),
        keys_subcommand_route(Some((name, args))) matches Some(c) ==> keys_subcommand_selected_by(c, name@, args),
        keys_subcommand_route(None) is None,
{
}

/// Whether `c` is the command that the name `name` selects, with the
/// arguments `args` where it takes any.
pub open spec fn accounts_subcommand_selected_by(c: AccountsSubcommand<'_>, name: Seq<char>, args: &clap::ArgMatches) -> bool {
    match c {
        AccountsSubcommand::Create(a) => name == "create"@ && a == args,
        AccountsSubcommand::Search => name == "search"@,
        AccountsSubcommand::List(a) => name == "list"@ && a == args,
        AccountsSubcommand::Balance(a) => name == "balance"@ && a == args,
        AccountsSubcommand::Transfer(a) => name == "transfer"@ && a == args,
    }
}

/// Routing by name: a name selects a command exactly when it is a known
/// subcommand of accounts, and then the command that answers to that
/// name, with the arguments given; no name selects nothing.
pub proof fn lemma_accounts_subcommand_routes_by_name(name: &str, args: &clap::ArgMatches)
    ensures
        accounts_subcommand_route(Some((name, args))) is Some <==> is_accounts_name(name@),
        accounts_subcommand_route(Some((name, args))) matches Some(c) ==> accounts_subcommand_selected_by(c, name@, args),
        accounts_subcommand_route(None) is None,
{
}

/// Whether `c` is the command that the name `name` selects, with the
/// arguments `args` where it takes any.
pub open spec fn transactions_subcommand_selected_by(c: TransactionsSubcommand<'_>, name: Seq<char>, args: &clap::ArgMatches) -> bool {
    match c {
        TransactionsSubcommand::Deposit(a) => name == "deposit"@ && a == args,
        TransactionsSubcommand::Withdraw(a) => name == "withdraw"@ && a == args,
    }
}

/// Routing by name: a name selects a command exactly when it is a known
/// subcommand of transactions, and then the command that answers to that
/// name, with the arguments given; no name selects nothing.
pub proof fn lemma_transactions_subcommand_routes_by_name(name: &str, args: &clap::ArgMatches)
    ensures
        transactions_subcommand_route(Some((name, args))) is Some <==> is_transactions_name(name@),
        transactions_subcommand_route(Some((name, args))) matches Some(c) ==> transactions_subcommand_selected_by(c, name@, args),
        transactions_subcommand_route(None) is None,
{
}

/// Whether `c` is the command that the name `name` selects, with the
/// arguments `args` where it takes any.
pub open spec fn rules_subcommand_selected_by(c: RulesSubcommand<'_>, name: Seq<char>, args: &clap::ArgMatches) -> bool {
    match c {
        RulesSubcommand::Create(a) => name == "create"@ && a == args,
        RulesSubcommand::Remove(a) => name == "remove"@ && a == args,
    }
}

/// Routing by name: a name selects a command exactly when it is a known
/// subcommand of rules, and then the command that answers to that
/// name, with the arguments given; no name selects nothing.
pub proof fn lemma_rules_subcommand_routes_by_name(name: &str, args: &clap::ArgMatches)
    ensures
        rules_subcommand_route(Some((name, args))) is Some <==> is_rules_name(name@),
        rules_subcommand_route(Some((name, args))) matches Some(c) ==> rules_subcommand_selected_by(c, name@, args),
        rules_subcommand_route(None) is None,
{
}

/// Whether `c` is the command that the name `name` selects, with the
/// arguments `args` where it takes any.
pub open spec fn trading_vehicle_subcommand_selected_by(c: TradingVehicleSubcommand<'_>, name: Seq<char>, args: &clap::ArgMatches) -> bool {
    match c {
        TradingVehicleSubcommand::Create(a) => name == "create"@ && a == args,
        TradingVehicleSubcommand::Search => name == "search"@,
    }
}

/// Routing by name: a name selects a command exactly when it is a known
/// subcommand of trading vehicle, and then the command that answers to that
/// name, with the arguments given; no name selects nothing.
pub proof fn lemma_trading_vehicle_subcommand_routes_by_name(name: &str, args: &clap::ArgMatches)
    ensures
        trading_vehicle_subcommand_route(Some((name, args))) is Some <==> is_trading_vehicle_name(name@),
        trading_vehicle_subcommand_route(Some((name, args))) matches Some(c) ==> trading_vehicle_subcommand_selected_by(c, name@, args),
        trading_vehicle_subcommand_route(None) is None,
{
}

/// Whether `c` is the command that the name `name` selects, with the
/// arguments `args` where it takes any.
pub open spec fn trade_subcommand_selected_by(c: TradeSubcommand<'_>, name: Seq<char>, args: &clap::ArgMatches) -> bool {
    match c {
        TradeSubcommand::Create(a) => name == "create"@ && a == args,
        TradeSubcommand::Fund(a) => name == "fund"@ && a == args,
        TradeSubcommand::Cancel(a) => name == "cancel"@ && a == args,
        TradeSubcommand::Submit(a) => name == "submit"@ && a == args,
        TradeSubcommand::ManuallyFill => name == "manually-fill"@,
        TradeSubcommand::ManuallyStop => name == "manually-stop"@,
        TradeSubcommand::ManuallyTarget => name == "manually-target"@,
        TradeSubcommand::ManuallyClose(a) => name == "manually-close"@ && a == args,
        TradeSubcommand::Sync(a) => name == "sync"@ && a == args,
        TradeSubcommand::Watch(a) => name == "watch"@ && a == args,
        TradeSubcommand::Search(a) => name == "search"@ && a == args,
        TradeSubcommand::ListOpen(a) => name == "list-open"@ && a == args,
        TradeSubcommand::Reconcile(a) => name == "reconcile"@ && a == args,
        TradeSubcommand::ModifyStop => name == "modify-stop"@,
        TradeSubcommand::ModifyTarget => name == "modify-target"@,
        TradeSubcommand::SizePreview(a) => name == "size-preview"@ && a == args,
    }
}

/// Routing by name: a name selects a command exactly when it is a known
/// subcommand of trade, and then the command that answers to that
/// name, with the arguments given; no name selects nothing.
pub proof fn lemma_trade_subcommand_routes_by_name(name: &str, args: &clap::ArgMatches)
    ensures
        trade_subcommand_route(Some((name, args))) is Some <==> is_trade_name(name@),
        trade_subcommand_route(Some((name, args))) matches Some(c) ==> trade_subcommand_selected_by(c, name@, args),
        trade_subcommand_route(None) is None,
{
}

/// Whether `c` is the command that the name `name` selects, with the
/// arguments `args` where it takes any.
pub open spec fn distribution_subcommand_selected_by(c: DistributionSubcommand<'_>, name: Seq<char>, args: &clap::ArgMatches) -> bool {
    match c {
        DistributionSubcommand::Configure(a) => name == "configure"@ && a == args,
        DistributionSubcommand::Execute(a) => name == "execute"@ && a == args,
        DistributionSubcommand::History(a) => name == "history"@ && a == args,
        DistributionSubcommand::Rules(a) => name == "rules"@ && a == args,
    }
}

/// Routing by name: a name selects a command exactly when it is a known
/// subcommand of distribution, and then the command that answers to that
/// name, with the arguments given; no name selects nothing.
pub proof fn lemma_distribution_subcommand_routes_by_name(name: &str, args: &clap::ArgMatches)
    ensures
        distribution_subcommand_route(Some((name, args))) is Some <==> is_distribution_name(name@),
        distribution_subcommand_route(Some((name, args))) matches Some(c) ==> distribution_subcommand_selected_by(c, name@, args),
        distribution_subcommand_route(None) is None,
{
}

/// Whether `c` is the command that the name `name` selects, with the
/// arguments `args` where it takes any.
pub open spec fn report_subcommand_selected_by(c: ReportSubcommand<'_>, name: Seq<char>, args: &clap::ArgMatches) -> bool {
    match c {
        ReportSubcommand::Drawdown(a) => name == "drawdown"@ && a == args,
        ReportSubcommand::Performance(a) => name == "performance"@ && a == args,
        ReportSubcommand::Risk(a) => name == "risk"@ && a == args,
        ReportSubcommand::Concentration(a) => name == "concentration"@ && a == args,
        ReportSubcommand::Summary(a) => name == "summary"@ && a == args,
        ReportSubcommand::Metrics(a) => name == "metrics"@ && a == args,
        ReportSubcommand::Attribution(a) => name == "attribution"@ && a == args,
        ReportSubcommand::Benchmark(a) => name == "benchmark"@ && a == args,
        ReportSubcommand::Timeline(a) => name == "timeline"@ && a == args,
    }
}

/// Routing by name: a name selects a command exactly when it is a known
/// subcommand of report, and then the command that answers to that
/// name, with the arguments given; no name selects nothing.
pub proof fn lemma_report_subcommand_routes_by_name(name: &str, args: &clap::ArgMatches)
    ensures
        report_subcommand_route(Some((name, args))) is Some <==> is_report_name(name@),
        report_subcommand_route(Some((name, args))) matches Some(c) ==> report_subcommand_selected_by(c, name@, args),
        report_subcommand_route(None) is None,
{
}

/// Whether `c` is the command that the name `name` selects, with the
/// arguments `args` where it takes any.
pub open spec fn market_data_subcommand_selected_by(c: MarketDataSubcommand<'_>, name: Seq<char>, args: &clap::ArgMatches) -> bool {
    match c {
        MarketDataSubcommand::Snapshot(a) => name == "snapshot"@ && a == args,
        MarketDataSubcommand::Bars(a) => name == "bars"@ && a == args,
        MarketDataSubcommand::Stream(a) => name == "stream"@ && a == args,
        MarketDataSubcommand::Quote(a) => name == "quote"@ && a == args,
        MarketDataSubcommand::Trade(a) => name == "trade"@ && a == args,
        MarketDataSubcommand::Session(a) => name == "session"@ && a == args,
    }
}

/// Routing by name: a name selects a command exactly when it is a known
/// subcommand of market data, and then the command that answers to that
/// name, with the arguments given; no name selects nothing.
pub proof fn lemma_market_data_subcommand_routes_by_name(name: &str, args: &clap::ArgMatches)
    ensures
        market_data_subcommand_route(Some((name, args))) is Some <==> is_market_data_name(name@),
        market_data_subcommand_route(Some((name, args))) matches Some(c) ==> market_data_subcommand_selected_by(c, name@, args),
        market_data_subcommand_route(None) is None,
{
}

/// Whether `c` is the command that the name `name` selects, with the
/// arguments `args` where it takes any.
pub open spec fn grade_subcommand_selected_by(c: GradeSubcommand<'_>, name: Seq<char>, args: &clap::ArgMatches) -> bool {
    match c {
        GradeSubcommand::Show(a) => name == "show"@ && a == args,
        GradeSubcommand::Summary(a) => name == "summary"@ && a == args,
    }
}

/// Routing by name: a name selects a command exactly when it is a known
/// subcommand of grade, and then the command that answers to that
/// name, with the arguments given; no name selects nothing.
pub proof fn lemma_grade_subcommand_routes_by_name(name: &str, args: &clap::ArgMatches)
    ensures
        grade_subcommand_route(Some((name, args))) is Some <==> is_grade_name(name@),
        grade_subcommand_route(Some((name, args))) matches Some(c) ==> grade_subcommand_selected_by(c, name@, args),
        grade_subcommand_route(None) is None,
{
}

/// Whether `c` is the command that the name `name` selects, with the
/// arguments `args` where it takes any.
pub open spec fn onboarding_subcommand_selected_by(c: OnboardingSubcommand<'_>, name: Seq<char>, args: &clap::ArgMatches) -> bool {
    match c {
        OnboardingSubcommand::Init(a) => name == "init"@ && a == args,
        OnboardingSubcommand::Status => name == "status"@,
    }
}

/// Routing by name: a name selects a command exactly when it is a known
/// subcommand of onboarding, and then the command that answers to that
/// name, with the arguments given; no name selects nothing.
pub proof fn lemma_onboarding_subcommand_routes_by_name(name: &str, args: &clap::ArgMatches)
    ensures
        onboarding_subcommand_route(Some((name, args))) is Some <==> is_onboarding_name(name@),
        onboarding_subcommand_route(Some((name, args))) matches Some(c) ==> onboarding_subcommand_selected_by(c, name@, args),
        onboarding_subcommand_route(None) is None,
{
}

/// Whether `c` is the command that the name `name` selects, with the
/// arguments `args` where it takes any.
pub open spec fn metrics_subcommand_selected_by(c: MetricsSubcommand<'_>, name: Seq<char>, args: &clap::ArgMatches) -> bool {
    match c {
        MetricsSubcommand::Advanced(a) => name == "advanced"@ && a == args,
        MetricsSubcommand::Compare(a) => name == "compare"@ && a == args,
    }
}

/// Routing by name: a name selects a command exactly when it is a known
/// subcommand of metrics, and then the command that answers to that
/// name, with the arguments given; no name selects nothing.
pub proof fn lemma_metrics_subcommand_routes_by_name(name: &str, args: &clap::ArgMatches)
    ensures
        metrics_subcommand_route(Some((name, args))) is Some <==> is_metrics_name(name@),
        metrics_subcommand_route(Some((name, args))) matches Some(c) ==> metrics_subcommand_selected_by(c, name@, args),
        metrics_subcommand_route(None) is None,
{
}

/// Whether `c` is the command that the name `name` selects, with the
/// arguments `args` where it takes any.
pub open spec fn advisor_subcommand_selected_by(c: AdvisorSubcommand<'_>, name: Seq<char>, args: &clap::ArgMatches) -> bool {
    match c {
        AdvisorSubcommand::Configure(a) => name == "configure"@ && a == args,
        AdvisorSubcommand::Check(a) => name == "check"@ && a == args,
        AdvisorSubcommand::Status(a) => name == "status"@ && a == args,
        AdvisorSubcommand::History(a) => name == "history"@ && a == args,
    }
}

/// Routing by name: a name selects a command exactly when it is a known
/// subcommand of advisor, and then the command that answers to that
/// name, with the arguments given; no name selects nothing.
pub proof fn lemma_advisor_subcommand_routes_by_name(name: &str, args: &clap::ArgMatches)
    ensures
        advisor_subcommand_route(Some((name, args))) is Some <==> is_advisor_name(name@),
        advisor_subcommand_route(Some((name, args))) matches Some(c) ==> advisor_subcommand_selected_by(c, name@, args),
        advisor_subcommand_route(None) is None,
{
}

/// Whether `c` is the command that the name `name` selects, with the
/// arguments `args` where it takes any.
pub open spec fn top_level_selected_by(c: TopLevelCommand<'_>, name: Seq<char>, args: &clap::ArgMatches) -> bool {
    match c {
        TopLevelCommand::Db(a) => name == "db"@ && a == args,
        TopLevelCommand::Keys(a) => name == "keys"@ && a == args,
        TopLevelCommand::Accounts(a) => (name == "account"@ || name == "accounts"@) && a == args,
        TopLevelCommand::Transaction(a) => name == "transaction"@ && a == args,
        TopLevelCommand::Rule(a) => name == "rule"@ && a == args,
        TopLevelCommand::TradingVehicle(a) => name == "trading-vehicle"@ && a == args,
        TopLevelCommand::Trade(a) => name == "trade"@ && a == args,
        TopLevelCommand::Distribution(a) => name == "distribution"@ && a == args,
        TopLevelCommand::Report(a) => name == "report"@ && a == args,
        TopLevelCommand::MarketData(a) => name == "market-data"@ && a == args,
        TopLevelCommand::Grade(a) => name == "grade"@ && a == args,
        TopLevelCommand::Level(a) => name == "level"@ && a == args,
        TopLevelCommand::Onboarding(a) => name == "onboarding"@ && a == args,
        TopLevelCommand::Policy(a) => name == "policy"@ && a == args,
        TopLevelCommand::Metrics(a) => name == "metrics"@ && a == args,
        TopLevelCommand::Advisor(a) => name == "advisor"@ && a == args,
        TopLevelCommand::External { name: n, args: a } => n@ == name && a == args && !(name == "db"@ || name == "keys"@ || name == "account"@ || name == "accounts"@ || name == "transaction"@ || name == "rule"@ || name == "trading-vehicle"@ || name == "trade"@ || name == "distribution"@ || name == "report"@ || name == "market-data"@ || name == "grade"@ || name == "level"@ || name == "onboarding"@ || name == "policy"@ || name == "metrics"@ || name == "advisor"@),
    }
}

/// Routing by name: every name given selects a command, the one that
/// answers to that name (a command group, or an external command for a
/// name that is none of them), with the arguments given; no name selects
/// nothing.
pub proof fn lemma_top_level_routes_by_name(name: &str, args: &clap::ArgMatches)
    ensures
        top_level_route(Some((name, args))) is Some,
        top_level_route(Some((name, args))) matches Some(c) ==> top_level_selected_by(c, name@, args),
        top_level_route(None) is None,
{
}
/// Whether `c` is the level command that the name `name` selects with the
/// arguments `args`, `nested` being the subcommand given under it.
pub open spec fn level_selected_by(
    c: LevelSubcommand<'_>,
    name: Seq<char>,
    args: &clap::ArgMatches,
    nested: Option<(&str, &clap::ArgMatches)>,
) -> bool {
    match c {
        LevelSubcommand::Triggers(a) => name == "triggers"@ && a == args,
        LevelSubcommand::Status(a) => name == "status"@ && a == args,
        LevelSubcommand::History(a) => name == "history"@ && a == args,
        LevelSubcommand::Change(a) => name == "change"@ && a == args,
        LevelSubcommand::Evaluate(a) => name == "evaluate"@ && a == args,
        LevelSubcommand::Progress(a) => name == "progress"@ && a == args,
        LevelSubcommand::RulesShow(a) => name == "rules"@ && (nested matches Some((n, na)) && n@ == "show"@ && a == na),
        LevelSubcommand::RulesSet(a) => name == "rules"@ && (nested matches Some((n, na)) && n@ == "set"@ && a == na),
    }
}

/// Routing by name under `level`: a name selects a command exactly when it
/// is a plain level subcommand, or `rules` with `show` or `set` under it;
/// then the command that answers to those names, with the arguments of
/// the innermost one; no name selects nothing.
pub proof fn lemma_level_routes_by_name(name: &str, args: &clap::ArgMatches, nested: Option<(&str, &clap::ArgMatches)>)
    ensures
        level_route(Some((name, args)), nested) is Some <==> (is_level_name(name@) || (name@ == "rules"@
            && (nested matches Some((n, _)) && (n@ == "show"@ || n@ == "set"@)))),
        level_route(Some((name, args)), nested) matches Some(c) ==> level_selected_by(c, name@, args, nested),
        level_route(None, nested) is None,
{
}

} // verus!
