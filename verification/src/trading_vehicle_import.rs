//! Turning broker metadata about a symbol into a trading-vehicle record.

use vstd::prelude::*;
use crate::display_precision::{category_display, category_text, TradingVehicleCategory};
use crate::output::Account;

verus! {

/// Which broker a trading vehicle is imported from.
#[derive(Clone, Copy, Debug, PartialEq, Eq, Structural)]
pub enum BrokerKind {
    Alpaca,
    Ibkr,
}

/// What Alpaca reports about an asset.
#[derive(Clone, Debug)]
pub struct AssetMetadata {
    pub symbol: String,
    pub broker_identifier: String,
    pub category: TradingVehicleCategory,
    pub exchange: String,
    pub tradable: bool,
    pub is_active: bool,
    pub marginable: bool,
    pub shortable: bool,
    pub easy_to_borrow: bool,
    pub fractionable: bool,
}

/// What Interactive Brokers reports about a contract.
#[derive(Clone, Debug)]
pub struct ContractMetadata {
    pub conid: String,
    pub symbol: String,
    pub category: TradingVehicleCategory,
    pub sec_type: String,
    pub company_name: Option<String>,
    pub description: Option<String>,
    pub currency: Option<String>,
    pub exchange: Option<String>,
}

/// Fixed-income terms of a bond.
#[derive(Clone, Debug, PartialEq, Eq)]
pub struct BondTerms {
    pub face_value: String,
    pub coupon_rate: String,
    pub maturity_date: String,
    pub coupon_frequency: u16,
}

/// A trading vehicle to insert or update.
#[derive(Clone, Debug)]
pub struct TradingVehicleUpsert {
    pub symbol: String,
    pub isin: Option<String>,
    pub category: TradingVehicleCategory,
    pub broker: String,
    pub broker_asset_id: Option<String>,
    pub exchange: Option<String>,
    pub broker_asset_class: Option<String>,
    pub broker_asset_status: Option<String>,
    pub tradable: Option<bool>,
    pub marginable: Option<bool>,
    pub shortable: Option<bool>,
    pub easy_to_borrow: Option<bool>,
    pub fractionable: Option<bool>,
    pub fixed_income: Option<BondTerms>,
}

/// A trading vehicle read from a broker, with a one-line summary.
#[derive(Clone, Debug)]
pub struct ImportedTradingVehicle {
    pub upsert: TradingVehicleUpsert,
    pub summary: String,
}

/// Why a trading vehicle could not be imported: a machine-readable code and
/// a message.
#[derive(Clone, Debug)]
pub struct TradingVehicleImportError {
    code: &'static str,
    message: String,
}

impl TradingVehicleImportError {
    pub closed spec fn code_view(&self) -> Seq<char> {
        self.code@
    }

    pub closed spec fn message_view(&self) -> Seq<char> {
        self.message@
    }

    /// The error code.
    pub fn code(&self) -> (r: &'static str)
        ensures
            r@ == self.code_view(),
    {
        self.code
    }

    /// The error message.
    pub fn message(&self) -> (r: &str)
        ensures
            r@ == self.message_view(),
    {
        self.message.as_str()
    }

    /// An error with the given code and message.
    pub fn new(code: &'static str, message: String) -> (r: Self)
        ensures
            r.code_view() == code@,
            r.message_view() == message@,
    {
        Self { code, message }
    }
}

/// The characters of an optional string.
pub open spec fn opt_text(s: Option<String>) -> Option<Seq<char>> {
    match s {
        Some(v) => Some(v@),
        None => None,
    }
}

/// How a boolean is printed.
pub open spec fn bool_text(b: bool) -> Seq<char> {
    if b {
        "true"@
    } else {
        "false"@
    }
}

/// `b` printed.
pub fn bool_display(b: bool) -> (r: &'static str)
    ensures
        r@ == bool_text(b),
{
    if b {
        "true"
    } else {
        "false"
    }
}

/// Unicode lower case of a string, as `str::to_lowercase` computes it.
pub uninterp spec fn unicode_lowercase(s: Seq<char>) -> Seq<char>;

/// `s` in Unicode lower case (`str::to_lowercase`).
#[verifier::external_body]
pub(crate) fn to_lowercase(s: &str) -> (r: String)
    ensures
        r@ == unicode_lowercase(s@),
{
    s.to_lowercase()
}

/// The record an active, tradable Alpaca asset becomes.
pub open spec fn alpaca_upsert(u: TradingVehicleUpsert, m: AssetMetadata) -> bool {
    &&& u.symbol@ == m.symbol@
    &&& u.isin is None
    &&& u.category == m.category
    &&& u.broker@ == "alpaca"@
    &&& opt_text(u.broker_asset_id) == Some(m.broker_identifier@)
    &&& opt_text(u.exchange) == Some(m.exchange@)
    &&& u.broker_asset_class is None
    &&& opt_text(u.broker_asset_status) == Some("active"@)
    &&& u.tradable == Some(m.tradable)
    &&& u.marginable == Some(m.marginable)
    &&& u.shortable == Some(m.shortable)
    &&& u.easy_to_borrow == Some(m.easy_to_borrow)
    &&& u.fractionable == Some(m.fractionable)
    &&& u.fixed_income is None
}

/// The summary of an Alpaca import.
pub open spec fn alpaca_summary(m: AssetMetadata) -> Seq<char> {
    "Imported from Alpaca: symbol="@ + m.symbol@ + ", category="@ + category_text(m.category)
        + ", exchange="@ + m.exchange@ + ", tradable="@ + bool_text(m.tradable) + ", marginable="@
        + bool_text(m.marginable) + ", shortable="@ + bool_text(m.shortable) + ", fractionable="@
        + bool_text(m.fractionable) + ", broker_id="@ + m.broker_identifier@
}

/// The record a contract becomes.
pub open spec fn ibkr_upsert(u: TradingVehicleUpsert, m: ContractMetadata) -> bool {
    &&& u.symbol@ == m.symbol@
    &&& u.isin is None
    &&& u.category == m.category
    &&& u.broker@ == "ibkr"@
    &&& opt_text(u.broker_asset_id) == Some(m.conid@)
    &&& opt_text(u.exchange) == (if m.exchange is Some {
        opt_text(m.exchange)
    } else {
        opt_text(m.description)
    })
    &&& opt_text(u.broker_asset_class) == Some(unicode_lowercase(m.sec_type@))
    &&& u.broker_asset_status is None
    &&& u.tradable is None
    &&& u.marginable is None
    &&& u.shortable is None
    &&& u.easy_to_borrow is None
    &&& u.fractionable is None
    &&& u.fixed_income is None
}

/// The summary of an Interactive Brokers import.
pub open spec fn ibkr_summary(m: ContractMetadata) -> Seq<char> {
    "Imported from IBKR: symbol="@ + m.symbol@ + ", category="@ + category_text(m.category)
        + ", sec_type="@ + m.sec_type@ + ", conid="@ + m.conid@ + ", exchange="@ + (match m.exchange {
        Some(e) => e@,
        None => "-"@,
    })
}

/// Why an Alpaca asset is refused: inactive first, then not tradable.
pub open spec fn alpaca_refusal(m: AssetMetadata) -> Option<Seq<char>> {
    if !m.is_active {
        Some("symbol '"@ + m.symbol@ + "' is inactive"@)
    } else if !m.tradable {
        Some("symbol '"@ + m.symbol@ + "' is not tradable"@)
    } else {
        None
    }
}

/// The result of importing Alpaca metadata `m`.
pub open spec fn alpaca_import_ok(r: Result<ImportedTradingVehicle, TradingVehicleImportError>, m: AssetMetadata) -> bool {
    match alpaca_refusal(m) {
        Some(msg) => r is Err && r->Err_0.code_view() == "alpaca_import_unavailable"@
            && r->Err_0.message_view() == msg,
        None => r is Ok && alpaca_upsert(r->Ok_0.upsert, m) && r->Ok_0.summary@ == alpaca_summary(m),
    }
}

/// Maps Alpaca asset metadata to a trading vehicle; inactive or
/// non-tradable assets are refused.
pub fn imported_from_alpaca(metadata: AssetMetadata) -> (r: Result<ImportedTradingVehicle, TradingVehicleImportError>)
    ensures
        alpaca_import_ok(r, metadata),
{
    if !metadata.is_active {
        let msg = String::from_str("symbol '").concat(metadata.symbol.as_str()).concat("' is inactive");
        return Err(TradingVehicleImportError::new("alpaca_import_unavailable", msg));
    }
    if !metadata.tradable {
        let msg = String::from_str("symbol '").concat(metadata.symbol.as_str()).concat("' is not tradable");
        return Err(TradingVehicleImportError::new("alpaca_import_unavailable", msg));
    }
    let summary = String::from_str("Imported from Alpaca: symbol=").concat(metadata.symbol.as_str()).concat(
        ", category=",
    ).concat(category_display(metadata.category)).concat(", exchange=").concat(metadata.exchange.as_str()).concat(
        ", tradable=",
    ).concat(bool_display(metadata.tradable)).concat(", marginable=").concat(bool_display(metadata.marginable)).concat(
        ", shortable=",
    ).concat(bool_display(metadata.shortable)).concat(", fractionable=").concat(bool_display(metadata.fractionable)).concat(
        ", broker_id=",
    ).concat(metadata.broker_identifier.as_str());
    let upsert = TradingVehicleUpsert {
        symbol: metadata.symbol.clone(),
        isin: None,
        category: metadata.category,
        broker: String::from_str("alpaca"),
        broker_asset_id: Some(metadata.broker_identifier.clone()),
        exchange: Some(metadata.exchange.clone()),
        broker_asset_class: None,
        broker_asset_status: Some(String::from_str("active")),
        tradable: Some(metadata.tradable),
        marginable: Some(metadata.marginable),
        shortable: Some(metadata.shortable),
        easy_to_borrow: Some(metadata.easy_to_borrow),
        fractionable: Some(metadata.fractionable),
        fixed_income: None,
    };
    Ok(ImportedTradingVehicle { upsert, summary })
}

/// An Alpaca asset is imported exactly when it is active and tradable, and
/// then the record keeps what Alpaca says of it, each flag the asset's own
/// flag of the same name: an asset is recorded as shortable, marginable,
/// easy to borrow or fractionable exactly when Alpaca says so. Otherwise
/// the import fails as unavailable.
pub proof fn lemma_alpaca_record_keeps_the_asset(m: AssetMetadata, r: Result<ImportedTradingVehicle, TradingVehicleImportError>)
    requires
        alpaca_import_ok(r, m),
    ensures
        r is Ok <==> (m.is_active && m.tradable),
        r matches Ok(v) ==> {
            &&& v.upsert.broker@ == "alpaca"@
            &&& opt_text(v.upsert.broker_asset_status) == Some("active"@)
            &&& v.upsert.isin is None
            &&& v.upsert.fixed_income is None
            &&& v.upsert.symbol@ == m.symbol@
            &&& v.upsert.category == m.category
            &&& opt_text(v.upsert.broker_asset_id) == Some(m.broker_identifier@)
            &&& opt_text(v.upsert.exchange) == Some(m.exchange@)
            &&& v.upsert.tradable == Some(true)
            &&& v.upsert.marginable == Some(m.marginable)
            &&& v.upsert.shortable == Some(m.shortable)
            &&& v.upsert.easy_to_borrow == Some(m.easy_to_borrow)
            &&& v.upsert.fractionable == Some(m.fractionable)
        },
        r matches Err(e) ==> e.code_view() == "alpaca_import_unavailable"@,
        !m.is_active ==> (r matches Err(e) && e.message_view() == "symbol '"@ + m.symbol@ + "' is inactive"@),
        m.is_active && !m.tradable ==> (r matches Err(e) && e.message_view() == "symbol '"@ + m.symbol@ + "' is not tradable"@),
{
}

/// Interactive Brokers says nothing of trading flags: a contract's record
/// has none, and keeps the contract's symbol, category and id.
pub proof fn lemma_ibkr_record_has_no_flags(m: ContractMetadata, u: TradingVehicleUpsert)
    requires
        ibkr_upsert(u, m),
    ensures
        u.symbol@ == m.symbol@,
        u.category == m.category,
        opt_text(u.broker_asset_id) == Some(m.conid@),
        u.tradable is None && u.marginable is None && u.shortable is None && u.easy_to_borrow is None
            && u.fractionable is None,
{
}

/// Maps Interactive Brokers contract metadata to a trading vehicle; the
/// exchange falls back to the description.
pub fn imported_from_ibkr(metadata: ContractMetadata) -> (r: ImportedTradingVehicle)
    ensures
        ibkr_upsert(r.upsert, metadata),
        r.summary@ == ibkr_summary(metadata),
{
    let exchange = match &metadata.exchange {
        Some(e) => Some(e.clone()),
        None => match &metadata.description {
            Some(d) => Some(d.clone()),
            None => None,
        },
    };
    let exchange_text = match &metadata.exchange {
        Some(e) => e.clone(),
        None => String::from_str("-"),
    };
    let summary = String::from_str("Imported from IBKR: symbol=").concat(metadata.symbol.as_str()).concat(
        ", category=",
    ).concat(category_display(metadata.category)).concat(", sec_type=").concat(metadata.sec_type.as_str()).concat(
        ", conid=",
    ).concat(metadata.conid.as_str()).concat(", exchange=").concat(exchange_text.as_str());
    let upsert = TradingVehicleUpsert {
        symbol: metadata.symbol.clone(),
        isin: None,
        category: metadata.category,
        broker: String::from_str("ibkr"),
        broker_asset_id: Some(metadata.conid.clone()),
        exchange,
        broker_asset_class: Some(to_lowercase(metadata.sec_type.as_str())),
        broker_asset_status: None,
        tradable: None,
        marginable: None,
        shortable: None,
        easy_to_borrow: None,
        fractionable: None,
        fixed_income: None,
    };
    ImportedTradingVehicle { upsert, summary }
}

/// The category Interactive Brokers is asked for: the hint, else stock.
pub open spec fn ibkr_category(hint: Option<TradingVehicleCategory>) -> TradingVehicleCategory {
    match hint {
        Some(c) => c,
        None => TradingVehicleCategory::Stock,
    }
}

/// Imports a symbol from a broker with the given metadata fetchers: Alpaca
/// metadata is checked and mapped; Interactive Brokers is asked for the
/// hinted category, stock by default. A fetch failure becomes an error
/// with the broker's failure code and the fetcher's message.
pub fn import_from_broker_with_fetchers<FA, FI>(
    account: &Account,
    symbol: &str,
    broker_kind: BrokerKind,
    category_hint: Option<TradingVehicleCategory>,
    fetch_alpaca: FA,
    fetch_ibkr: FI,
) -> (r: Result<ImportedTradingVehicle, TradingVehicleImportError>) where
    FA: Fn(&Account, &str) -> Result<AssetMetadata, String>,
    FI: Fn(&Account, &str, TradingVehicleCategory) -> Result<ContractMetadata, String>,

    requires
        broker_kind == BrokerKind::Alpaca ==> call_requires(fetch_alpaca, (account, symbol)),
        broker_kind == BrokerKind::Ibkr ==> call_requires(
            fetch_ibkr,
            (account, symbol, ibkr_category(category_hint)),
        ),
    ensures
        broker_kind == BrokerKind::Alpaca ==> exists|fetched: Result<AssetMetadata, String>|
            {
                &&& #[trigger] call_ensures(fetch_alpaca, (account, symbol), fetched)
                &&& match fetched {
                    Err(e) => r is Err && r->Err_0.code_view() == "alpaca_import_failed"@
                        && r->Err_0.message_view() == e@,
                    Ok(m) => alpaca_import_ok(r, m),
                }
            },
        broker_kind == BrokerKind::Ibkr ==> exists|fetched: Result<ContractMetadata, String>|
            {
                &&& #[trigger] call_ensures(
                    fetch_ibkr,
                    (account, symbol, ibkr_category(category_hint)),
                    fetched,
                )
                &&& match fetched {
                    Err(e) => r is Err && r->Err_0.code_view() == "ibkr_import_failed"@
                        && r->Err_0.message_view() == e@,
                    Ok(m) => r is Ok && ibkr_upsert(r->Ok_0.upsert, m) && r->Ok_0.summary@ == ibkr_summary(m),
                }
            },
{
    match broker_kind {
        BrokerKind::Alpaca => {
            let fetched = fetch_alpaca(account, symbol);
            match fetched {
                Err(e) => Err(TradingVehicleImportError::new("alpaca_import_failed", e)),
                Ok(m) => imported_from_alpaca(m),
            }
        },
        BrokerKind::Ibkr => {
            let category = match category_hint {
                Some(c) => c,
                None => TradingVehicleCategory::Stock,
            };
            let fetched = fetch_ibkr(account, symbol, category);
            match fetched {
                Err(e) => Err(TradingVehicleImportError::new("ibkr_import_failed", e)),
                Ok(m) => Ok(imported_from_ibkr(m)),
            }
        },
    }
}

} // verus!
