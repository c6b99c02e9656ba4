use clap::{Arg, Command};
use trust_cli::command_routing::{
    try_parse_db_subcommand, try_parse_grade_subcommand, try_parse_level_subcommand,
    try_parse_market_data_subcommand, try_parse_onboarding_subcommand, try_parse_report_subcommand,
    try_parse_rules_subcommand, try_parse_top_level_command,
    parse_accounts_subcommand, parse_advisor_subcommand, parse_db_subcommand,
    parse_distribution_subcommand, parse_grade_subcommand, parse_keys_subcommand,
    parse_level_subcommand, parse_market_data_subcommand, parse_metrics_subcommand,
    parse_onboarding_subcommand, parse_report_subcommand, parse_rules_subcommand,
    parse_top_level_command, parse_trade_subcommand, parse_trading_vehicle_subcommand,
    parse_transactions_subcommand, AccountsSubcommand, AdvisorSubcommand, DbSubcommand,
    DistributionSubcommand, GradeSubcommand, KeysSubcommand, LevelSubcommand,
    MarketDataSubcommand, MetricsSubcommand, OnboardingSubcommand, ReportSubcommand,
    RulesSubcommand, TopLevelCommand, TradeSubcommand, TradingVehicleSubcommand,
    TransactionsSubcommand,
};

#[test]
fn parse_top_level_command_maps_known_and_external() {
    let app = Command::new("trust")
        .subcommand(Command::new("db"))
        .subcommand(Command::new("account"))
        .allow_external_subcommands(true);
    let db = app.clone().get_matches_from(["trust", "db"]);
    assert!(matches!(
        parse_top_level_command(&db),
        TopLevelCommand::Db(_)
    ));
    let account = app.clone().get_matches_from(["trust", "account"]);
    assert!(matches!(
        parse_top_level_command(&account),
        TopLevelCommand::Accounts(_)
    ));
    let ext = app.get_matches_from(["trust", "foo", "bar"]);
    assert!(matches!(
        parse_top_level_command(&ext),
        TopLevelCommand::External { name: "foo", .. }
    ));
}

#[test]
fn parse_nested_dispatchers_cover_all_variants() {
    let app = Command::new("trust")
        .subcommand(Command::new("db").subcommand(Command::new("export")))
        .subcommand(Command::new("keys").subcommand(Command::new("protected-show")))
        .subcommand(Command::new("account").subcommand(Command::new("balance")))
        .subcommand(Command::new("transaction").subcommand(Command::new("deposit")))
        .subcommand(Command::new("rule").subcommand(Command::new("remove")))
        .subcommand(Command::new("trading-vehicle").subcommand(Command::new("search")))
        .subcommand(Command::new("trade").subcommand(Command::new("size-preview")))
        .subcommand(Command::new("distribution").subcommand(Command::new("history")))
        .subcommand(Command::new("report").subcommand(Command::new("summary")))
        .subcommand(Command::new("market-data").subcommand(Command::new("bars")))
        .subcommand(Command::new("grade").subcommand(Command::new("show")))
        .subcommand(
            Command::new("level")
                .subcommand(Command::new("rules").subcommand(Command::new("set"))),
        )
        .subcommand(Command::new("onboarding").subcommand(Command::new("init")))
        .subcommand(Command::new("metrics").subcommand(Command::new("compare")))
        .subcommand(Command::new("advisor").subcommand(Command::new("check")))
        .subcommand(Command::new("policy").arg(Arg::new("noop")));

    let db = app.clone().get_matches_from(["trust", "db", "export"]);
    let keys = app
        .clone()
        .get_matches_from(["trust", "keys", "protected-show"]);
    let account = app
        .clone()
        .get_matches_from(["trust", "account", "balance"]);
    let tx = app
        .clone()
        .get_matches_from(["trust", "transaction", "deposit"]);
    let rule = app.clone().get_matches_from(["trust", "rule", "remove"]);
    let vehicle = app
        .clone()
        .get_matches_from(["trust", "trading-vehicle", "search"]);
    let trade = app
        .clone()
        .get_matches_from(["trust", "trade", "size-preview"]);
    let dist = app
        .clone()
        .get_matches_from(["trust", "distribution", "history"]);
    let report = app.clone().get_matches_from(["trust", "report", "summary"]);
    let market = app
        .clone()
        .get_matches_from(["trust", "market-data", "bars"]);
    let grade = app.clone().get_matches_from(["trust", "grade", "show"]);
    let level = app
        .clone()
        .get_matches_from(["trust", "level", "rules", "set"]);
    let onboarding = app
        .clone()
        .get_matches_from(["trust", "onboarding", "init"]);
    let metrics = app
        .clone()
        .get_matches_from(["trust", "metrics", "compare"]);
    let advisor = app.clone().get_matches_from(["trust", "advisor", "check"]);

    let (_, db_m) = db.subcommand().expect("expected db subcommand");
    assert!(matches!(
        parse_db_subcommand(db_m),
        DbSubcommand::Export(_)
    ));
    let (_, keys_m) = keys.subcommand().expect("expected keys subcommand");
    assert!(matches!(
        parse_keys_subcommand(keys_m),
        KeysSubcommand::ProtectedShow
    ));
    let (_, account_m) = account.subcommand().expect("expected account subcommand");
    assert!(matches!(
        parse_accounts_subcommand(account_m),
        AccountsSubcommand::Balance(_)
    ));
    let (_, tx_m) = tx.subcommand().expect("expected transaction subcommand");
    assert!(matches!(
        parse_transactions_subcommand(tx_m),
        TransactionsSubcommand::Deposit(_)
    ));
    let (_, rule_m) = rule.subcommand().expect("expected rule subcommand");
    assert!(matches!(
        parse_rules_subcommand(rule_m),
        RulesSubcommand::Remove(_)
    ));
    let (_, vehicle_m) = vehicle
        .subcommand()
        .expect("expected trading-vehicle subcommand");
    assert!(matches!(
        parse_trading_vehicle_subcommand(vehicle_m),
        TradingVehicleSubcommand::Search
    ));
    let (_, trade_m) = trade.subcommand().expect("expected trade subcommand");
    assert!(matches!(
        parse_trade_subcommand(trade_m),
        TradeSubcommand::SizePreview(_)
    ));
    let (_, dist_m) = dist.subcommand().expect("expected distribution subcommand");
    assert!(matches!(
        parse_distribution_subcommand(dist_m),
        DistributionSubcommand::History(_)
    ));
    let (_, report_m) = report.subcommand().expect("expected report subcommand");
    assert!(matches!(
        parse_report_subcommand(report_m),
        ReportSubcommand::Summary(_)
    ));
    let (_, market_m) = market
        .subcommand()
        .expect("expected market-data subcommand");
    assert!(matches!(
        parse_market_data_subcommand(market_m),
        MarketDataSubcommand::Bars(_)
    ));
    let (_, grade_m) = grade.subcommand().expect("expected grade subcommand");
    assert!(matches!(
        parse_grade_subcommand(grade_m),
        GradeSubcommand::Show(_)
    ));
    let (_, level_m) = level.subcommand().expect("expected level subcommand");
    assert!(matches!(
        parse_level_subcommand(level_m),
        LevelSubcommand::RulesSet(_)
    ));
    let (_, onboarding_m) = onboarding
        .subcommand()
        .expect("expected onboarding subcommand");
    assert!(matches!(
        parse_onboarding_subcommand(onboarding_m),
        OnboardingSubcommand::Init(_)
    ));
    let (_, metrics_m) = metrics.subcommand().expect("expected metrics subcommand");
    assert!(matches!(
        parse_metrics_subcommand(metrics_m),
        MetricsSubcommand::Compare(_)
    ));
    let (_, advisor_m) = advisor.subcommand().expect("expected advisor subcommand");
    assert!(matches!(
        parse_advisor_subcommand(advisor_m),
        AdvisorSubcommand::Check(_)
    ));
}

#[test]
fn parse_db_and_trade_cover_second_variants() {
    let app = Command::new("trust").subcommand(
        Command::new("db")
            .subcommand(Command::new("export"))
            .subcommand(Command::new("import")),
    );
    let db = app.get_matches_from(["trust", "db", "import"]);
    let (_, db_m) = db.subcommand().expect("expected db");
    assert!(matches!(
        parse_db_subcommand(db_m),
        DbSubcommand::Import(_)
    ));

    let trade_app = Command::new("trust").subcommand(
        Command::new("trade")
            .subcommand(Command::new("create"))
            .subcommand(Command::new("fund"))
            .subcommand(Command::new("cancel"))
            .subcommand(Command::new("submit"))
            .subcommand(Command::new("manually-fill"))
            .subcommand(Command::new("manually-stop"))
            .subcommand(Command::new("manually-target"))
            .subcommand(Command::new("manually-close"))
            .subcommand(Command::new("sync"))
            .subcommand(Command::new("watch"))
            .subcommand(Command::new("search"))
            .subcommand(Command::new("list-open"))
            .subcommand(Command::new("reconcile"))
            .subcommand(Command::new("modify-stop"))
            .subcommand(Command::new("modify-target"))
            .subcommand(Command::new("size-preview")),
    );
    let trade_variants = [
        ("create", "Create"),
        ("fund", "Fund"),
        ("cancel", "Cancel"),
        ("submit", "Submit"),
        ("manually-fill", "ManuallyFill"),
        ("manually-stop", "ManuallyStop"),
        ("manually-target", "ManuallyTarget"),
        ("manually-close", "ManuallyClose"),
        ("sync", "Sync"),
        ("watch", "Watch"),
        ("search", "Search"),
        ("list-open", "ListOpen"),
        ("reconcile", "Reconcile"),
        ("modify-stop", "ModifyStop"),
        ("modify-target", "ModifyTarget"),
        ("size-preview", "SizePreview"),
    ];
    for (sub, expected) in trade_variants {
        let m = trade_app.clone().get_matches_from(["trust", "trade", sub]);
        let (_, tm) = m.subcommand().expect("expected trade");
        let parsed = parse_trade_subcommand(tm);
        let got = match parsed {
            TradeSubcommand::Create(_) => "Create",
            TradeSubcommand::Fund(_) => "Fund",
            TradeSubcommand::Cancel(_) => "Cancel",
            TradeSubcommand::Submit(_) => "Submit",
            TradeSubcommand::ManuallyFill => "ManuallyFill",
            TradeSubcommand::ManuallyStop => "ManuallyStop",
            TradeSubcommand::ManuallyTarget => "ManuallyTarget",
            TradeSubcommand::ManuallyClose(_) => "ManuallyClose",
            TradeSubcommand::Sync(_) => "Sync",
            TradeSubcommand::Watch(_) => "Watch",
            TradeSubcommand::Search(_) => "Search",
            TradeSubcommand::ListOpen(_) => "ListOpen",
            TradeSubcommand::Reconcile(_) => "Reconcile",
            TradeSubcommand::ModifyStop => "ModifyStop",
            TradeSubcommand::ModifyTarget => "ModifyTarget",
            TradeSubcommand::SizePreview(_) => "SizePreview",
        };
        assert_eq!(got, expected);
    }
}

#[test]
fn parse_top_level_command_covers_all_named_variants() {
    let app = Command::new("trust")
        .allow_external_subcommands(true)
        .subcommand(Command::new("db"))
        .subcommand(Command::new("keys"))
        .subcommand(Command::new("account"))
        .subcommand(Command::new("accounts"))
        .subcommand(Command::new("transaction"))
        .subcommand(Command::new("rule"))
        .subcommand(Command::new("trading-vehicle"))
        .subcommand(Command::new("trade"))
        .subcommand(Command::new("distribution"))
        .subcommand(Command::new("report"))
        .subcommand(Command::new("market-data"))
        .subcommand(Command::new("grade"))
        .subcommand(Command::new("level"))
        .subcommand(Command::new("onboarding"))
        .subcommand(Command::new("policy"))
        .subcommand(Command::new("metrics"))
        .subcommand(Command::new("advisor"));

    let cases = [
        ("db", "db"),
        ("keys", "keys"),
        ("account", "accounts"),
        ("accounts", "accounts"),
        ("transaction", "transaction"),
        ("rule", "rule"),
        ("trading-vehicle", "trading-vehicle"),
        ("trade", "trade"),
        ("distribution", "distribution"),
        ("report", "report"),
        ("market-data", "market-data"),
        ("grade", "grade"),
        ("level", "level"),
        ("onboarding", "onboarding"),
        ("policy", "policy"),
        ("metrics", "metrics"),
        ("advisor", "advisor"),
        ("external-command", "external"),
    ];

    for (name, expected) in cases {
        let matches = app.clone().get_matches_from(["trust", name]);
        let got = match parse_top_level_command(&matches) {
            TopLevelCommand::Db(_) => "db",
            TopLevelCommand::Keys(_) => "keys",
            TopLevelCommand::Accounts(_) => "accounts",
            TopLevelCommand::Transaction(_) => "transaction",
            TopLevelCommand::Rule(_) => "rule",
            TopLevelCommand::TradingVehicle(_) => "trading-vehicle",
            TopLevelCommand::Trade(_) => "trade",
            TopLevelCommand::Distribution(_) => "distribution",
            TopLevelCommand::Report(_) => "report",
            TopLevelCommand::MarketData(_) => "market-data",
            TopLevelCommand::Grade(_) => "grade",
            TopLevelCommand::Level(_) => "level",
            TopLevelCommand::Onboarding(_) => "onboarding",
            TopLevelCommand::Policy(_) => "policy",
            TopLevelCommand::Metrics(_) => "metrics",
            TopLevelCommand::Advisor(_) => "advisor",
            TopLevelCommand::External { .. } => "external",
        };
        assert_eq!(got, expected, "top-level route mismatch for {name}");
    }
}

#[test]
fn parse_subcommands_cover_remaining_variants() {
    let keys = Command::new("trust").subcommand(
        Command::new("keys")
            .subcommand(Command::new("create"))
            .subcommand(Command::new("show"))
            .subcommand(Command::new("delete"))
            .subcommand(Command::new("protected-set"))
            .subcommand(Command::new("protected-show"))
            .subcommand(Command::new("protected-delete")),
    );
    for (sub, expected) in [
        ("create", "create"),
        ("show", "show"),
        ("delete", "delete"),
        ("protected-set", "protected-set"),
        ("protected-show", "protected-show"),
        ("protected-delete", "protected-delete"),
    ] {
        let m = keys.clone().get_matches_from(["trust", "keys", sub]);
        let (_, sm) = m.subcommand().expect("expected keys");
        let got = match parse_keys_subcommand(sm) {
            KeysSubcommand::Create(_) => "create",
            KeysSubcommand::Show => "show",
            KeysSubcommand::Delete(_) => "delete",
            KeysSubcommand::ProtectedSet(_) => "protected-set",
            KeysSubcommand::ProtectedShow => "protected-show",
            KeysSubcommand::ProtectedDelete(_) => "protected-delete",
        };
        assert_eq!(got, expected);
    }

    let account = Command::new("trust").subcommand(
        Command::new("account")
            .subcommand(Command::new("create"))
            .subcommand(Command::new("search"))
            .subcommand(Command::new("list"))
            .subcommand(Command::new("balance"))
            .subcommand(Command::new("transfer")),
    );
    for (sub, expected) in [
        ("create", "create"),
        ("search", "search"),
        ("list", "list"),
        ("balance", "balance"),
        ("transfer", "transfer"),
    ] {
        let m = account.clone().get_matches_from(["trust", "account", sub]);
        let (_, sm) = m.subcommand().expect("expected account");
        let got = match parse_accounts_subcommand(sm) {
            AccountsSubcommand::Create(_) => "create",
            AccountsSubcommand::Search => "search",
            AccountsSubcommand::List(_) => "list",
            AccountsSubcommand::Balance(_) => "balance",
            AccountsSubcommand::Transfer(_) => "transfer",
        };
        assert_eq!(got, expected);
    }

    let report = Command::new("trust").subcommand(
        Command::new("report")
            .subcommand(Command::new("drawdown"))
            .subcommand(Command::new("performance"))
            .subcommand(Command::new("risk"))
            .subcommand(Command::new("concentration"))
            .subcommand(Command::new("summary"))
            .subcommand(Command::new("metrics"))
            .subcommand(Command::new("attribution"))
            .subcommand(Command::new("benchmark"))
            .subcommand(Command::new("timeline")),
    );
    for (sub, expected) in [
        ("drawdown", "drawdown"),
        ("performance", "performance"),
        ("risk", "risk"),
        ("concentration", "concentration"),
        ("summary", "summary"),
        ("metrics", "metrics"),
        ("attribution", "attribution"),
        ("benchmark", "benchmark"),
        ("timeline", "timeline"),
    ] {
        let m = report.clone().get_matches_from(["trust", "report", sub]);
        let (_, sm) = m.subcommand().expect("expected report");
        let got = match parse_report_subcommand(sm) {
            ReportSubcommand::Drawdown(_) => "drawdown",
            ReportSubcommand::Performance(_) => "performance",
            ReportSubcommand::Risk(_) => "risk",
            ReportSubcommand::Concentration(_) => "concentration",
            ReportSubcommand::Summary(_) => "summary",
            ReportSubcommand::Metrics(_) => "metrics",
            ReportSubcommand::Attribution(_) => "attribution",
            ReportSubcommand::Benchmark(_) => "benchmark",
            ReportSubcommand::Timeline(_) => "timeline",
        };
        assert_eq!(got, expected);
    }

    let level = Command::new("trust").subcommand(
        Command::new("level")
            .subcommand(Command::new("triggers"))
            .subcommand(Command::new("status"))
            .subcommand(Command::new("history"))
            .subcommand(Command::new("change"))
            .subcommand(Command::new("evaluate"))
            .subcommand(Command::new("progress"))
            .subcommand(
                Command::new("rules")
                    .subcommand(Command::new("show"))
                    .subcommand(Command::new("set")),
            ),
    );
    for (sub_path, expected) in [
        (vec!["triggers"], "triggers"),
        (vec!["status"], "status"),
        (vec!["history"], "history"),
        (vec!["change"], "change"),
        (vec!["evaluate"], "evaluate"),
        (vec!["progress"], "progress"),
        (vec!["rules", "show"], "rules-show"),
        (vec!["rules", "set"], "rules-set"),
    ] {
        let mut argv = vec!["trust", "level"];
        argv.extend(sub_path);
        let m = level.clone().get_matches_from(argv);
        let (_, sm) = m.subcommand().expect("expected level");
        let got = match parse_level_subcommand(sm) {
            LevelSubcommand::Triggers(_) => "triggers",
            LevelSubcommand::Status(_) => "status",
            LevelSubcommand::History(_) => "history",
            LevelSubcommand::Change(_) => "change",
            LevelSubcommand::Evaluate(_) => "evaluate",
            LevelSubcommand::Progress(_) => "progress",
            LevelSubcommand::RulesShow(_) => "rules-show",
            LevelSubcommand::RulesSet(_) => "rules-set",
        };
        assert_eq!(got, expected);
    }

    let onboarding = Command::new("trust").subcommand(
        Command::new("onboarding")
            .subcommand(Command::new("init"))
            .subcommand(Command::new("status")),
    );
    for (sub, expected) in [("init", "init"), ("status", "status")] {
        let m = onboarding
            .clone()
            .get_matches_from(["trust", "onboarding", sub]);
        let (_, sm) = m.subcommand().expect("expected onboarding");
        let got = match parse_onboarding_subcommand(sm) {
            OnboardingSubcommand::Init(_) => "init",
            OnboardingSubcommand::Status => "status",
        };
        assert_eq!(got, expected);
    }

    let advisor = Command::new("trust").subcommand(
        Command::new("advisor")
            .subcommand(Command::new("configure"))
            .subcommand(Command::new("check"))
            .subcommand(Command::new("status"))
            .subcommand(Command::new("history")),
    );
    for (sub, expected) in [
        ("configure", "configure"),
        ("check", "check"),
        ("status", "status"),
        ("history", "history"),
    ] {
        let m = advisor.clone().get_matches_from(["trust", "advisor", sub]);
        let (_, sm) = m.subcommand().expect("expected advisor");
        let got = match parse_advisor_subcommand(sm) {
            AdvisorSubcommand::Configure(_) => "configure",
            AdvisorSubcommand::Check(_) => "check",
            AdvisorSubcommand::Status(_) => "status",
            AdvisorSubcommand::History(_) => "history",
        };
        assert_eq!(got, expected);
    }
}

#[test]
fn parse_grade_subcommand_covers_summary_variant() {
    let app = Command::new("trust").subcommand(
        Command::new("grade")
            .subcommand(Command::new("show"))
            .subcommand(Command::new("summary")),
    );
    let m = app.get_matches_from(["trust", "grade", "summary"]);
    let (_, sm) = m.subcommand().expect("expected grade");
    assert!(matches!(
        parse_grade_subcommand(sm),
        GradeSubcommand::Summary(_)
    ));
}

#[test]
fn parse_market_data_subcommand_covers_stream_variant() {
    let app = Command::new("trust").subcommand(
        Command::new("market-data")
            .subcommand(Command::new("snapshot"))
            .subcommand(Command::new("bars"))
            .subcommand(Command::new("stream")),
    );
    let m = app.get_matches_from(["trust", "market-data", "stream"]);
    let (_, sm) = m.subcommand().expect("expected market-data");
    assert!(matches!(
        parse_market_data_subcommand(sm),
        MarketDataSubcommand::Stream(_)
    ));
}

#[test]
fn parse_top_level_command_is_none_without_subcommand() {
    let app = Command::new("trust");
    let m = app.get_matches_from(["trust"]);
    assert!(try_parse_top_level_command(&m).is_none());
}

#[test]
fn nested_parsers_are_none_without_nested_subcommand() {
    let app = Command::new("trust")
        .subcommand(Command::new("grade"))
        .subcommand(Command::new("onboarding"))
        .subcommand(Command::new("rule"))
        .subcommand(Command::new("report"))
        .subcommand(Command::new("market-data"))
        .subcommand(Command::new("level").subcommand(Command::new("rules")));
    let grade = app.clone().get_matches_from(["trust", "grade"]);
    let (_, sm) = grade.subcommand().expect("expected grade");
    assert!(try_parse_grade_subcommand(sm).is_none());
    let onboarding = app.clone().get_matches_from(["trust", "onboarding"]);
    let (_, sm) = onboarding.subcommand().expect("expected onboarding");
    assert!(try_parse_onboarding_subcommand(sm).is_none());
    let rule = app.clone().get_matches_from(["trust", "rule"]);
    let (_, sm) = rule.subcommand().expect("expected rule");
    assert!(try_parse_rules_subcommand(sm).is_none());
    let report = app.clone().get_matches_from(["trust", "report"]);
    let (_, sm) = report.subcommand().expect("expected report");
    assert!(try_parse_report_subcommand(sm).is_none());
    let market = app.clone().get_matches_from(["trust", "market-data"]);
    let (_, sm) = market.subcommand().expect("expected market-data");
    assert!(try_parse_market_data_subcommand(sm).is_none());
    let level = app.get_matches_from(["trust", "level", "rules"]);
    let (_, sm) = level.subcommand().expect("expected level");
    assert!(try_parse_level_subcommand(sm).is_none());
}

#[test]
fn unknown_nested_subcommand_is_none() {
    let app = Command::new("trust").subcommand(
        Command::new("db")
            .subcommand(Command::new("export"))
            .subcommand(Command::new("vacuum")),
    );
    let m = app.get_matches_from(["trust", "db", "vacuum"]);
    let (_, sm) = m.subcommand().expect("expected db");
    assert!(try_parse_db_subcommand(sm).is_none());
}

#[test]
fn metrics_and_distribution_parsers_select_their_variants() {
    let app = Command::new("trust")
        .subcommand(
            Command::new("metrics")
                .subcommand(Command::new("advanced"))
                .subcommand(Command::new("compare")),
        )
        .subcommand(
            Command::new("distribution")
                .subcommand(Command::new("configure"))
                .subcommand(Command::new("execute")),
        );
    let m = app.clone().get_matches_from(["trust", "metrics", "advanced"]);
    let (_, sm) = m.subcommand().expect("expected metrics");
    assert!(matches!(
        parse_metrics_subcommand(sm),
        MetricsSubcommand::Advanced(_)
    ));
    let m = app.get_matches_from(["trust", "distribution", "execute"]);
    let (_, sm) = m.subcommand().expect("expected distribution");
    assert!(matches!(
        parse_distribution_subcommand(sm),
        DistributionSubcommand::Execute(_)
    ));
}

#[test]
#[should_panic]
fn parse_top_level_command_panics_without_subcommand() {
    let app = Command::new("trust");
    let m = app.get_matches_from(["trust"]);
    let _ = parse_top_level_command(&m);
}
