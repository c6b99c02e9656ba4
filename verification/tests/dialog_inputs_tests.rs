use trust_cli::decimal::Decimal;
use trust_cli::dialogs::inputs::{
    ask_decimal, ask_fee, ask_quantity, confirmation_answer, decimal_answer, fee_answer, non_blank, optional_text_answer,
    pick_or_none, quantity_answer, selection_answer, text_answer, thesis_answer, FieldUpdate,
};
use trust_cli::dialogs::io::{DialogError, RecordingDialog, ScriptedDialog};
use trust_cli::parse::parse_i64;

fn ok(text: &str) -> Result<String, DialogError> {
    Ok(text.to_string())
}

fn failed() -> Result<String, DialogError> {
    Err(DialogError::other("terminal closed"))
}

fn notice<T>(u: &FieldUpdate<T>) -> String {
    u.notice().cloned().expect("a notice")
}

fn decimal_value(u: FieldUpdate<Option<Decimal>>) -> (i128, u32) {
    match u {
        FieldUpdate::Assign(Some(d)) => (d.mantissa(), d.scale()),
        _ => panic!("expected a value"),
    }
}

#[test]
fn integers_read_like_the_standard_parser() {
    assert_eq!(parse_i64("42"), Some(42));
    assert_eq!(parse_i64("+7"), Some(7));
    assert_eq!(parse_i64("-0"), Some(0));
    assert_eq!(parse_i64("-9223372036854775808"), Some(i64::MIN));
    assert_eq!(parse_i64("9223372036854775807"), Some(i64::MAX));
    assert_eq!(parse_i64("9223372036854775808"), None);
    assert_eq!(parse_i64("00000000000000000000000012"), Some(12));
    assert_eq!(parse_i64(""), None);
    assert_eq!(parse_i64("-"), None);
    assert_eq!(parse_i64(" 5"), None);
    assert_eq!(parse_i64("5 "), None);
    assert_eq!(parse_i64("1_000"), None);
    assert_eq!(parse_i64("12a"), None);
    for text in ["0", "-17", "+300", "123456789012", "x", "--1", "99999999999999999999"] {
        assert_eq!(parse_i64(text), text.parse::<i64>().ok(), "text {text:?}");
    }
}

#[test]
fn decimal_answers_take_numbers_and_refuse_other_text() {
    assert_eq!(decimal_value(decimal_answer(ok("100.25"), "entry price")), (10025, 2));
    assert_eq!(decimal_value(decimal_answer(ok("-3"), "amount")), (-3, 0));
    let refused = decimal_answer(ok("abc"), "entry price");
    assert_eq!(notice(&refused), "Please enter a valid number.");
    let failed_read = decimal_answer(failed(), "entry price");
    assert_eq!(notice(&failed_read), "Error reading entry price: terminal closed");
}

#[test]
fn fees_must_not_be_negative() {
    assert_eq!(decimal_value(fee_answer(ok("1.5"))), (15, 1));
    assert_eq!(decimal_value(fee_answer(ok("0"))), (0, 0));
    assert_eq!(decimal_value(fee_answer(ok("-0"))), (0, 0));
    assert_eq!(notice(&fee_answer(ok("-2"))), "Please enter a positive fee");
    assert_eq!(
        notice(&fee_answer(ok("two"))),
        "Please enter a valid number for the fee"
    );
    assert_eq!(
        notice(&fee_answer(failed())),
        "Error reading fee: terminal closed"
    );
}

#[test]
fn quantities_stay_within_the_maximum_and_above_zero() {
    assert!(matches!(quantity_answer(ok("10"), 10), FieldUpdate::Assign(Some(10))));
    assert!(matches!(quantity_answer(ok("-4"), 10), FieldUpdate::Assign(Some(-4))));
    assert_eq!(
        notice(&quantity_answer(ok("11"), 10)),
        "Please enter a number below your maximum allowed"
    );
    assert_eq!(notice(&quantity_answer(ok("0"), 10)), "Please enter a number above 0");
    assert_eq!(
        notice(&quantity_answer(ok("0"), -1)),
        "Please enter a number below your maximum allowed"
    );
    assert_eq!(notice(&quantity_answer(ok("1.5"), 10)), "Please enter a valid number.");
    assert_eq!(
        notice(&quantity_answer(failed(), 10)),
        "Error reading quantity: terminal closed"
    );
}

#[test]
fn accepted_quantities_are_never_zero_or_above_the_maximum() {
    for maximum in [-3i64, 0, 1, 25] {
        for typed in ["-5", "-1", "0", "1", "3", "25", "26", "100"] {
            if let FieldUpdate::Assign(Some(q)) = quantity_answer(ok(typed), maximum) {
                assert!(q != 0 && q <= maximum, "{typed} accepted under {maximum}");
            }
        }
    }
}

#[test]
fn thesis_is_limited_to_two_hundred_bytes() {
    assert!(matches!(thesis_answer(ok("")), FieldUpdate::Assign(None)));
    let long = "a".repeat(200);
    assert!(matches!(thesis_answer(Ok(long.clone())), FieldUpdate::Assign(Some(ref t)) if *t == long));
    assert_eq!(
        notice(&thesis_answer(Ok("a".repeat(201)))),
        "Thesis must be 200 characters or less"
    );
    let accented = "é".repeat(101);
    assert_eq!(accented.chars().count(), 101);
    assert_eq!(
        notice(&thesis_answer(Ok(accented))),
        "Thesis must be 200 characters or less"
    );
    assert!(matches!(thesis_answer(Ok("é".repeat(100))), FieldUpdate::Assign(Some(_))));
    assert_eq!(
        notice(&thesis_answer(failed())),
        "Error reading thesis: terminal closed"
    );
}

#[test]
fn optional_texts_clear_on_empty_answers() {
    assert!(matches!(optional_text_answer(ok(""), "sector"), FieldUpdate::Assign(None)));
    assert!(matches!(
        optional_text_answer(ok("technology"), "sector"),
        FieldUpdate::Assign(Some(ref s)) if s == "technology"
    ));
    assert!(matches!(
        optional_text_answer(ok(" "), "sector"),
        FieldUpdate::Assign(Some(ref s)) if s == " "
    ));
    assert_eq!(
        notice(&optional_text_answer(failed(), "context")),
        "Error reading context: terminal closed"
    );
}

#[test]
fn required_texts_are_taken_as_typed() {
    assert!(matches!(text_answer(ok(""), Some("name")), FieldUpdate::Assign(ref s) if s.is_empty()));
    assert_eq!(
        notice(&text_answer(failed(), Some("key id"))),
        "Error reading key id: terminal closed"
    );
    assert!(matches!(text_answer(failed(), None), FieldUpdate::Unchanged));
}

#[test]
fn selections_map_picks_to_options() {
    let options = [10u8, 20, 30];
    assert!(matches!(
        selection_answer(&options, Ok(Some(1)), Some("category")),
        FieldUpdate::Assign(Some(20))
    ));
    assert!(matches!(
        selection_answer(&options, Ok(Some(3)), Some("category")),
        FieldUpdate::Assign(None)
    ));
    assert!(matches!(
        selection_answer(&options, Ok(None), Some("category")),
        FieldUpdate::Unchanged
    ));
    assert_eq!(
        notice(&selection_answer(
            &options,
            Err(DialogError::other("no tty")),
            Some("currency")
        )),
        "Error selecting currency: no tty"
    );
    assert!(matches!(
        selection_answer(&options, Err(DialogError::other("no tty")), None),
        FieldUpdate::Unchanged
    ));
    assert_eq!(pick_or_none(&options, Ok(Some(2))), Some(30));
    assert_eq!(pick_or_none(&options, Ok(None)), None);
    assert_eq!(pick_or_none(&options, Err(DialogError::other("x"))), None);
}

#[test]
fn confirmations_set_switches_unless_the_question_fails() {
    assert!(matches!(confirmation_answer(Ok(false)), FieldUpdate::Assign(false)));
    assert!(matches!(
        confirmation_answer(Err(DialogError::other("x"))),
        FieldUpdate::Unchanged
    ));
    assert!(FieldUpdate::<bool>::Unchanged.apply(true));
    assert!(!FieldUpdate::Assign(false).apply(true));
}

#[test]
fn blank_isin_is_dropped() {
    assert_eq!(non_blank(Some(" \t ".to_string())), None);
    assert_eq!(non_blank(Some(String::new())), None);
    assert_eq!(non_blank(None), None);
    assert_eq!(
        non_blank(Some(" US0378331005 ".to_string())),
        Some(" US0378331005 ".to_string())
    );
}

#[test]
fn scripted_answers_drive_the_prompts() {
    let mut io = RecordingDialog::new(ScriptedDialog::new());
    io.inner.push_input(Ok("12.5".to_string()));
    io.inner.push_input(Ok("-1".to_string()));
    io.inner.push_input(Ok("7".to_string()));
    assert_eq!(decimal_value(ask_decimal(&mut io, "Entry price", "entry price")), (125, 1));
    assert_eq!(notice(&ask_fee(&mut io)), "Please enter a positive fee");
    assert!(matches!(ask_quantity(&mut io, 10), FieldUpdate::Assign(Some(7))));
    assert_eq!(
        notice(&ask_quantity(&mut io, 10)),
        "Error reading quantity: no scripted input response"
    );
}
