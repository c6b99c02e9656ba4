//! What an answer typed or picked at a dialog prompt does to the field it
//! fills: the field takes a value, keeps its value, or keeps it while the
//! user is shown a notice.

use vstd::prelude::*;
use crate::decimal::{decimal_from_text, Decimal};
use crate::dialogs::io::{last_picked, DialogError, DialogIo, Exchange, RecordingDialog};
use crate::parse::{i64_from_text, parse_i64};
use crate::text::{byte_len, byte_len_exceeds, trim, trim_spec};

verus! {

/// What an answer does to the field it fills.
pub enum FieldUpdate<T> {
    /// The field takes this value.
    Assign(T),
    /// The field keeps its value.
    Unchanged,
    /// The field keeps its value and the user is shown this notice.
    Refused(String),
}

/// The field's value after an update.
pub open spec fn applied<T>(u: FieldUpdate<T>, current: T) -> T {
    match u {
        FieldUpdate::Assign(v) => v,
        _ => current,
    }
}

/// Whether the update is a refusal with the notice `text`.
pub open spec fn refused_with<T>(u: FieldUpdate<T>, text: Seq<char>) -> bool {
    u matches FieldUpdate::Refused(m) && m@ == text
}

impl<T> FieldUpdate<T> {
    /// The field's value after this update.
    pub fn apply(self, current: T) -> (r: T)
        ensures
            r == applied(self, current),
    {
        match self {
            FieldUpdate::Assign(v) => v,
            _ => current,
        }
    }

    /// The notice to show, if any.
    pub fn notice(&self) -> (r: Option<&String>)
        ensures
            match *self {
                FieldUpdate::Refused(m) => r == Some(&m),
                _ => r is None,
            },
    {
        match self {
            FieldUpdate::Refused(m) => Some(m),
            _ => None,
        }
    }
}

/// The name of a field, when one is given.
pub open spec fn name_view(what: Option<&str>) -> Option<Seq<char>> {
    match what {
        Some(w) => Some(w@),
        None => None,
    }
}

/// The notice for a prompt whose answer could not be read.
pub open spec fn reading_error(what: Seq<char>, message: Seq<char>) -> Seq<char> {
    "Error reading "@ + what + ": "@ + message
}

/// The notice for a selection that failed.
pub open spec fn selecting_error(what: Seq<char>, message: Seq<char>) -> Seq<char> {
    "Error selecting "@ + what + ": "@ + message
}

/// `prefix`, `what`, a colon and a space, then `message`.
fn notice_text(prefix: &str, what: &str, message: &str) -> (r: String)
    ensures
        r@ == prefix@ + what@ + ": "@ + message@,
{
    let mut r = String::from_str(prefix);
    r.append(what);
    r.append(": ");
    r.append(message);
    proof {
        reveal_strlit(": ");
    }
    r
}

fn reading_notice(what: &str, e: &DialogError) -> (r: String)
    ensures
        r@ == reading_error(what@, e.message@),
{
    proof {
        reveal_strlit("Error reading ");
    }
    notice_text("Error reading ", what, e.message.as_str())
}

fn selecting_notice(what: &str, e: &DialogError) -> (r: String)
    ensures
        r@ == selecting_error(what@, e.message@),
{
    proof {
        reveal_strlit("Error selecting ");
    }
    notice_text("Error selecting ", what, e.message.as_str())
}

fn refusal<T>(text: &str) -> (r: FieldUpdate<T>)
    ensures
        refused_with(r, text@),
{
    FieldUpdate::Refused(String::from_str(text))
}

/// Whether one line of text was asked for, with `prompt` and `allow_empty`,
/// and `answer` came back.
pub open spec fn asked_text(
    before: Seq<Exchange>,
    after: Seq<Exchange>,
    prompt: Seq<char>,
    allow_empty: bool,
    answer: Result<String, DialogError>,
) -> bool {
    after == before.push(Exchange::Input { prompt, allow_empty, typed: answer })
}

/// What a typed number does to a decimal field: a number the decimal
/// parser reads is taken; any other text is refused; a failed prompt is
/// reported with `what` it was asking for.
pub open spec fn decimal_answer_result(
    answer: Result<String, DialogError>,
    what: Seq<char>,
    r: FieldUpdate<Option<Decimal>>,
) -> bool {
    match answer {
        Ok(raw) => match decimal_from_text(raw@) {
            Some(v) => r matches FieldUpdate::Assign(Some(d)) && d@ == v,
            None => refused_with(r, "Please enter a valid number."@),
        },
        Err(e) => refused_with(r, reading_error(what, e.message@)),
    }
}

/// The update a typed decimal answer makes (prices, amounts, percentages).
pub fn decimal_answer(answer: Result<String, DialogError>, what: &str) -> (r: FieldUpdate<Option<Decimal>>)
    ensures
        decimal_answer_result(answer, what@, r),
{
    match answer {
        Ok(raw) => match Decimal::from_text(raw.as_str()) {
            Some(v) => FieldUpdate::Assign(Some(v)),
            None => {
                proof {
                    reveal_strlit("Please enter a valid number.");
                }
                refusal("Please enter a valid number.")
            },
        },
        Err(e) => FieldUpdate::Refused(reading_notice(what, &e)),
    }
}

/// Asks for a decimal number and says what the answer does to the field.
pub fn ask_decimal<I: DialogIo>(io: &mut RecordingDialog<I>, prompt: &str, what: &str) -> (r: FieldUpdate<Option<Decimal>>)
    ensures
        exists|answer: Result<String, DialogError>| #[trigger] asked_text(old(io).exchanges(), final(io).exchanges(), prompt@, false, answer)
            && decimal_answer_result(answer, what@, r),
{
    let answer = io.input_text(prompt, false);
    let ghost a = answer;
    let r = decimal_answer(answer, what);
    assert(decimal_answer_result(a, what@, r));
    assert(asked_text(old(io).exchanges(), io.exchanges(), prompt@, false, a));
    r
}

/// What a typed fee does: a negative number is refused, as is text that
/// is no number; a failed prompt is reported.
pub open spec fn fee_answer_result(answer: Result<String, DialogError>, r: FieldUpdate<Option<Decimal>>) -> bool {
    match answer {
        Ok(raw) => match decimal_from_text(raw@) {
            Some(v) => if v.negative {
                refused_with(r, "Please enter a positive fee"@)
            } else {
                r matches FieldUpdate::Assign(Some(d)) && d@ == v
            },
            None => refused_with(r, "Please enter a valid number for the fee"@),
        },
        Err(e) => refused_with(r, reading_error("fee"@, e.message@)),
    }
}

/// The update a typed fee makes.
pub fn fee_answer(answer: Result<String, DialogError>) -> (r: FieldUpdate<Option<Decimal>>)
    ensures
        fee_answer_result(answer, r),
        r matches FieldUpdate::Assign(Some(d)) ==> !d@.negative,
{
    match answer {
        Ok(raw) => match Decimal::from_text(raw.as_str()) {
            Some(v) => if v.is_sign_negative() {
                proof {
                    reveal_strlit("Please enter a positive fee");
                }
                refusal("Please enter a positive fee")
            } else {
                FieldUpdate::Assign(Some(v))
            },
            None => {
                proof {
                    reveal_strlit("Please enter a valid number for the fee");
                }
                refusal("Please enter a valid number for the fee")
            },
        },
        Err(e) => {
            proof {
                reveal_strlit("fee");
            }
            FieldUpdate::Refused(reading_notice("fee", &e))
        },
    }
}

/// Asks for the fee of a trade exit.
pub fn ask_fee<I: DialogIo>(io: &mut RecordingDialog<I>) -> (r: FieldUpdate<Option<Decimal>>)
    ensures
        exists|answer: Result<String, DialogError>| #[trigger] asked_text(old(io).exchanges(), final(io).exchanges(), "Fee"@, false, answer)
            && fee_answer_result(answer, r),
        r matches FieldUpdate::Assign(Some(d)) ==> !d@.negative,
{
    let answer = io.input_text("Fee", false);
    let ghost a = answer;
    let r = fee_answer(answer);
    assert(fee_answer_result(a, r));
    assert(asked_text(old(io).exchanges(), io.exchanges(), "Fee"@, false, a));
    r
}

/// What a typed quantity does: an integer above `maximum` is refused, zero
/// is refused, any other integer is taken; text that is no integer is
/// refused; a failed prompt is reported.
pub open spec fn quantity_answer_result(answer: Result<String, DialogError>, maximum: i64, r: FieldUpdate<Option<i64>>) -> bool {
    match answer {
        Ok(raw) => match i64_from_text(raw@) {
            Some(q) => if q > maximum {
                refused_with(r, "Please enter a number below your maximum allowed"@)
            } else if q == 0 {
                refused_with(r, "Please enter a number above 0"@)
            } else {
                r == FieldUpdate::<Option<i64>>::Assign(Some(q))
            },
            None => refused_with(r, "Please enter a valid number."@),
        },
        Err(e) => refused_with(r, reading_error("quantity"@, e.message@)),
    }
}

/// The update a typed quantity makes, given the largest quantity allowed.
pub fn quantity_answer(answer: Result<String, DialogError>, maximum: i64) -> (r: FieldUpdate<Option<i64>>)
    ensures
        quantity_answer_result(answer, maximum, r),
{
    match answer {
        Ok(raw) => match parse_i64(raw.as_str()) {
            Some(q) => if q > maximum {
                proof {
                    reveal_strlit("Please enter a number below your maximum allowed");
                }
                refusal("Please enter a number below your maximum allowed")
            } else if q == 0 {
                proof {
                    reveal_strlit("Please enter a number above 0");
                }
                refusal("Please enter a number above 0")
            } else {
                FieldUpdate::Assign(Some(q))
            },
            None => {
                proof {
                    reveal_strlit("Please enter a valid number.");
                }
                refusal("Please enter a valid number.")
            },
        },
        Err(e) => {
            proof {
                reveal_strlit("quantity");
            }
            FieldUpdate::Refused(reading_notice("quantity", &e))
        },
    }
}

/// Asks for a trade's quantity, at most `maximum`.
pub fn ask_quantity<I: DialogIo>(io: &mut RecordingDialog<I>, maximum: i64) -> (r: FieldUpdate<Option<i64>>)
    ensures
        exists|answer: Result<String, DialogError>| #[trigger] asked_text(old(io).exchanges(), final(io).exchanges(), "Quantity"@, false, answer)
            && quantity_answer_result(answer, maximum, r),
{
    let answer = io.input_text("Quantity", false);
    let ghost a = answer;
    let r = quantity_answer(answer, maximum);
    assert(quantity_answer_result(a, maximum, r));
    assert(asked_text(old(io).exchanges(), io.exchanges(), "Quantity"@, false, a));
    r
}

/// A quantity the dialog takes is never zero and never above the maximum.
pub proof fn lemma_accepted_quantity_in_bounds(answer: Result<String, DialogError>, maximum: i64, r: FieldUpdate<Option<i64>>)
    requires
        quantity_answer_result(answer, maximum, r),
    ensures
        r matches FieldUpdate::Assign(Some(q)) ==> q != 0 && q <= maximum,
        r matches FieldUpdate::Assign(v) ==> v is Some,
{
}

/// What a typed text does to a required text field: the text is taken as
/// typed; a failed prompt is reported when `what` names the field, and
/// passed over silently otherwise.
pub open spec fn text_answer_result(answer: Result<String, DialogError>, what: Option<Seq<char>>, r: FieldUpdate<String>) -> bool {
    match answer {
        Ok(text) => r matches FieldUpdate::Assign(t) && t@ == text@,
        Err(e) => match what {
            Some(w) => refused_with(r, reading_error(w, e.message@)),
            None => r is Unchanged,
        },
    }
}

/// The update a typed text makes.
pub fn text_answer(answer: Result<String, DialogError>, what: Option<&str>) -> (r: FieldUpdate<String>)
    ensures
        text_answer_result(
            answer,
            name_view(what),
            r,
        ),
{
    match answer {
        Ok(text) => FieldUpdate::Assign(text),
        Err(e) => match what {
            Some(w) => FieldUpdate::Refused(reading_notice(w, &e)),
            None => FieldUpdate::Unchanged,
        },
    }
}

/// What a typed text does to an optional text field: an empty answer clears
/// it, any other is taken; a failed prompt is reported.
pub open spec fn optional_text_answer_result(answer: Result<String, DialogError>, what: Seq<char>, r: FieldUpdate<Option<String>>) -> bool {
    match answer {
        Ok(text) => if text@.len() == 0 {
            r matches FieldUpdate::Assign(v) && v is None
        } else {
            r matches FieldUpdate::Assign(Some(t)) && t@ == text@
        },
        Err(e) => refused_with(r, reading_error(what, e.message@)),
    }
}

/// The update a typed optional text makes (sector, asset class, context).
pub fn optional_text_answer(answer: Result<String, DialogError>, what: &str) -> (r: FieldUpdate<Option<String>>)
    ensures
        optional_text_answer_result(answer, what@, r),
{
    match answer {
        Ok(text) => if text.unicode_len() == 0 {
            FieldUpdate::Assign(None)
        } else {
            FieldUpdate::Assign(Some(text))
        },
        Err(e) => FieldUpdate::Refused(reading_notice(what, &e)),
    }
}

/// Asks for an optional text; an empty answer is allowed.
pub fn ask_optional_text<I: DialogIo>(io: &mut RecordingDialog<I>, prompt: &str, what: &str) -> (r: FieldUpdate<Option<String>>)
    ensures
        exists|answer: Result<String, DialogError>| #[trigger] asked_text(old(io).exchanges(), final(io).exchanges(), prompt@, true, answer)
            && optional_text_answer_result(answer, what@, r),
{
    let answer = io.input_text(prompt, true);
    let ghost a = answer;
    let r = optional_text_answer(answer, what);
    assert(optional_text_answer_result(a, what@, r));
    assert(asked_text(old(io).exchanges(), io.exchanges(), prompt@, true, a));
    r
}

/// The longest trade thesis, in bytes of UTF-8.
pub const MAX_THESIS_BYTES: usize = 200;

/// What a typed thesis does: an empty one clears the field, one longer than
/// 200 bytes is refused, any other is taken; a failed prompt is reported.
pub open spec fn thesis_answer_result(answer: Result<String, DialogError>, r: FieldUpdate<Option<String>>) -> bool {
    match answer {
        Ok(text) => if text@.len() == 0 {
            r matches FieldUpdate::Assign(v) && v is None
        } else if byte_len(text@) > MAX_THESIS_BYTES {
            refused_with(r, "Thesis must be 200 characters or less"@)
        } else {
            r matches FieldUpdate::Assign(Some(t)) && t@ == text@
        },
        Err(e) => refused_with(r, reading_error("thesis"@, e.message@)),
    }
}

/// The update a typed thesis makes.
pub fn thesis_answer(answer: Result<String, DialogError>) -> (r: FieldUpdate<Option<String>>)
    ensures
        thesis_answer_result(answer, r),
        r matches FieldUpdate::Assign(Some(t)) ==> byte_len(t@) <= MAX_THESIS_BYTES,
{
    match answer {
        Ok(text) => if text.unicode_len() == 0 {
            FieldUpdate::Assign(None)
        } else if byte_len_exceeds(text.as_str(), MAX_THESIS_BYTES) {
            proof {
                reveal_strlit("Thesis must be 200 characters or less");
            }
            refusal("Thesis must be 200 characters or less")
        } else {
            FieldUpdate::Assign(Some(text))
        },
        Err(e) => {
            proof {
                reveal_strlit("thesis");
            }
            FieldUpdate::Refused(reading_notice("thesis", &e))
        },
    }
}

/// What a pick from `options` does: a pick sets the field to the option at
/// that place, or to nothing when the place is past the end; a cancelled
/// pick changes nothing; a failed prompt is reported when `what` names the
/// field, and passed over silently otherwise.
pub open spec fn selection_answer_result<T>(
    options: Seq<T>,
    answer: Result<Option<usize>, DialogError>,
    what: Option<Seq<char>>,
    r: FieldUpdate<Option<T>>,
) -> bool {
    match answer {
        Ok(Some(i)) => r == FieldUpdate::<Option<T>>::Assign(
            if i < options.len() {
                Some(options[i as int])
            } else {
                None
            },
        ),
        Ok(None) => r is Unchanged,
        Err(e) => match what {
            Some(w) => refused_with(r, selecting_error(w, e.message@)),
            None => r is Unchanged,
        },
    }
}

/// The update a pick from `options` makes.
pub fn selection_answer<T: Copy>(options: &[T], answer: Result<Option<usize>, DialogError>, what: Option<&str>) -> (r: FieldUpdate<Option<T>>)
    ensures
        selection_answer_result(
            options@,
            answer,
            name_view(what),
            r,
        ),
{
    match answer {
        Ok(Some(i)) => if i < options.len() {
            FieldUpdate::Assign(Some(options[i]))
        } else {
            FieldUpdate::Assign(None)
        },
        Ok(None) => FieldUpdate::Unchanged,
        Err(e) => match what {
            Some(w) => FieldUpdate::Refused(selecting_notice(w, &e)),
            None => FieldUpdate::Unchanged,
        },
    }
}

/// Lets the user pick one of `options`, shown by `labels`, and says what
/// the pick does to the field.
pub fn ask_selection<I: DialogIo, T: Copy>(
    io: &mut RecordingDialog<I>,
    prompt: &str,
    labels: &[String],
    options: &[T],
    what: Option<&str>,
) -> (r: FieldUpdate<Option<T>>)
    ensures
        final(io).exchanges() == old(io).exchanges().push(
            Exchange::Select { prompt: prompt@, labels: labels@, default_index: 0, picked: last_picked(final(io).exchanges()) },
        ),
        selection_answer_result(options@, last_picked(final(io).exchanges()), name_view(what), r),
{
    let answer = io.select_index(prompt, labels, 0);
    let ghost a = answer;
    let r = selection_answer(options, answer, what);
    assert(selection_answer_result(
        options@,
        a,
        name_view(what),
        r,
    ));
    r
}

/// The option picked, or nothing when the pick was cancelled, failed or
/// fell past the end of `options`.
pub open spec fn picked_or_none<T>(options: Seq<T>, answer: Result<Option<usize>, DialogError>) -> Option<T> {
    match answer {
        Ok(Some(i)) => if i < options.len() {
            Some(options[i as int])
        } else {
            None
        },
        _ => None,
    }
}

/// The option a pick names; nothing when there was no usable pick (the
/// field is overwritten either way).
pub fn pick_or_none<T: Copy>(options: &[T], answer: Result<Option<usize>, DialogError>) -> (r: Option<T>)
    ensures
        r == picked_or_none(options@, answer),
{
    match answer {
        Ok(Some(i)) => if i < options.len() {
            Some(options[i])
        } else {
            None
        },
        _ => None,
    }
}

/// What a yes/no answer does to a switch: a reply sets it, a failed
/// question leaves it.
pub open spec fn confirmation_answer_result(answer: Result<bool, DialogError>, r: FieldUpdate<bool>) -> bool {
    match answer {
        Ok(v) => r == FieldUpdate::<bool>::Assign(v),
        Err(_) => r is Unchanged,
    }
}

/// The update a yes/no answer makes.
pub fn confirmation_answer(answer: Result<bool, DialogError>) -> (r: FieldUpdate<bool>)
    ensures
        confirmation_answer_result(answer, r),
{
    match answer {
        Ok(v) => FieldUpdate::Assign(v),
        Err(_) => FieldUpdate::Unchanged,
    }
}

/// A value that is only kept when it has something besides white space.
pub open spec fn non_blank_spec(value: Option<Seq<char>>) -> Option<Seq<char>> {
    match value {
        Some(v) => if trim_spec(v).len() == 0 {
            None
        } else {
            Some(v)
        },
        None => None,
    }
}

/// Drops an optional text that is empty or only white space (an ISIN left
/// blank).
pub fn non_blank(value: Option<String>) -> (r: Option<String>)
    ensures
        match r {
            Some(t) => non_blank_spec(
                match value {
                    Some(v) => Some(v@),
                    None => None,
                },
            ) == Some(t@),
            None => non_blank_spec(
                match value {
                    Some(v) => Some(v@),
                    None => None,
                },
            ) is None,
        },
{
    match value {
        Some(v) => {
            let t = trim(v.as_str());
            if t.unicode_len() == 0 {
                None
            } else {
                Some(v)
            }
        },
        None => None,
    }
}

} // verus!
