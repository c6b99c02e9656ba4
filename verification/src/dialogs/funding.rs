//! Whether a trade is funded after the advisory check: a blocked trade
//! never is, a trade without concerns always is, and in between the user
//! is asked and must say yes.

use vstd::prelude::*;
use crate::dialogs::io::{last_reply, DialogError, DialogIo, Exchange, RecordingDialog};

verus! {

/// How strongly the advisory check warns about a trade.
#[derive(Clone, Copy, Debug, PartialEq, Eq, Structural)]
pub enum AdvisoryAlertLevel {
    NoConcern,
    Caution,
    Warning,
    Block,
}

/// Whether the user is asked before a trade with this alert is funded.
pub open spec fn asks_to_proceed(level: AdvisoryAlertLevel) -> bool {
    level == AdvisoryAlertLevel::Caution || level == AdvisoryAlertLevel::Warning
}

/// Whether the user is asked before a trade with this alert is funded.
pub fn needs_confirmation(level: AdvisoryAlertLevel) -> (r: bool)
    ensures
        r == asks_to_proceed(level),
{
    match level {
        AdvisoryAlertLevel::Caution | AdvisoryAlertLevel::Warning => true,
        _ => false,
    }
}

/// The reason given when the advisory limits block a trade.
pub open spec fn blocked_reason() -> Seq<char> {
    "Trade blocked by advisory limits"@
}

/// The reason given when the user declines after a warning.
pub open spec fn declined_reason() -> Seq<char> {
    "Funding canceled by user after advisory"@
}

/// The decision for a trade with the given alert: `Ok` to fund it, or the
/// reason it is not funded. `answer` is the user's reply to the question
/// asked for a caution or a warning; a failed question counts as no.
pub open spec fn advisory_decision(level: AdvisoryAlertLevel, answer: Result<bool, DialogError>, r: Result<(), &str>) -> bool {
    match level {
        AdvisoryAlertLevel::NoConcern => r is Ok,
        AdvisoryAlertLevel::Block => r matches Err(m) && m@ == blocked_reason(),
        _ => match answer {
            Ok(true) => r is Ok,
            _ => r matches Err(m) && m@ == declined_reason(),
        },
    }
}

/// Decides whether to fund, given the alert and the user's reply (read only
/// for a caution or a warning).
pub fn advisory_gate(level: AdvisoryAlertLevel, answer: Result<bool, DialogError>) -> (r: Result<(), &'static str>)
    ensures
        advisory_decision(level, answer, r),
{
    proof {
        reveal_strlit("Trade blocked by advisory limits");
        reveal_strlit("Funding canceled by user after advisory");
    }
    match level {
        AdvisoryAlertLevel::NoConcern => Ok(()),
        AdvisoryAlertLevel::Block => Err("Trade blocked by advisory limits"),
        _ => match answer {
            Ok(true) => Ok(()),
            _ => Err("Funding canceled by user after advisory"),
        },
    }
}

/// Decides whether to fund a trade with the given alert, asking the user
/// (default no) only for a caution or a warning.
pub fn confirm_funding<I: DialogIo>(io: &mut RecordingDialog<I>, level: AdvisoryAlertLevel) -> (r: Result<(), &'static str>)
    ensures
        !asks_to_proceed(level) ==> final(io).exchanges() == old(io).exchanges(),
        level == AdvisoryAlertLevel::NoConcern ==> r is Ok,
        level == AdvisoryAlertLevel::Block ==> (r matches Err(m) && m@ == blocked_reason()),
        asks_to_proceed(level) ==> final(io).exchanges() == old(io).exchanges().push(
            Exchange::Confirm {
                prompt: "Proceed with funding anyway?"@,
                default_answer: false,
                reply: last_reply(final(io).exchanges()),
            },
        ),
        asks_to_proceed(level) ==> advisory_decision(level, last_reply(final(io).exchanges()), r),
{
    if needs_confirmation(level) {
        let answer = io.confirm("Proceed with funding anyway?", false);
        advisory_gate(level, answer)
    } else {
        let r = advisory_gate(level, Ok(false));
        r
    }
}

/// A blocked trade is never funded, whatever the user answers; a trade
/// without concerns is always funded; otherwise only a yes funds it.
pub proof fn lemma_advisory_outcomes(level: AdvisoryAlertLevel, answer: Result<bool, DialogError>, r: Result<(), &str>)
    requires
        advisory_decision(level, answer, r),
    ensures
        level == AdvisoryAlertLevel::Block ==> r is Err,
        level == AdvisoryAlertLevel::NoConcern ==> r is Ok,
        r is Ok ==> level == AdvisoryAlertLevel::NoConcern || answer == Ok::<bool, DialogError>(true),
{
}

/// The user is asked before funding exactly when the advisory check warns
/// or cautions, never for a trade without concerns or a blocked one; and
/// for a warning as for a caution, a yes funds the trade and any other
/// reply (a no, or a failed question) does not.
pub proof fn lemma_warnings_are_asked(level: AdvisoryAlertLevel, answer: Result<bool, DialogError>, r: Result<(), &str>)
    ensures
        asks_to_proceed(level) <==> (level == AdvisoryAlertLevel::Caution || level == AdvisoryAlertLevel::Warning),
        (level == AdvisoryAlertLevel::Caution || level == AdvisoryAlertLevel::Warning) && advisory_decision(level, answer, r) ==> (
            r is Ok <==> answer == Ok::<bool, DialogError>(true)),
{
}

} // verus!
