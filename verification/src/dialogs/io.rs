//! The prompt interface of the dialogs and a scripted implementation of it.

use vstd::prelude::*;

verus! {

/// What kind of failure a prompt reports.
#[derive(Clone, Copy, Debug, PartialEq, Eq, Structural)]
pub enum DialogErrorKind {
    /// Nothing to choose from.
    NotFound,
    /// The user gave no usable answer (cancelled or out of range).
    InvalidInput,
    /// The prompt is not available.
    Unsupported,
    /// The terminal or backend failed.
    Other,
}

/// A failed prompt: its kind and a message.
#[derive(Clone, Debug)]
pub struct DialogError {
    pub kind: DialogErrorKind,
    pub message: String,
}

impl DialogError {
    /// An error of the given kind and message.
    pub fn new(kind: DialogErrorKind, message: &str) -> (r: DialogError)
        ensures
            r.kind == kind,
            r.message@ == message@,
    {
        DialogError { kind, message: String::from_str(message) }
    }

    /// A backend failure with the given message.
    pub fn other(message: &str) -> (r: DialogError)
        ensures
            r.kind == DialogErrorKind::Other,
            r.message@ == message@,
    {
        DialogError::new(DialogErrorKind::Other, message)
    }

    /// The error's message.
    pub fn to_text(&self) -> (r: String)
        ensures
            r@ == self.message@,
    {
        self.message.clone()
    }
}

/// One question put to the user, with the answer that came back.
pub enum Exchange {
    /// A pick among `labels`, `default_index` preselected.
    Select { prompt: Seq<char>, labels: Seq<String>, default_index: usize, picked: Result<Option<usize>, DialogError> },
    /// A yes/no question, `default_answer` preselected.
    Confirm { prompt: Seq<char>, default_answer: bool, reply: Result<bool, DialogError> },
    /// A line of text; `allow_empty` says whether an empty line is accepted.
    Input { prompt: Seq<char>, allow_empty: bool, typed: Result<String, DialogError> },
}

/// The answer to the last question, when it was a pick.
pub open spec fn last_picked(log: Seq<Exchange>) -> Result<Option<usize>, DialogError> {
    log.last()->picked
}

/// The labels shown at the last question, when it was a pick.
pub open spec fn last_labels(log: Seq<Exchange>) -> Seq<String> {
    log.last()->labels
}

/// The answer to the last question, when it was a yes/no question.
pub open spec fn last_reply(log: Seq<Exchange>) -> Result<bool, DialogError> {
    log.last()->reply
}

/// The answer to the last question, when it asked for text.
pub open spec fn last_typed(log: Seq<Exchange>) -> Result<String, DialogError> {
    log.last()->typed
}

/// A way to ask the user: pick from a list, confirm, or type text.
pub trait DialogIo {
    /// Lets the user pick one of `labels`; `None` when cancelled.
    fn select_index(&mut self, prompt: &str, labels: &[String], default: usize) -> Result<Option<usize>, DialogError>;

    /// Asks a yes/no question.
    fn confirm(&mut self, prompt: &str, default: bool) -> Result<bool, DialogError>;

    /// Asks for a line of text; a prompt that does not implement this
    /// answers that it is not available.
    fn input_text(&mut self, prompt: &str, allow_empty: bool) -> Result<String, DialogError> {
        Err(DialogError::new(DialogErrorKind::Unsupported, "input_text not implemented"))
    }
}

/// Prompts asked through `inner`, each question recorded, with the answer
/// that came back, in `exchanges`.
pub struct RecordingDialog<I> {
    pub inner: I,
    asked: Ghost<Seq<Exchange>>,
}

impl<I: DialogIo> RecordingDialog<I> {
    /// The questions asked so far and their answers, oldest first.
    pub closed spec fn exchanges(&self) -> Seq<Exchange> {
        self.asked@
    }

    /// The prompts asked through.
    pub closed spec fn prompts(&self) -> I {
        self.inner
    }

    /// Asks through `inner`; nothing asked yet.
    pub fn new(inner: I) -> (r: Self)
        ensures
            r.prompts() == inner,
            r.exchanges() == Seq::<Exchange>::empty(),
    {
        RecordingDialog { inner, asked: Ghost(Seq::empty()) }
    }

    /// Lets the user pick one of `labels`; `None` when cancelled.
    pub fn select_index(&mut self, prompt: &str, labels: &[String], default: usize) -> (r: Result<Option<usize>, DialogError>)
        ensures
            final(self).exchanges() == old(self).exchanges().push(
                Exchange::Select { prompt: prompt@, labels: labels@, default_index: default, picked: r },
            ),
    {
        let r = self.inner.select_index(prompt, labels, default);
        self.asked = Ghost(self.asked@.push(
            Exchange::Select { prompt: prompt@, labels: labels@, default_index: default, picked: r },
        ));
        r
    }

    /// Asks a yes/no question.
    pub fn confirm(&mut self, prompt: &str, default: bool) -> (r: Result<bool, DialogError>)
        ensures
            final(self).exchanges() == old(self).exchanges().push(
                Exchange::Confirm { prompt: prompt@, default_answer: default, reply: r },
            ),
    {
        let r = self.inner.confirm(prompt, default);
        self.asked = Ghost(self.asked@.push(Exchange::Confirm { prompt: prompt@, default_answer: default, reply: r }));
        r
    }

    /// Asks for a line of text.
    pub fn input_text(&mut self, prompt: &str, allow_empty: bool) -> (r: Result<String, DialogError>)
        ensures
            final(self).exchanges() == old(self).exchanges().push(
                Exchange::Input { prompt: prompt@, allow_empty, typed: r },
            ),
    {
        let r = self.inner.input_text(prompt, allow_empty);
        self.asked = Ghost(self.asked@.push(Exchange::Input { prompt: prompt@, allow_empty, typed: r }));
        r
    }
}

/// Answers prepared in advance, given out in the order they were added;
/// when none is left, each prompt fails with a message naming what was
/// missing.
pub struct ScriptedDialog {
    selects: Vec<Result<Option<usize>, DialogError>>,
    confirms: Vec<Result<bool, DialogError>>,
    inputs: Vec<Result<String, DialogError>>,
}

impl ScriptedDialog {
    pub closed spec fn selects(&self) -> Seq<Result<Option<usize>, DialogError>> {
        self.selects@
    }

    pub closed spec fn confirms(&self) -> Seq<Result<bool, DialogError>> {
        self.confirms@
    }

    pub closed spec fn inputs(&self) -> Seq<Result<String, DialogError>> {
        self.inputs@
    }

    /// No answers prepared.
    pub fn new() -> (r: ScriptedDialog)
        ensures
            r.selects() == Seq::<Result<Option<usize>, DialogError>>::empty(),
            r.confirms() == Seq::<Result<bool, DialogError>>::empty(),
            r.inputs() == Seq::<Result<String, DialogError>>::empty(),
    {
        ScriptedDialog { selects: Vec::new(), confirms: Vec::new(), inputs: Vec::new() }
    }

    /// Queues the answer to a later selection.
    pub fn push_select(&mut self, result: Result<Option<usize>, DialogError>)
        ensures
            final(self).selects() == old(self).selects().push(result),
            final(self).confirms() == old(self).confirms(),
            final(self).inputs() == old(self).inputs(),
    {
        self.selects.push(result);
    }

    /// Queues the answer to a later confirmation.
    pub fn push_confirm(&mut self, result: Result<bool, DialogError>)
        ensures
            final(self).confirms() == old(self).confirms().push(result),
            final(self).selects() == old(self).selects(),
            final(self).inputs() == old(self).inputs(),
    {
        self.confirms.push(result);
    }

    /// Queues the answer to a later text prompt.
    pub fn push_input(&mut self, result: Result<String, DialogError>)
        ensures
            final(self).inputs() == old(self).inputs().push(result),
            final(self).selects() == old(self).selects(),
            final(self).confirms() == old(self).confirms(),
    {
        self.inputs.push(result);
    }

    /// Drops every queued answer.
    pub fn reset(&mut self)
        ensures
            final(self).selects() == Seq::<Result<Option<usize>, DialogError>>::empty(),
            final(self).confirms() == Seq::<Result<bool, DialogError>>::empty(),
            final(self).inputs() == Seq::<Result<String, DialogError>>::empty(),
    {
        self.selects = Vec::new();
        self.confirms = Vec::new();
        self.inputs = Vec::new();
    }

    /// The oldest queued selection answer, or an error when none is left.
    pub fn next_select(&mut self) -> (r: Result<Option<usize>, DialogError>)
        ensures
            gives_oldest(old(self).selects(), final(self).selects(), r, "no scripted selection response"@),
            final(self).confirms() == old(self).confirms(),
            final(self).inputs() == old(self).inputs(),
    {
        if self.selects.len() > 0 {
            let r = self.selects.remove(0);
            assert(self.selects@ =~= old(self).selects@.drop_first());
            r
        } else {
            proof {
                reveal_strlit("no scripted selection response");
            }
            Err(DialogError::other("no scripted selection response"))
        }
    }

    /// The oldest queued confirmation answer, or an error when none is left.
    pub fn next_confirm(&mut self) -> (r: Result<bool, DialogError>)
        ensures
            gives_oldest(old(self).confirms(), final(self).confirms(), r, "no scripted confirm response"@),
            final(self).selects() == old(self).selects(),
            final(self).inputs() == old(self).inputs(),
    {
        if self.confirms.len() > 0 {
            let r = self.confirms.remove(0);
            assert(self.confirms@ =~= old(self).confirms@.drop_first());
            r
        } else {
            proof {
                reveal_strlit("no scripted confirm response");
            }
            Err(DialogError::other("no scripted confirm response"))
        }
    }

    /// The oldest queued text answer, or an error when none is left.
    pub fn next_input(&mut self) -> (r: Result<String, DialogError>)
        ensures
            gives_oldest(old(self).inputs(), final(self).inputs(), r, "no scripted input response"@),
            final(self).selects() == old(self).selects(),
            final(self).confirms() == old(self).confirms(),
    {
        if self.inputs.len() > 0 {
            let r = self.inputs.remove(0);
            assert(self.inputs@ =~= old(self).inputs@.drop_first());
            r
        } else {
            proof {
                reveal_strlit("no scripted input response");
            }
            Err(DialogError::other("no scripted input response"))
        }
    }
}

impl DialogIo for ScriptedDialog {
    /// The oldest queued selection answer (see `next_select`).
    fn select_index(&mut self, prompt: &str, labels: &[String], default: usize) -> (r: Result<Option<usize>, DialogError>)
        ensures
            gives_oldest(old(self).selects(), final(self).selects(), r, "no scripted selection response"@),
            final(self).confirms() == old(self).confirms(),
            final(self).inputs() == old(self).inputs(),
    {
        self.next_select()
    }

    /// The oldest queued confirmation answer (see `next_confirm`).
    fn confirm(&mut self, prompt: &str, default: bool) -> (r: Result<bool, DialogError>)
        ensures
            gives_oldest(old(self).confirms(), final(self).confirms(), r, "no scripted confirm response"@),
            final(self).selects() == old(self).selects(),
            final(self).inputs() == old(self).inputs(),
    {
        self.next_confirm()
    }

    /// The oldest queued text answer (see `next_input`).
    fn input_text(&mut self, prompt: &str, allow_empty: bool) -> (r: Result<String, DialogError>)
        ensures
            gives_oldest(old(self).inputs(), final(self).inputs(), r, "no scripted input response"@),
            final(self).selects() == old(self).selects(),
            final(self).confirms() == old(self).confirms(),
    {
        self.next_input()
    }
}

/// The failure of a prompt with no answer left: a backend failure with
/// `message`.
pub open spec fn missing_answer<T>(r: Result<T, DialogError>, message: Seq<char>) -> bool {
    r is Err && r->Err_0.kind == DialogErrorKind::Other && r->Err_0.message@ == message
}

/// How a queue of answers gives out `r`: its oldest answer, which leaves
/// it; or, when it is empty and stays so, the failure with `message`.
pub open spec fn gives_oldest<T>(
    before: Seq<Result<T, DialogError>>,
    after: Seq<Result<T, DialogError>>,
    r: Result<T, DialogError>,
    message: Seq<char>,
) -> bool {
    if before.len() > 0 {
        r == before[0] && after == before.drop_first()
    } else {
        missing_answer(r, message) && after == before
    }
}

/// First in, first out. `queues[0]` is an emptied queue (after `reset` or
/// `new`); `queues[i + 1]` is `queues[i]` with `answers[i]` pushed, for
/// each of the `n` answers; then `n + 1` prompts give out `replies`, each
/// from the queue the one before left. The first `n` replies are the
/// answers in the order they were pushed, and the last is the failure
/// with `message`.
pub proof fn lemma_scripted_fifo<T>(
    queues: Seq<Seq<Result<T, DialogError>>>,
    answers: Seq<Result<T, DialogError>>,
    replies: Seq<Result<T, DialogError>>,
    message: Seq<char>,
)
    requires
        queues.len() == 2 * answers.len() + 2,
        replies.len() == answers.len() + 1,
        queues[0].len() == 0,
        forall|i: int| 0 <= i < answers.len() ==> #[trigger] queues[i + 1] == queues[i].push(answers[i]),
        forall|k: int|
            0 <= k <= answers.len() ==> gives_oldest(
                #[trigger] queues[answers.len() + k],
                queues[answers.len() + k + 1],
                replies[k],
                message,
            ),
    ensures
        forall|k: int| 0 <= k < answers.len() ==> #[trigger] replies[k] == answers[k],
        missing_answer(replies[answers.len() as int], message),
{
    let n = answers.len() as int;
    lemma_queue_pushed(queues, answers, n);
    assert forall|k: int| 0 <= k <= n implies #[trigger] queues[n + k] == answers.skip(k) by {
        lemma_queue_taken(queues, answers, replies, message, k);
    }
    assert forall|k: int| 0 <= k < n implies #[trigger] replies[k] == answers[k] by {
        assert(queues[n + k] == answers.skip(k));
    }
    assert(queues[n + n] == answers.skip(n));
}

proof fn lemma_queue_pushed<T>(queues: Seq<Seq<T>>, answers: Seq<T>, i: int)
    requires
        0 <= i <= answers.len(),
        queues.len() > answers.len(),
        queues[0].len() == 0,
        forall|j: int| 0 <= j < answers.len() ==> #[trigger] queues[j + 1] == queues[j].push(answers[j]),
    ensures
        queues[i] == answers.subrange(0, i),
    decreases i,
{
    if i == 0 {
        assert(queues[0] =~= answers.subrange(0, 0));
    } else {
        lemma_queue_pushed(queues, answers, i - 1);
        assert(queues[(i - 1) + 1] == queues[i - 1].push(answers[i - 1]));
        assert(answers.subrange(0, i) =~= answers.subrange(0, i - 1).push(answers[i - 1]));
    }
}

proof fn lemma_queue_taken<T>(
    queues: Seq<Seq<Result<T, DialogError>>>,
    answers: Seq<Result<T, DialogError>>,
    replies: Seq<Result<T, DialogError>>,
    message: Seq<char>,
    k: int,
)
    requires
        0 <= k <= answers.len(),
        queues.len() == 2 * answers.len() + 2,
        replies.len() == answers.len() + 1,
        queues[answers.len() as int] == answers.subrange(0, answers.len() as int),
        forall|j: int|
            0 <= j <= answers.len() ==> gives_oldest(
                #[trigger] queues[answers.len() + j],
                queues[answers.len() + j + 1],
                replies[j],
                message,
            ),
    ensures
        queues[answers.len() + k] == answers.skip(k),
    decreases k,
{
    let n = answers.len() as int;
    if k == 0 {
        assert(answers.subrange(0, n) =~= answers.skip(0));
    } else {
        lemma_queue_taken(queues, answers, replies, message, k - 1);
        assert(gives_oldest(queues[n + (k - 1)], queues[n + (k - 1) + 1], replies[k - 1], message));
        assert(answers.skip(k - 1).drop_first() =~= answers.skip(k));
    }
}

} // verus!
