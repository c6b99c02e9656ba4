//! The list selection the dialogs share.

use vstd::prelude::*;
use crate::dialogs::io::{last_labels, last_picked, DialogError, DialogErrorKind, DialogIo, Exchange, RecordingDialog};

verus! {

/// The value of an option, or an error of the given kind and message.
pub fn require<T>(value: Option<T>, kind: DialogErrorKind, message: &str) -> (r: Result<T, DialogError>)
    ensures
        value is Some ==> r == Ok::<T, DialogError>(value->0),
        value is None ==> r is Err && r->Err_0.kind == kind && r->Err_0.message@ == message@,
{
    match value {
        Some(v) => Ok(v),
        None => Err(DialogError::new(kind, message)),
    }
}

/// What a pick among `items` gives: a copy of the item at the picked
/// place; a cancelled or failed pick, or a place past the end, fails with
/// `cancel_message` (invalid input).
pub open spec fn list_pick_result<T: Clone>(
    items: Seq<T>,
    answer: Result<Option<usize>, DialogError>,
    cancel_message: Seq<char>,
    r: Result<T, DialogError>,
) -> bool {
    let picked = match answer {
        Ok(Some(i)) => i < items.len(),
        _ => false,
    };
    if picked {
        r matches Ok(v) && cloned::<T>(items[answer->Ok_0->Some_0 as int], v)
    } else {
        r matches Err(e) && e.kind == DialogErrorKind::InvalidInput && e.message@ == cancel_message
    }
}

/// What the answer to a pick among `items` gives: a copy of the item at the
/// picked place; a cancelled or failed pick, or a place past the end, the
/// `cancel_message` error.
pub fn pick_from<T: Clone>(items: &[T], answer: Result<Option<usize>, DialogError>, cancel_message: &str) -> (r: Result<T, DialogError>)
    ensures
        list_pick_result(items@, answer, cancel_message@, r),
{
    match answer {
        Ok(Some(index)) => {
            if index < items.len() {
                Ok(items[index].clone())
            } else {
                Err(DialogError::new(DialogErrorKind::InvalidInput, cancel_message))
            }
        },
        _ => Err(DialogError::new(DialogErrorKind::InvalidInput, cancel_message)),
    }
}

/// Whether `labels` are what `label_of` gives for each of `items`, in order.
pub open spec fn labels_of<T, F: Fn(&T) -> String>(items: Seq<T>, label_of: F, labels: Seq<String>) -> bool {
    &&& labels.len() == items.len()
    &&& forall|i: int| 0 <= i < items.len() ==> call_ensures(label_of, (&items[i],), #[trigger] labels[i])
}

/// Lets the user pick one of `items`, each shown by its label (the labels
/// are `label_of` of each item, in order; the first is the default). An
/// empty list fails with `empty_message` (not found); a cancelled,
/// failed or out-of-range selection fails with `cancel_message` (invalid
/// input).
pub fn select_from_list<T: Clone, I: DialogIo, F: Fn(&T) -> String>(
    io: &mut RecordingDialog<I>,
    prompt: &str,
    items: &[T],
    label_of: F,
    empty_message: &str,
    cancel_message: &str,
) -> (r: Result<T, DialogError>)
    requires
        forall|i: int| 0 <= i < items@.len() ==> call_requires(label_of, (&items@[i],)),
    ensures
        items@.len() == 0 ==> r is Err && r->Err_0.kind == DialogErrorKind::NotFound && r->Err_0.message@ == empty_message@,
        items@.len() == 0 ==> final(io).exchanges() == old(io).exchanges(),
        items@.len() > 0 ==> final(io).exchanges() == old(io).exchanges().push(
            Exchange::Select {
                prompt: prompt@,
                labels: last_labels(final(io).exchanges()),
                default_index: 0,
                picked: last_picked(final(io).exchanges()),
            },
        ),
        items@.len() > 0 ==> labels_of(items@, label_of, last_labels(final(io).exchanges())),
        items@.len() > 0 ==> list_pick_result(items@, last_picked(final(io).exchanges()), cancel_message@, r),
{
    if items.len() == 0 {
        return Err(DialogError::new(DialogErrorKind::NotFound, empty_message));
    }
    let mut labels: Vec<String> = Vec::new();
    let mut i: usize = 0;
    while i < items.len()
        invariant
            i <= items@.len(),
            labels@.len() == i,
            forall|k: int| 0 <= k < items@.len() ==> call_requires(label_of, (&items@[k],)),
            forall|k: int| 0 <= k < i ==> call_ensures(label_of, (&items@[k],), #[trigger] labels@[k]),
        decreases items@.len() - i,
    {
        labels.push(label_of(&items[i]));
        i = i + 1;
    }
    let selected = io.select_index(prompt, labels.as_slice(), 0);
    assert(labels_of(items@, label_of, labels@));
    let r = pick_from(items, selected, cancel_message);
    r
}

} // verus!
