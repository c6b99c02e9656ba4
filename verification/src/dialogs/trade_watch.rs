//! The decisions of watching a trade: which trades can be watched, which
//! one is the latest, and, at each poll of the broker, whether the status
//! changed, which executions are new and whether the watch is over.

use vstd::prelude::*;
use crate::exporters::{is_closed, Trade, TradeStatus};
use crate::text::str_eq;

verus! {

/// Whether a trade in this status will not change any more.
pub open spec fn is_terminal(status: TradeStatus) -> bool {
    match status {
        TradeStatus::ClosedTarget | TradeStatus::ClosedStopLoss | TradeStatus::Canceled
        | TradeStatus::Expired | TradeStatus::Rejected => true,
        _ => false,
    }
}

/// Whether a trade in this status has reached its end.
pub fn terminal_status(status: TradeStatus) -> (r: bool)
    ensures
        r == is_terminal(status),
{
    match status {
        TradeStatus::ClosedTarget | TradeStatus::ClosedStopLoss | TradeStatus::Canceled
        | TradeStatus::Expired | TradeStatus::Rejected => true,
        _ => false,
    }
}

/// The statuses of the trades that can be watched, in the order they are
/// looked up.
pub open spec fn watchable_statuses() -> Seq<TradeStatus> {
    seq![TradeStatus::Submitted, TradeStatus::Filled, TradeStatus::PartiallyFilled]
}

/// The statuses of the trades that can be watched, in the order they are
/// looked up.
pub fn open_trade_statuses() -> (r: Vec<TradeStatus>)
    ensures
        r@ == watchable_statuses(),
{
    let mut r = Vec::new();
    r.push(TradeStatus::Submitted);
    r.push(TradeStatus::Filled);
    r.push(TradeStatus::PartiallyFilled);
    r
}

/// The place of the latest trade among trades last updated at the given
/// times: the latest time wins, and of trades updated at the same latest
/// time the one listed last; `None` when there is no trade.
pub fn latest_trade_index(updated_at: &[i64]) -> (r: Option<usize>)
    ensures
        updated_at@.len() == 0 <==> r is None,
        r matches Some(k) ==> {
            &&& k < updated_at@.len()
            &&& forall|j: int| 0 <= j < updated_at@.len() ==> updated_at@[j] <= updated_at@[k as int]
            &&& forall|j: int| k < j < updated_at@.len() ==> updated_at@[j] < updated_at@[k as int]
        },
{
    if updated_at.len() == 0 {
        return None;
    }
    let mut best: usize = 0;
    let mut i: usize = 1;
    while i < updated_at.len()
        invariant
            1 <= i <= updated_at@.len(),
            best < i,
            forall|j: int| 0 <= j < i ==> updated_at@[j] <= updated_at@[best as int],
            forall|j: int| best < j < i ==> updated_at@[j] < updated_at@[best as int],
        decreases updated_at@.len() - i,
    {
        if updated_at[i] >= updated_at[best] {
            best = i;
        }
        i = i + 1;
    }
    Some(best)
}

/// The place of the first trade with the given id, if any.
pub fn trade_position(ids: &[u128], id: u128) -> (r: Option<usize>)
    ensures
        match r {
            Some(k) => k < ids@.len() && ids@[k as int] == id && forall|j: int| 0 <= j < k ==> ids@[j] != id,
            None => forall|j: int| 0 <= j < ids@.len() ==> ids@[j] != id,
        },
{
    let mut i: usize = 0;
    while i < ids.len()
        invariant
            i <= ids@.len(),
            forall|j: int| 0 <= j < i ==> ids@[j] != id,
        decreases ids@.len() - i,
    {
        if ids[i] == id {
            return Some(i);
        }
        i = i + 1;
    }
    None
}

/// The texts of a list of strings.
pub open spec fn texts(v: Seq<String>) -> Seq<Seq<char>> {
    v.map_values(|s: String| s@)
}

/// Whether the execution at place `i` of a poll is new: not seen at an
/// earlier poll and not listed earlier in this one.
pub open spec fn is_fresh(seen: Set<Seq<char>>, ids: Seq<Seq<char>>, i: int) -> bool {
    &&& !seen.contains(ids[i])
    &&& forall|j: int| 0 <= j < i ==> ids[j] != ids[i]
}

/// What one poll of a watched trade reports.
pub struct WatchReport {
    /// The status differs from the one last reported (or none was).
    pub status_changed: bool,
    /// The places, in order, of the executions not reported before.
    pub new_executions: Vec<usize>,
    /// The trade reached a terminal status: the watch ends.
    pub finished: bool,
}

/// What one poll reports and what the watch remembers after it, `seen`
/// and `last` being the executions reported and the status last reported
/// before it, `ids` the executions the broker listed.
pub open spec fn poll_outcome(
    seen: Set<Seq<char>>,
    last: Option<TradeStatus>,
    status: TradeStatus,
    ids: Seq<Seq<char>>,
    r: WatchReport,
    seen_after: Set<Seq<char>>,
    last_after: Option<TradeStatus>,
) -> bool {
    &&& r.status_changed == (last != Some(status))
    &&& r.finished == is_terminal(status)
    &&& last_after == Some(status)
    &&& forall|k: int| 0 <= k < r.new_executions@.len() ==> r.new_executions@[k] < ids.len()
    &&& forall|a: int, b: int| 0 <= a < b < r.new_executions@.len() ==> r.new_executions@[a] < r.new_executions@[b]
    &&& forall|i: int| 0 <= i < ids.len() ==> (r.new_executions@.contains(i as usize) <==> is_fresh(seen, ids, i))
    &&& seen_after == seen.union(ids.to_set())
}

/// What a watch remembers between polls: the executions already reported
/// and the last status.
pub struct WatchState {
    seen_execution_ids: Vec<String>,
    last_status: Option<TradeStatus>,
}

fn contains_text(v: &Vec<String>, s: &str) -> (r: bool)
    ensures
        r == texts(v@).contains(s@),
{
    let mut i: usize = 0;
    while i < v.len()
        invariant
            i <= v@.len(),
            forall|j: int| 0 <= j < i ==> v@[j]@ != s@,
        decreases v@.len() - i,
    {
        if str_eq(v[i].as_str(), s) {
            assert(texts(v@)[i as int] == s@);
            return true;
        }
        i = i + 1;
    }
    assert forall|j: int| 0 <= j < texts(v@).len() implies texts(v@)[j] != s@ by {
        assert(texts(v@)[j] == v@[j]@);
    }
    false
}

impl WatchState {
    /// The ids of the executions already reported.
    pub closed spec fn seen(&self) -> Set<Seq<char>> {
        texts(self.seen_execution_ids@).to_set()
    }

    /// The status last reported.
    pub closed spec fn last(&self) -> Option<TradeStatus> {
        self.last_status
    }

    /// A watch that has reported nothing yet.
    pub fn new() -> (r: WatchState)
        ensures
            r.seen() == Set::<Seq<char>>::empty(),
            r.last() is None,
    {
        let r = WatchState { seen_execution_ids: Vec::new(), last_status: None };
        assert(r.seen() =~= Set::<Seq<char>>::empty());
        r
    }

    /// Records one poll: the trade's status and the ids of its executions.
    pub fn observe(&mut self, status: TradeStatus, execution_ids: &[String]) -> (r: WatchReport)
        ensures
            poll_outcome(
                old(self).seen(),
                old(self).last(),
                status,
                texts(execution_ids@),
                r,
                final(self).seen(),
                final(self).last(),
            ),
    {
        let status_changed = match self.last_status {
            Some(s) => s != status,
            None => true,
        };
        self.last_status = Some(status);
        let ghost seen0 = old(self).seen();
        let ghost ids = texts(execution_ids@);
        let mut fresh: Vec<usize> = Vec::new();
        let mut i: usize = 0;
        while i < execution_ids.len()
            invariant
                i <= execution_ids@.len(),
                ids == texts(execution_ids@),
                ids.len() == execution_ids@.len(),
                self.last_status == Some(status),
                texts(self.seen_execution_ids@).to_set() == seen0.union(ids.subrange(0, i as int).to_set()),
                forall|k: int| 0 <= k < fresh@.len() ==> fresh@[k] < i,
                forall|a: int, b: int| 0 <= a < b < fresh@.len() ==> fresh@[a] < fresh@[b],
                forall|j: int| 0 <= j < i ==> (fresh@.contains(j as usize) <==> is_fresh(seen0, ids, j)),
            decreases execution_ids@.len() - i,
        {
            let id = &execution_ids[i];
            let ghost before = texts(self.seen_execution_ids@);
            let ghost fresh_before = fresh@;
            let known = contains_text(&self.seen_execution_ids, id.as_str());
            proof {
                assert(ids[i as int] == id@);
                assert(ids.subrange(0, i + 1) =~= ids.subrange(0, i as int).push(id@));
                assert(before.to_set().contains(id@) == before.contains(id@));
                if !is_fresh(seen0, ids, i as int) {
                    if !seen0.contains(id@) {
                        let j = choose|j: int| 0 <= j < i && ids[j] == ids[i as int];
                        assert(ids.subrange(0, i as int)[j] == id@);
                        assert(ids.subrange(0, i as int).to_set().contains(id@));
                    }
                    assert(before.to_set().contains(id@));
                } else {
                    assert(!ids.subrange(0, i as int).contains(id@)) by {
                        if ids.subrange(0, i as int).contains(id@) {
                            let j = choose|j: int| 0 <= j < i && ids.subrange(0, i as int)[j] == id@;
                            assert(ids[j] == ids[i as int]);
                        }
                    }
                    assert(!before.to_set().contains(id@));
                }
            }
            if !known {
                self.seen_execution_ids.push(id.clone());
                fresh.push(i);
                proof {
                    assert(texts(self.seen_execution_ids@) =~= before.push(id@));
                }
            }
            proof {
                let sub = ids.subrange(0, i as int);
                let sub1 = ids.subrange(0, i + 1);
                assert forall|x: Seq<char>| #![auto] texts(self.seen_execution_ids@).to_set().contains(x)
                    <==> seen0.union(sub1.to_set()).contains(x) by {
                    assert(sub1.contains(x) <==> (sub.contains(x) || x == id@)) by {
                        if sub1.contains(x) {
                            let j = choose|j: int| 0 <= j < sub1.len() && sub1[j] == x;
                            if j < i {
                                assert(sub[j] == x);
                            }
                        }
                        if sub.contains(x) {
                            let j = choose|j: int| 0 <= j < sub.len() && sub[j] == x;
                            assert(sub1[j] == x);
                        }
                        if x == id@ {
                            assert(sub1[i as int] == x);
                        }
                    }
                    assert(before.to_set().contains(x) <==> (seen0.contains(x) || sub.to_set().contains(x)));
                    assert(sub.to_set().contains(x) <==> sub.contains(x));
                    assert(sub1.to_set().contains(x) <==> sub1.contains(x));
                    assert(before.to_set().contains(x) <==> before.contains(x));
                    if known {
                        assert(texts(self.seen_execution_ids@) == before);
                        assert(before.contains(id@));
                    }
                    if !known {
                        let t = texts(self.seen_execution_ids@);
                        assert(t.to_set().contains(x) <==> t.contains(x));
                        assert(t.contains(x) <==> (before.contains(x) || x == id@)) by {
                            if t.contains(x) {
                                let j = choose|j: int| 0 <= j < t.len() && t[j] == x;
                                if j < before.len() {
                                    assert(before[j] == x);
                                }
                            }
                            if before.contains(x) {
                                let j = choose|j: int| 0 <= j < before.len() && before[j] == x;
                                assert(t[j] == x);
                            }
                            if x == id@ {
                                assert(t[before.len() as int] == x);
                            }
                        }
                    }
                }
                assert(texts(self.seen_execution_ids@).to_set() =~= seen0.union(ids.subrange(0, i + 1).to_set()));
                assert forall|j: int| 0 <= j < i + 1 implies (fresh@.contains(j as usize) <==> is_fresh(seen0, ids, j)) by {
                    if j < i {
                        if fresh@.contains(j as usize) {
                            let k = choose|k: int| 0 <= k < fresh@.len() && fresh@[k] == j as usize;
                            if k < fresh_before.len() {
                                assert(fresh_before[k] == j as usize);
                            }
                        }
                        if fresh_before.contains(j as usize) {
                            let k = choose|k: int| 0 <= k < fresh_before.len() && fresh_before[k] == j as usize;
                            assert(fresh@[k] == j as usize);
                        }
                    } else {
                        if is_fresh(seen0, ids, j) {
                            assert(fresh@[fresh@.len() - 1] == i);
                        } else if fresh@.contains(j as usize) {
                            let k = choose|k: int| 0 <= k < fresh@.len() && fresh@[k] == j as usize;
                            assert(k < fresh_before.len());
                            assert(fresh_before[k] < i);
                        }
                    }
                }
            }
            i = i + 1;
        }
        proof {
            assert(ids.subrange(0, execution_ids@.len() as int) =~= ids);
        }
        WatchReport { status_changed, new_executions: fresh, finished: terminal_status(status) }
    }
}

/// No execution is reported twice: not twice in one poll, and not at a
/// later poll once reported.
pub proof fn lemma_executions_reported_once(
    seen: Set<Seq<char>>,
    first: Seq<Seq<char>>,
    second: Seq<Seq<char>>,
    i: int,
    j: int,
    k: int,
)
    requires
        0 <= i < first.len(),
        0 <= j < first.len(),
        0 <= k < second.len(),
        is_fresh(seen, first, i),
    ensures
        i != j && is_fresh(seen, first, j) ==> first[i] != first[j],
        is_fresh(seen.union(first.to_set()), second, k) ==> first[i] != second[k],
{
    if is_fresh(seen.union(first.to_set()), second, k) {
        assert(first.to_set().contains(first[i]));
    }
}

/// A watch keeps polling a trade that is still open and ends only when the
/// trade is done: no status a watched trade is looked up by (submitted,
/// filled, partially filled) ends it, nor does a new or funded trade; it
/// ends exactly when the trade is closed at its target or its stop, or was
/// canceled, expired or rejected.
pub proof fn lemma_watch_ends_only_when_done(status: TradeStatus, trade: Trade)
    ensures
        forall|i: int| 0 <= i < watchable_statuses().len() ==> !is_terminal(#[trigger] watchable_statuses()[i]),
        is_terminal(status) <==> (status == TradeStatus::ClosedTarget || status == TradeStatus::ClosedStopLoss
            || status == TradeStatus::Canceled || status == TradeStatus::Expired || status == TradeStatus::Rejected),
        status == TradeStatus::New || status == TradeStatus::Funded || status == TradeStatus::Submitted
            || status == TradeStatus::PartiallyFilled || status == TradeStatus::Filled ==> !is_terminal(status),
        is_closed(trade) ==> is_terminal(trade.status),
{
}

/// One poll of a watched trade: the watch ends exactly when the broker
/// reports the trade closed at its target or its stop, canceled, expired
/// or rejected, and so never for a trade still open (submitted, partially
/// filled or filled); the status counts as changed exactly when it differs
/// from the one last reported; an execution is reported only if the
/// broker listed it and it was not reported before, each one the broker
/// listed is reported unless it was, and after the poll every listed
/// execution counts as reported, so none is reported at a later poll.
pub proof fn lemma_poll_reports(
    seen: Set<Seq<char>>,
    last: Option<TradeStatus>,
    status: TradeStatus,
    ids: Seq<Seq<char>>,
    r: WatchReport,
    seen_after: Set<Seq<char>>,
    last_after: Option<TradeStatus>,
)
    requires
        poll_outcome(seen, last, status, ids, r, seen_after, last_after),
    ensures
        r.finished <==> (status == TradeStatus::ClosedTarget || status == TradeStatus::ClosedStopLoss
            || status == TradeStatus::Canceled || status == TradeStatus::Expired || status == TradeStatus::Rejected),
        watchable_statuses().contains(status) ==> !r.finished,
        r.status_changed <==> !(last == Some(status)),
        last_after == Some(status),
        forall|k: int| 0 <= k < r.new_executions@.len() ==> #[trigger] r.new_executions@[k] < ids.len()
            && !seen.contains(ids[r.new_executions@[k] as int]),
        forall|i: int| 0 <= i < ids.len() && !seen.contains(ids[i]) && (forall|j: int| 0 <= j < i ==> ids[j] != ids[i]) ==> #[trigger] r.new_executions@.contains(i as usize),
        forall|i: int| 0 <= i < ids.len() ==> seen_after.contains(#[trigger] ids[i]),
{
    assert forall|k: int| 0 <= k < r.new_executions@.len() implies #[trigger] r.new_executions@[k] < ids.len()
        && !seen.contains(ids[r.new_executions@[k] as int]) by {
        let i = r.new_executions@[k] as int;
        assert(r.new_executions@[k] == i as usize);
        assert(r.new_executions@.contains(i as usize));
        assert(is_fresh(seen, ids, i));
    }
    assert forall|i: int| 0 <= i < ids.len() && !seen.contains(ids[i]) && (forall|j: int| 0 <= j < i ==> ids[j] != ids[i]) implies #[trigger] r.new_executions@.contains(i as usize) by {
        assert(is_fresh(seen, ids, i));
    }
    assert forall|i: int| 0 <= i < ids.len() implies seen_after.contains(#[trigger] ids[i]) by {
        assert(ids.to_set().contains(ids[i]));
    }
}

} // verus!
