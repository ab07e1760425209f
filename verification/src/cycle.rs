//! One whole cycle against collaborators that live in memory: the store of
//! this crate, a list of subscribers, and a table that says which sends
//! succeed. It runs the scheduler as any host does, and it is where the
//! scheduler, the reconciliation and the store are shown to fit together.

use crate::cta::alerts::AlertView;
use crate::db::{
    distinct_ids, has_id, lemma_index_of_id, record_of, row_of, AlertStore,
    DBAlertView, DBGuild,
};
use crate::raw::RawValue;
use crate::scheduler::{
    deliverable_of, idle, ids_of, Action, Event, Phase, Stage, Watcher, WatcherView,
};
use crate::watcher::{
    channels_of, is_eligible, is_tracked, lemma_untracked_members, message_of, publish_count_of,
    times_of, untracked_of,
};
use vstd::prelude::*;

verus! {

/// One send that a cycle made.
#[derive(Clone, Copy, Debug, PartialEq, Eq, Structural)]
pub struct Attempt {
    /// The alert that was sent.
    pub alert_id: i32,
    /// The channel it was sent to.
    pub channel: i64,
    /// Whether the send succeeded.
    pub delivered: bool,
}

/// Whether the table lets the send of the `i`-th untracked alert to its
/// `j`-th channel succeed. What the table does not list fails.
pub open spec fn outcome_at(outcomes: Seq<Vec<bool>>, i: int, j: int) -> bool {
    0 <= i < outcomes.len() && 0 <= j < outcomes[i]@.len() && outcomes[i]@[j]
}

/// The outcomes of the sends of the `i`-th untracked alert to its `n`
/// channels, in order.
pub open spec fn results_for(outcomes: Seq<Vec<bool>>, i: int, n: nat) -> Seq<bool> {
    Seq::new(n, |j: int| outcome_at(outcomes, i, j))
}

/// The rows of the store after the first `k` alerts of `queue` have been
/// announced, each to `n` channels: each alert without a row gains the row
/// that records it with the count of its sends that succeeded.
pub open spec fn rows_after(
    rows: Seq<DBAlertView>,
    queue: Seq<AlertView>,
    n: nat,
    outcomes: Seq<Vec<bool>>,
    k: int,
) -> Seq<DBAlertView>
    decreases k,
{
    if k <= 0 {
        rows
    } else {
        let before = rows_after(rows, queue, n, outcomes, k - 1);
        if has_id(before, queue[k - 1].id) {
            before
        } else {
            before.push(
                record_of(queue[k - 1], publish_count_of(results_for(outcomes, k - 1, n))),
            )
        }
    }
}

/// The sends of the `i`-th untracked alert: one to each channel, in order.
pub open spec fn attempts_for(
    alert: AlertView,
    channels: Seq<i64>,
    outcomes: Seq<Vec<bool>>,
    i: int,
) -> Seq<Attempt> {
    Seq::new(
        channels.len(),
        |j: int|
            Attempt {
                alert_id: alert.id,
                channel: channels[j],
                delivered: outcome_at(outcomes, i, j),
            },
    )
}

/// The sends of the first `k` alerts of `queue`, in order.
pub open spec fn attempts_upto(
    queue: Seq<AlertView>,
    channels: Seq<i64>,
    outcomes: Seq<Vec<bool>>,
    k: int,
) -> Seq<Attempt>
    decreases k,
{
    if k <= 0 {
        Seq::empty()
    } else {
        attempts_upto(queue, channels, outcomes, k - 1) + attempts_for(
            queue[k - 1],
            channels,
            outcomes,
            k - 1,
        )
    }
}

/// The state of a scheduler that has the `cursor`-th alert of `queue` in
/// hand.
pub open spec fn in_hand(
    queue: Seq<AlertView>,
    cursor: int,
    stage: Stage,
    channels: Seq<i64>,
    outcomes: Seq<bool>,
) -> WatcherView {
    WatcherView {
        phase: Phase::Distributing,
        raw: Seq::empty(),
        batch: Seq::empty(),
        queue,
        cursor,
        stage,
        channels,
        outcomes,
    }
}

/// To tell which alerts of a batch are untracked, the rows with the
/// identifiers of the batch say as much as the whole store.
pub proof fn lemma_lookup_suffices(rows: Seq<DBAlertView>, ids: Seq<i32>, part: Seq<AlertView>)
    requires
        forall|i: int| 0 <= i < part.len() ==> ids.contains((#[trigger] part[i]).id),
    ensures
        untracked_of(rows.filter(|row: DBAlertView| ids.contains(row.alert_id)), part)
            == untracked_of(rows, part),
    decreases part.len(),
{
    reveal(Seq::filter);
    let wanted = |row: DBAlertView| ids.contains(row.alert_id);
    let found = rows.filter(wanted);
    if part.len() > 0 {
        let rest = part.drop_last();
        assert forall|i: int| 0 <= i < rest.len() implies ids.contains(
            (#[trigger] rest[i]).id,
        ) by {
            assert(rest[i] == part[i]);
        }
        lemma_lookup_suffices(rows, ids, rest);
        let a = part.last();
        assert(ids.contains(a.id));
        if has_id(rows, a.id) {
            let j = choose|j: int| 0 <= j < rows.len() && (#[trigger] rows[j]).alert_id == a.id;
            rows.lemma_filter_contains(wanted, j);
            let k = choose|k: int| 0 <= k < found.len() && found[k] == rows[j];
            assert(found[k].alert_id == a.id);
            assert(has_id(found, a.id));
        }
        if has_id(found, a.id) {
            let k = choose|k: int| 0 <= k < found.len() && (#[trigger] found[k]).alert_id == a.id;
            assert(found.contains(found[k]));
            rows.lemma_filter_contains_rev(wanted, found[k]);
            let j = choose|j: int| 0 <= j < rows.len() && rows[j] == found[k];
            assert(rows[j].alert_id == a.id);
            assert(has_id(rows, a.id));
        }
        assert(is_tracked(found, a) == is_tracked(rows, a));
    }
}

/// There are no more channels than subscribers.
pub proof fn lemma_channels_len(guilds: Seq<DBGuild>)
    ensures
        channels_of(guilds).len() <= guilds.len(),
    decreases guilds.len(),
{
    if guilds.len() > 0 {
        lemma_channels_len(guilds.drop_last());
    }
}

/// Copies the subscribers.
pub fn copy_guilds(guilds: &[DBGuild]) -> (r: Vec<DBGuild>)
    ensures
        channels_of(r@) == channels_of(guilds@),
        r@.len() == guilds@.len(),
{
    let mut out: Vec<DBGuild> = Vec::new();
    let mut i: usize = 0;
    assert(guilds@.take(0) =~= Seq::empty());
    while i < guilds.len()
        invariant
            i <= guilds.len(),
            out.len() == i,
            channels_of(out@) == channels_of(guilds@.take(i as int)),
        decreases guilds.len() - i,
    {
        let ghost before = out@;
        let copy = guilds[i].duplicate();
        out.push(copy);
        assert(out@.drop_last() =~= before);
        assert(guilds@.take(i + 1).drop_last() =~= guilds@.take(i as int));
        assert(guilds@.take(i + 1).last() == guilds@[i as int]);
        assert(is_eligible(out@.last()) == is_eligible(guilds@[i as int]));
        i += 1;
    }
    assert(guilds@.take(guilds.len() as int) =~= guilds@);
    out
}

/// Whether the table lets the send succeed.
pub fn outcome(outcomes: &Vec<Vec<bool>>, i: usize, j: usize) -> (r: bool)
    ensures
        r == outcome_at(outcomes@, i as int, j as int),
{
    if i < outcomes.len() {
        if j < outcomes[i].len() {
            outcomes[i][j]
        } else {
            false
        }
    } else {
        false
    }
}

/// Runs one cycle of the scheduler from tick to rest. `feed` is what the
/// fetch gives (`None` for a fetch that fails), `guilds` what the directory
/// gives each time it is asked, and `outcomes` says which sends succeed.
/// The rows asked of the store and the rows written go to `store`. Returns
/// the sends that were made, in order.
#[verifier::loop_isolation(false)]
pub fn run_cycle(
    watcher: &mut Watcher,
    store: &mut AlertStore,
    feed: Option<Vec<RawValue>>,
    guilds: &[DBGuild],
    outcomes: &Vec<Vec<bool>>,
) -> (attempts: Vec<Attempt>)
    requires
        old(watcher)@ == idle(),
        old(store).wf(),
    ensures
        final(watcher)@ == idle(),
        final(store).wf(),
        match feed {
            None => final(store).rows() == old(store).rows() && attempts@ == Seq::<
                Attempt,
            >::empty(),
            Some(records) => {
                let queue = untracked_of(old(store).rows(), deliverable_of(records@));
                let channels = channels_of(guilds@);
                &&& final(store).rows() == rows_after(
                    old(store).rows(),
                    queue,
                    channels.len(),
                    outcomes@,
                    queue.len() as int,
                )
                &&& attempts@ == attempts_upto(queue, channels, outcomes@, queue.len() as int)
            },
        },
{
    let mut attempts: Vec<Attempt> = Vec::new();
    let ghost rows0 = store.rows();
    assert(idle().wf());
    let _ = watcher.step(Event::Tick);
    let records = match feed {
        None => {
            let _ = watcher.step(Event::FetchFailed);
            return attempts;
        },
        Some(records) => records,
    };
    let ghost batch = deliverable_of(records@);
    let ghost queue = untracked_of(rows0, batch);
    let ghost channels = channels_of(guilds@);
    let ghost m = channels.len();
    let subscribers: usize = guilds.len();
    let fetched: usize = records.len();
    proof {
        lemma_channels_len(guilds@);
        crate::scheduler::lemma_alerts_of_len(records@);
        crate::cta::alerts::alerts_of(records@).lemma_filter_len(
            |a: AlertView| times_of(a) is Some,
        );
        batch.lemma_filter_len(|a: AlertView| !is_tracked(rows0, a));
        assert(m <= usize::MAX);
        assert(queue.len() <= usize::MAX);
    }
    let _ = watcher.step(Event::Fetched(records));
    let asked = watcher.step(Event::Proceed);
    let ids = match asked.action {
        Action::Lookup(ids) => ids,
        _ => {
            proof {
                reveal(Seq::filter);
                assert(batch.len() == 0);
                assert(queue.len() == 0);
            }
            return attempts;
        },
    };
    let rows = store.lookup(&ids);
    proof {
        assert forall|i: int| 0 <= i < batch.len() implies ids_of(batch).contains(
            (#[trigger] batch[i]).id,
        ) by {
            assert(ids_of(batch)[i] == batch[i].id);
        }
        lemma_lookup_suffices(rows0, ids@, batch);
    }
    let begun = watcher.step(Event::Rows(rows));
    match begun.action {
        Action::ListSubscribed => {},
        _ => {
            return attempts;
        },
    }
    let mut i: usize = 0;
    loop
        invariant
            i < queue.len(),
            watcher@ == in_hand(queue, i as int, Stage::Directory, Seq::empty(), Seq::empty()),
            watcher.wf(),
            store.wf(),
            store.rows() == rows_after(rows0, queue, m, outcomes@, i as int),
            attempts@ == attempts_upto(queue, channels, outcomes@, i as int),
        decreases queue.len() - i,
    {
        let ghost results = results_for(outcomes@, i as int, m);
        let ghost sent_before = attempts@;
        let ghost all = attempts_for(queue[i as int], channels, outcomes@, i as int);
        let mut step = watcher.step(Event::Subscribers(copy_guilds(guilds)));
        let mut k: usize = 0;
        assert(results.take(0) =~= Seq::empty());
        assert(all.take(0) =~= Seq::empty());
        assert(sent_before + all.take(0) =~= sent_before);
        loop
            invariant
                k <= m,
                watcher.wf(),
                i < queue.len(),
                attempts@ == sent_before + all.take(k as int),
                store.rows() == rows_after(rows0, queue, m, outcomes@, i as int),
                store.wf(),
                k < m ==> watcher@ == in_hand(
                    queue,
                    i as int,
                    Stage::Sending,
                    channels,
                    results.take(k as int),
                ) && step.action@ == (crate::scheduler::ActionView::Send {
                    alert_id: queue[i as int].id,
                    channel: channels[k as int],
                    message: message_of(queue[i as int], times_of(queue[i as int])->0),
                }),
                k == m ==> watcher@ == in_hand(
                    queue,
                    i as int,
                    Stage::Storing,
                    channels,
                    results.take(k as int),
                ) && step.action@ == (crate::scheduler::ActionView::Upsert {
                    alert: queue[i as int],
                    publish_count: publish_count_of(results.take(k as int)),
                }),
            decreases m - k,
        {
            match step.action {
                Action::Send { alert_id, channel, message } => {
                    let ok = outcome(outcomes, i, k);
                    attempts.push(Attempt { alert_id, channel, delivered: ok });
                    step = watcher.step(Event::Sent(ok));
                    proof {
                        assert(results.take(k + 1) =~= results.take(k as int).push(ok));
                        assert(all.take(k + 1) =~= all.take(k as int).push(all[k as int]));
                        assert(sent_before + all.take(k + 1) =~= (sent_before + all.take(
                            k as int,
                        )).push(all[k as int]));
                    }
                    k += 1;
                },
                _ => {
                    break ;
                },
            }
        }
        assert(k == m);
        assert(results.take(m as int) =~= results);
        assert(all.take(m as int) =~= all);
        let ok = match step.action {
            Action::Upsert { alert, publish_count } => store.upsert(&alert, publish_count).is_ok(),
            _ => false,
        };
        let next = watcher.step(Event::Upserted(ok));
        match next.action {
            Action::ListSubscribed => {
                i += 1;
            },
            _ => {
                assert(i + 1 == queue.len());
                break ;
            },
        }
    }
    attempts
}

/// Whether no identifier occurs twice in `alerts`.
pub open spec fn distinct_alerts(alerts: Seq<AlertView>) -> bool {
    forall|i: int, j: int|
        0 <= i < j < alerts.len() ==> (#[trigger] alerts[i]).id != (#[trigger] alerts[j]).id
}

/// A filter that no element passes gives nothing.
proof fn lemma_filter_none<A>(s: Seq<A>, pred: spec_fn(A) -> bool)
    requires
        forall|i: int| 0 <= i < s.len() ==> !pred(#[trigger] s[i]),
    ensures
        s.filter(pred).len() == 0,
    decreases s.len(),
{
    reveal(Seq::filter);
    if s.len() > 0 {
        assert forall|i: int| 0 <= i < s.drop_last().len() implies !pred(
            #[trigger] s.drop_last()[i],
        ) by {
            assert(s.drop_last()[i] == s[i]);
        }
        lemma_filter_none(s.drop_last(), pred);
    }
}

/// A cycle takes no row away and changes none: the rows from before are
/// the first rows after, and an identifier that had a row has one.
pub proof fn lemma_rows_after_extends(
    rows: Seq<DBAlertView>,
    queue: Seq<AlertView>,
    n: nat,
    outcomes: Seq<Vec<bool>>,
    k: int,
)
    ensures
        rows_after(rows, queue, n, outcomes, k).len() >= rows.len(),
        forall|t: int|
            0 <= t < rows.len() ==> (#[trigger] rows_after(rows, queue, n, outcomes, k)[t])
                == rows[t],
        forall|id: i32| has_id(rows, id) ==> has_id(rows_after(rows, queue, n, outcomes, k), id),
    decreases k,
{
    if k > 0 {
        lemma_rows_after_extends(rows, queue, n, outcomes, k - 1);
        let before = rows_after(rows, queue, n, outcomes, k - 1);
        let after = rows_after(rows, queue, n, outcomes, k);
        assert forall|id: i32| has_id(rows, id) implies has_id(after, id) by {
            let t = choose|t: int| 0 <= t < rows.len() && (#[trigger] rows[t]).alert_id == id;
            assert(after[t].alert_id == id);
        }
    }
}

/// After a cycle every alert of its queue has a row.
pub proof fn lemma_queue_is_stored(
    rows: Seq<DBAlertView>,
    queue: Seq<AlertView>,
    n: nat,
    outcomes: Seq<Vec<bool>>,
    k: int,
)
    requires
        0 <= k <= queue.len(),
    ensures
        forall|t: int|
            0 <= t < k ==> has_id(
                rows_after(rows, queue, n, outcomes, k),
                (#[trigger] queue[t]).id,
            ),
    decreases k,
{
    if k > 0 {
        lemma_queue_is_stored(rows, queue, n, outcomes, k - 1);
        let before = rows_after(rows, queue, n, outcomes, k - 1);
        let after = rows_after(rows, queue, n, outcomes, k);
        assert forall|t: int| 0 <= t < k implies has_id(after, (#[trigger] queue[t]).id) by {
            if t < k - 1 {
                let j = choose|j: int|
                    0 <= j < before.len() && (#[trigger] before[j]).alert_id == queue[t].id;
                if !has_id(before, queue[k - 1].id) {
                    assert(after[j] == before[j]);
                }
                assert(after[j].alert_id == queue[t].id);
            } else {
                if !has_id(before, queue[k - 1].id) {
                    assert(after[after.len() - 1].alert_id == queue[t].id);
                }
            }
        }
    }
}

/// When every alert of a batch has a row, the cycle announces nothing:
/// no alert is untracked, no send is made and the store stays as it is.
pub proof fn lemma_tracked_batch_is_quiet(
    rows: Seq<DBAlertView>,
    batch: Seq<AlertView>,
    channels: Seq<i64>,
    outcomes: Seq<Vec<bool>>,
)
    requires
        forall|i: int| 0 <= i < batch.len() ==> has_id(rows, (#[trigger] batch[i]).id),
    ensures
        ({
            let queue = untracked_of(rows, batch);
            &&& queue.len() == 0
            &&& attempts_upto(queue, channels, outcomes, queue.len() as int) == Seq::<
                Attempt,
            >::empty()
            &&& rows_after(rows, queue, channels.len(), outcomes, queue.len() as int) == rows
        }),
{
    lemma_filter_none(batch, |a: AlertView| !is_tracked(rows, a));
}

/// A cycle that is run again on the batch it has just handled announces
/// nothing: what the first run wrote keeps every alert of the batch from
/// being untracked.
pub proof fn lemma_rerun_is_quiet(
    rows: Seq<DBAlertView>,
    batch: Seq<AlertView>,
    channels: Seq<i64>,
    outcomes: Seq<Vec<bool>>,
    again: Seq<Vec<bool>>,
)
    ensures
        ({
            let queue = untracked_of(rows, batch);
            let after = rows_after(rows, queue, channels.len(), outcomes, queue.len() as int);
            let second = untracked_of(after, batch);
            &&& second.len() == 0
            &&& attempts_upto(second, channels, again, second.len() as int) == Seq::<
                Attempt,
            >::empty()
            &&& rows_after(after, second, channels.len(), again, second.len() as int) == after
        }),
{
    let queue = untracked_of(rows, batch);
    let after = rows_after(rows, queue, channels.len(), outcomes, queue.len() as int);
    lemma_rows_after_extends(rows, queue, channels.len(), outcomes, queue.len() as int);
    lemma_queue_is_stored(rows, queue, channels.len(), outcomes, queue.len() as int);
    lemma_untracked_members(rows, batch);
    assert forall|i: int| 0 <= i < batch.len() implies has_id(after, (#[trigger] batch[i]).id) by {
        if !has_id(rows, batch[i].id) {
            assert(batch.contains(batch[i]));
            assert(queue.contains(batch[i]));
            let t = choose|t: int| 0 <= t < queue.len() && queue[t] == batch[i];
            assert(has_id(after, queue[t].id));
        }
    }
    lemma_tracked_batch_is_quiet(after, batch, channels, again);
}

/// While no identifier occurs twice among the alerts of the queue and none
/// of them has a row, the cycle appends one row for each of them, in order.
proof fn lemma_rows_after_shape(
    rows: Seq<DBAlertView>,
    queue: Seq<AlertView>,
    n: nat,
    outcomes: Seq<Vec<bool>>,
    k: int,
)
    requires
        0 <= k <= queue.len(),
        distinct_alerts(queue),
        forall|t: int| 0 <= t < queue.len() ==> !has_id(rows, (#[trigger] queue[t]).id),
    ensures
        rows_after(rows, queue, n, outcomes, k).len() == rows.len() + k,
        forall|t: int|
            0 <= t < rows.len() ==> (#[trigger] rows_after(rows, queue, n, outcomes, k)[t])
                == rows[t],
        forall|t: int|
            0 <= t < k ==> (#[trigger] rows_after(rows, queue, n, outcomes, k)[rows.len() + t])
                == record_of(queue[t], publish_count_of(results_for(outcomes, t, n))),
    decreases k,
{
    if k > 0 {
        lemma_rows_after_shape(rows, queue, n, outcomes, k - 1);
        let before = rows_after(rows, queue, n, outcomes, k - 1);
        let id = queue[k - 1].id;
        if has_id(before, id) {
            let j = choose|j: int| 0 <= j < before.len() && (#[trigger] before[j]).alert_id == id;
            if j < rows.len() {
                assert(rows[j].alert_id == id);
                assert(has_id(rows, id));
            } else {
                let t = j - rows.len();
                assert(before[rows.len() + t].alert_id == queue[t].id);
                assert(queue[t].id != queue[k - 1].id);
            }
        }
    }
}

/// Every alert that a cycle finds untracked has no row before the cycle and
/// has one after it, and that row records it with the count of its sends
/// that succeeded; the store still has at most one row for each
/// identifier. This holds while no identifier occurs twice among the
/// untracked alerts.
pub proof fn lemma_untracked_is_stored(
    rows: Seq<DBAlertView>,
    batch: Seq<AlertView>,
    n: nat,
    outcomes: Seq<Vec<bool>>,
    k: int,
)
    requires
        distinct_ids(rows),
        distinct_alerts(untracked_of(rows, batch)),
        0 <= k < untracked_of(rows, batch).len(),
    ensures
        ({
            let queue = untracked_of(rows, batch);
            let after = rows_after(rows, queue, n, outcomes, queue.len() as int);
            &&& !has_id(rows, queue[k].id)
            &&& has_id(after, queue[k].id)
            &&& row_of(after, queue[k].id) == Some(
                record_of(queue[k], publish_count_of(results_for(outcomes, k, n))),
            )
            &&& distinct_ids(after)
        }),
{
    let queue = untracked_of(rows, batch);
    let after = rows_after(rows, queue, n, outcomes, queue.len() as int);
    lemma_untracked_members(rows, batch);
    assert forall|t: int| 0 <= t < queue.len() implies !has_id(rows, (#[trigger] queue[t]).id) by {
        assert(queue.contains(queue[t]));
    }
    lemma_rows_after_shape(rows, queue, n, outcomes, queue.len() as int);
    let id = queue[k].id;
    let at = rows.len() + k;
    assert(after[at].alert_id == id);
    assert forall|j: int| 0 <= j < after.len() && j != at implies (#[trigger] after[j]).alert_id
        != id by {
        if j < rows.len() {
            assert(rows[j].alert_id == after[j].alert_id);
            if rows[j].alert_id == id {
                assert(has_id(rows, id));
            }
        } else {
            let t = j - rows.len();
            assert(after[rows.len() + t].alert_id == queue[t].id);
        }
    }
    lemma_index_of_id(after, id, 0);
    assert forall|i: int, j: int| 0 <= i < j < after.len() implies (#[trigger] after[i]).alert_id
        != (#[trigger] after[j]).alert_id by {
        if j < rows.len() {
            assert(after[i] == rows[i] && after[j] == rows[j]);
        } else {
            let t = j - rows.len();
            assert(after[rows.len() + t].alert_id == queue[t].id);
            if i < rows.len() {
                assert(after[i] == rows[i]);
                if rows[i].alert_id == queue[t].id {
                    assert(has_id(rows, queue[t].id));
                }
            } else {
                let u = i - rows.len();
                assert(after[rows.len() + u].alert_id == queue[u].id);
            }
        }
    }
}

} // verus!
