//! The poll scheduler: the state machine that drives one cycle after
//! another. It decides; whoever runs it performs each action it asks for
//! and hands back what came of it.

use crate::cta::alerts::{alert_views, alerts_of, normalize_batch, Alert, AlertView};
use crate::db::{row_views, DBAlert, DBGuild};
use crate::raw::RawValue;
use crate::watcher::{
    alert_channels, alerts_should_update, changed_of, channels_of, message_of, new_alerts,
    publish_count, publish_count_of, resolve_times, times_of, untracked_of, AlertMessage,
    AlertMessageView,
};
use vstd::prelude::*;

verus! {

/// The seconds between two polls of the feed.
pub const INTERVAL_SECS: u64 = 10;

/// Where a cycle stands.
#[derive(Clone, Copy, Debug, PartialEq, Eq, Structural)]
pub enum Phase {
    /// Between cycles, waiting for the next tick.
    Idle,
    /// Waiting for the feed's answer.
    Fetching,
    /// Holding the raw records, about to normalise them.
    Normalizing,
    /// Waiting for the store's rows for the batch.
    Reconciling,
    /// Announcing the untracked alerts, one after another.
    Distributing,
}

/// What the scheduler waits for while it announces one alert.
#[derive(Clone, Copy, Debug, PartialEq, Eq, Structural)]
pub enum Stage {
    /// The list of subscribers.
    Directory,
    /// The outcome of a send.
    Sending,
    /// The outcome of the write to the store.
    Storing,
}

/// What happened outside, handed to the scheduler.
#[derive(Debug)]
pub enum Event {
    /// The interval has passed.
    Tick,
    /// The feed answered with these raw records.
    Fetched(Vec<RawValue>),
    /// The feed could not be read.
    FetchFailed,
    /// The action asked for nothing to be done.
    Proceed,
    /// The store's rows for the identifiers asked for.
    Rows(Vec<DBAlert>),
    /// The store could not be read.
    LookupFailed,
    /// The subscribers.
    Subscribers(Vec<DBGuild>),
    /// The subscribers could not be read.
    DirectoryFailed,
    /// Whether the send succeeded.
    Sent(bool),
    /// Whether the store took the row.
    Upserted(bool),
}

/// What the scheduler asks to be done next.
#[derive(Debug)]
pub enum Action {
    /// Fetch the feed, and answer with `Fetched` or `FetchFailed`.
    Fetch,
    /// Nothing to do outside: answer with `Proceed`.
    Continue,
    /// Read the rows with these identifiers, and answer with `Rows` or
    /// `LookupFailed`.
    Lookup(Vec<i32>),
    /// Read the subscribers, and answer with `Subscribers` or
    /// `DirectoryFailed`.
    ListSubscribed,
    /// Send the message for this alert to the channel, once, and answer
    /// with `Sent`.
    Send { alert_id: i32, channel: i64, message: AlertMessage },
    /// Write the alert to the store with this publish count, and answer with
    /// `Upserted`.
    Upsert { alert: Alert, publish_count: i32 },
    /// Wait for this many seconds, and answer with `Tick`.
    Sleep(u64),
}

/// What an `Action` holds, as mathematics.
pub enum ActionView {
    Fetch,
    Continue,
    Lookup(Seq<i32>),
    ListSubscribed,
    Send { alert_id: i32, channel: i64, message: AlertMessageView },
    Upsert { alert: AlertView, publish_count: i32 },
    Sleep(u64),
}

impl View for Action {
    type V = ActionView;

    open spec fn view(&self) -> ActionView {
        match self {
            Action::Fetch => ActionView::Fetch,
            Action::Continue => ActionView::Continue,
            Action::Lookup(ids) => ActionView::Lookup(ids@),
            Action::ListSubscribed => ActionView::ListSubscribed,
            Action::Send { alert_id, channel, message } => ActionView::Send {
                alert_id: *alert_id,
                channel: *channel,
                message: message@,
            },
            Action::Upsert { alert, publish_count } => ActionView::Upsert {
                alert: alert@,
                publish_count: *publish_count,
            },
            Action::Sleep(secs) => ActionView::Sleep(*secs),
        }
    }
}

/// What a step has to tell the operator.
#[derive(Clone, Copy, Debug, PartialEq, Eq, Structural)]
pub enum Notice {
    /// A cycle begins.
    CycleStarted,
    /// The feed could not be read; the cycle is over.
    FetchFailed,
    /// The batch was normalised: so many alerts, so many records set aside.
    Normalized { alerts: usize, quarantined: usize },
    /// The batch was reconciled: so many alerts are new, so many changed.
    Found { untracked: usize, changed: usize },
    /// The store could not be read; the cycle is over.
    LookupFailed,
    /// The subscribers could not be read; the alert is left for the next
    /// cycle.
    DirectoryFailed { alert_id: i32 },
    /// One send failed.
    DeliveryFailed { alert_id: i32, channel: i64 },
    /// The store did not take the row; the alert stays untracked.
    StoreFailed { alert_id: i32 },
    /// An event came that the phase does not wait for; the cycle is over.
    Unexpected,
}

/// What one step gives: the action to perform and, at times, a notice.
#[derive(Debug)]
pub struct Step {
    pub action: Action,
    pub notice: Option<Notice>,
}

/// The state of the scheduler, as mathematics.
pub struct WatcherView {
    /// Where the cycle stands.
    pub phase: Phase,
    /// While normalising: the raw records of the batch.
    pub raw: Seq<RawValue>,
    /// While reconciling: the alerts of the batch.
    pub batch: Seq<AlertView>,
    /// While distributing: the untracked alerts.
    pub queue: Seq<AlertView>,
    /// While distributing: the index in `queue` of the alert in hand.
    pub cursor: int,
    /// While distributing: what is waited for.
    pub stage: Stage,
    /// The channels that the alert in hand goes to.
    pub channels: Seq<i64>,
    /// The outcomes of the sends made for the alert in hand, in order.
    pub outcomes: Seq<bool>,
}

/// What one step gives, as mathematics.
pub struct StepView {
    pub next: WatcherView,
    pub action: ActionView,
    pub notice: Option<Notice>,
}

/// The state between cycles.
pub open spec fn idle() -> WatcherView {
    WatcherView {
        phase: Phase::Idle,
        raw: Seq::empty(),
        batch: Seq::empty(),
        queue: Seq::empty(),
        cursor: 0,
        stage: Stage::Directory,
        channels: Seq::empty(),
        outcomes: Seq::empty(),
    }
}

/// The step that ends a cycle.
pub open spec fn rest(notice: Option<Notice>) -> StepView {
    StepView { next: idle(), action: ActionView::Sleep(INTERVAL_SECS), notice }
}

/// The alerts that a batch of raw records gives for distribution: those of
/// the well-formed records whose instants exist in the transit system's
/// zone, in the order of the batch.
pub open spec fn deliverable_of(records: Seq<RawValue>) -> Seq<AlertView> {
    alerts_of(records).filter(|a: AlertView| times_of(a) is Some)
}

/// The identifiers of a list of alerts, in order.
pub open spec fn ids_of(alerts: Seq<AlertView>) -> Seq<i32> {
    Seq::new(alerts.len(), |i: int| alerts[i].id)
}

impl WatcherView {
    /// What holds of every state that the scheduler reaches.
    pub open spec fn wf(self) -> bool {
        &&& self.phase != Phase::Normalizing ==> self.raw == Seq::<RawValue>::empty()
        &&& self.phase != Phase::Reconciling ==> self.batch == Seq::<AlertView>::empty()
        &&& self.phase == Phase::Reconciling ==> self.batch.len() > 0 && forall|i: int|
            0 <= i < self.batch.len() ==> times_of(#[trigger] self.batch[i]) is Some
        &&& self.phase != Phase::Distributing ==> {
            &&& self.queue == Seq::<AlertView>::empty()
            &&& self.cursor == 0
            &&& self.stage == Stage::Directory
        }
        &&& self.phase == Phase::Distributing ==> {
            &&& 0 <= self.cursor < self.queue.len()
            &&& forall|i: int|
                0 <= i < self.queue.len() ==> times_of(#[trigger] self.queue[i]) is Some
        }
        &&& self.stage == Stage::Directory ==> self.channels == Seq::<i64>::empty()
            && self.outcomes == Seq::<bool>::empty()
        &&& self.stage == Stage::Sending ==> self.outcomes.len() < self.channels.len()
        &&& self.stage == Stage::Storing ==> self.outcomes.len() == self.channels.len()
    }

    /// The alert in hand.
    pub open spec fn current(self) -> AlertView {
        self.queue[self.cursor]
    }

    /// The step that leaves the alert in hand: on to the next alert of the
    /// queue, or, after the last, to the end of the cycle.
    pub open spec fn advance(self, notice: Option<Notice>) -> StepView {
        if self.cursor + 1 < self.queue.len() {
            StepView {
                next: WatcherView {
                    cursor: self.cursor + 1,
                    stage: Stage::Directory,
                    channels: Seq::empty(),
                    outcomes: Seq::empty(),
                    ..self
                },
                action: ActionView::ListSubscribed,
                notice,
            }
        } else {
            rest(notice)
        }
    }

    /// The step that asks for the send to the next channel of the alert in
    /// hand or, when every channel has had its attempt, for the write to the
    /// store with the count of the sends that succeeded.
    pub open spec fn deliver(self, notice: Option<Notice>) -> StepView {
        if self.outcomes.len() < self.channels.len() {
            StepView {
                next: WatcherView { stage: Stage::Sending, ..self },
                action: ActionView::Send {
                    alert_id: self.current().id,
                    channel: self.channels[self.outcomes.len() as int],
                    message: message_of(self.current(), times_of(self.current())->0),
                },
                notice,
            }
        } else {
            StepView {
                next: WatcherView { stage: Stage::Storing, ..self },
                action: ActionView::Upsert {
                    alert: self.current(),
                    publish_count: publish_count_of(self.outcomes),
                },
                notice,
            }
        }
    }

    /// The step from the state `self` on the event `event`.
    pub open spec fn step(self, event: Event) -> StepView {
        match (self.phase, event) {
            (Phase::Idle, Event::Tick) => StepView {
                next: WatcherView { phase: Phase::Fetching, ..idle() },
                action: ActionView::Fetch,
                notice: Some(Notice::CycleStarted),
            },
            (Phase::Fetching, Event::Fetched(records)) => StepView {
                next: WatcherView { phase: Phase::Normalizing, raw: records@, ..idle() },
                action: ActionView::Continue,
                notice: None,
            },
            (Phase::Fetching, Event::FetchFailed) => rest(Some(Notice::FetchFailed)),
            (Phase::Normalizing, Event::Proceed) => {
                let batch = deliverable_of(self.raw);
                let notice = Some(
                    Notice::Normalized {
                        alerts: batch.len() as usize,
                        quarantined: (self.raw.len() - batch.len()) as usize,
                    },
                );
                if batch.len() == 0 {
                    rest(notice)
                } else {
                    StepView {
                        next: WatcherView { phase: Phase::Reconciling, batch, ..idle() },
                        action: ActionView::Lookup(ids_of(batch)),
                        notice,
                    }
                }
            },
            (Phase::Reconciling, Event::Rows(rows)) => {
                let queue = untracked_of(row_views(rows@), self.batch);
                let notice = Some(
                    Notice::Found {
                        untracked: queue.len() as usize,
                        changed: changed_of(row_views(rows@), self.batch).len() as usize,
                    },
                );
                if queue.len() == 0 {
                    rest(notice)
                } else {
                    StepView {
                        next: WatcherView { phase: Phase::Distributing, queue, ..idle() },
                        action: ActionView::ListSubscribed,
                        notice,
                    }
                }
            },
            (Phase::Reconciling, Event::LookupFailed) => rest(Some(Notice::LookupFailed)),
            (Phase::Distributing, Event::Subscribers(guilds)) => if self.stage
                == Stage::Directory {
                WatcherView { channels: channels_of(guilds@), ..self }.deliver(None)
            } else {
                rest(Some(Notice::Unexpected))
            },
            (Phase::Distributing, Event::DirectoryFailed) => if self.stage == Stage::Directory {
                self.advance(Some(Notice::DirectoryFailed { alert_id: self.current().id }))
            } else {
                rest(Some(Notice::Unexpected))
            },
            (Phase::Distributing, Event::Sent(ok)) => if self.stage == Stage::Sending {
                WatcherView { outcomes: self.outcomes.push(ok), ..self }.deliver(
                    if ok {
                        None
                    } else {
                        Some(
                            Notice::DeliveryFailed {
                                alert_id: self.current().id,
                                channel: self.channels[self.outcomes.len() as int],
                            },
                        )
                    },
                )
            } else {
                rest(Some(Notice::Unexpected))
            },
            (Phase::Distributing, Event::Upserted(ok)) => if self.stage == Stage::Storing {
                self.advance(
                    if ok {
                        None
                    } else {
                        Some(Notice::StoreFailed { alert_id: self.current().id })
                    },
                )
            } else {
                rest(Some(Notice::Unexpected))
            },
            _ => rest(Some(Notice::Unexpected)),
        }
    }
}

/// Every step keeps what holds of every state.
pub proof fn lemma_step_keeps_wf(state: WatcherView, event: Event)
    requires
        state.wf(),
    ensures
        state.step(event).next.wf(),
{
    match (state.phase, event) {
        (Phase::Normalizing, Event::Proceed) => {
            let keep = |a: AlertView| times_of(a) is Some;
            let batch = deliverable_of(state.raw);
            assert forall|i: int| 0 <= i < batch.len() implies times_of(
                #[trigger] batch[i],
            ) is Some by {
                alerts_of(state.raw).lemma_filter_pred(keep, i);
            }
        },
        (Phase::Reconciling, Event::Rows(rows)) => {
            crate::watcher::lemma_untracked_members(row_views(rows@), state.batch);
            let queue = untracked_of(row_views(rows@), state.batch);
            assert forall|i: int| 0 <= i < queue.len() implies times_of(
                #[trigger] queue[i],
            ) is Some by {
                assert(queue.contains(queue[i]));
                assert(state.batch.contains(queue[i]));
            }
        },
        _ => {},
    }
}

/// The write to the store is asked for only when every channel of the
/// alert in hand has had its one attempt, and its publish count is the
/// count of those attempts that succeeded.
pub proof fn lemma_upsert_follows_all_sends(state: WatcherView, event: Event)
    requires
        state.wf(),
    ensures
        state.step(event).action matches ActionView::Upsert { alert, publish_count } ==> {
            let next = state.step(event).next;
            &&& next.phase == Phase::Distributing
            &&& next.stage == Stage::Storing
            &&& alert == next.current()
            &&& next.outcomes.len() == next.channels.len()
            &&& publish_count == publish_count_of(next.outcomes)
        },
{
}

/// A send is asked for only while an alert is being distributed, and it
/// goes to the channel whose turn it is: the first that has had no attempt.
pub proof fn lemma_send_goes_to_the_next_channel(state: WatcherView, event: Event)
    requires
        state.wf(),
    ensures
        state.step(event).action matches ActionView::Send { alert_id, channel, message } ==> {
            let next = state.step(event).next;
            &&& next.phase == Phase::Distributing
            &&& next.stage == Stage::Sending
            &&& alert_id == next.current().id
            &&& next.outcomes.len() < next.channels.len()
            &&& channel == next.channels[next.outcomes.len() as int]
            &&& message == message_of(next.current(), times_of(next.current())->0)
        },
{
}

/// When the store has a row for every alert of the batch, reconciling ends
/// the cycle: nothing is distributed.
pub proof fn lemma_tracked_batch_rests(state: WatcherView, rows: Vec<DBAlert>)
    requires
        state.wf(),
        state.phase == Phase::Reconciling,
        forall|i: int|
            0 <= i < state.batch.len() ==> crate::db::has_id(
                row_views(rows@),
                (#[trigger] state.batch[i]).id,
            ),
    ensures
        state.step(Event::Rows(rows)).next == idle(),
        state.step(Event::Rows(rows)).action == ActionView::Sleep(INTERVAL_SECS),
{
    let keep = |a: AlertView| !crate::watcher::is_tracked(row_views(rows@), a);
    assert(state.batch.filter(keep).len() == 0) by {
        if state.batch.filter(keep).len() > 0 {
            state.batch.lemma_filter_pred(keep, 0);
            let a = state.batch.filter(keep)[0];
            assert(state.batch.filter(keep).contains(a));
            state.batch.lemma_filter_contains_rev(keep, a);
            let i = choose|i: int| 0 <= i < state.batch.len() && state.batch[i] == a;
            assert(crate::db::has_id(row_views(rows@), state.batch[i].id));
        }
    }
}

/// A batch gives no more alerts than it has records.
pub proof fn lemma_alerts_of_len(records: Seq<RawValue>)
    ensures
        alerts_of(records).len() <= records.len(),
    decreases records.len(),
{
    if records.len() > 0 {
        lemma_alerts_of_len(records.drop_last());
    }
}

/// Normalises a batch for distribution: the alerts of the well-formed
/// records whose instants exist in the transit system's zone.
pub fn deliverable(records: &Vec<RawValue>) -> (r: Vec<Alert>)
    ensures
        alert_views(r@) == deliverable_of(records@),
        r.len() <= records.len(),
{
    let batch = normalize_batch(records);
    let ghost all = alert_views(batch.alerts@);
    let ghost keep = |a: AlertView| times_of(a) is Some;
    let mut out: Vec<Alert> = Vec::new();
    let mut i: usize = 0;
    proof {
        reveal(Seq::filter);
        assert(all.take(0) =~= Seq::empty());
        lemma_alerts_of_len(records@);
    }
    while i < batch.alerts.len()
        invariant
            i <= batch.alerts.len(),
            all == alert_views(batch.alerts@),
            keep == |a: AlertView| times_of(a) is Some,
            alert_views(out@) == all.take(i as int).filter(keep),
            out.len() <= i,
        decreases batch.alerts.len() - i,
    {
        let ghost before = out@;
        proof {
            reveal(Seq::filter);
            assert(all.take(i + 1).drop_last() =~= all.take(i as int));
            assert(all.take(i + 1).last() == batch.alerts@[i as int]@);
        }
        if resolve_times(&batch.alerts[i]).is_some() {
            out.push(batch.alerts[i].duplicate());
            assert(alert_views(out@) =~= alert_views(before).push(batch.alerts@[i as int]@));
        }
        i += 1;
    }
    assert(all.take(batch.alerts.len() as int) =~= all);
    out
}

/// The identifiers of a batch, in order.
pub fn alert_ids(alerts: &Vec<Alert>) -> (r: Vec<i32>)
    ensures
        r@ == ids_of(alert_views(alerts@)),
{
    let mut out: Vec<i32> = Vec::new();
    let mut i: usize = 0;
    while i < alerts.len()
        invariant
            i <= alerts.len(),
            out.len() == i,
            forall|j: int| 0 <= j < i ==> out@[j] == alerts@[j].id,
        decreases alerts.len() - i,
    {
        out.push(alerts[i].id);
        i += 1;
    }
    assert(out@ =~= ids_of(alert_views(alerts@)));
    out
}

/// The poll scheduler.
pub struct Watcher {
    phase: Phase,
    raw: Vec<RawValue>,
    batch: Vec<Alert>,
    queue: Vec<Alert>,
    cursor: usize,
    stage: Stage,
    channels: Vec<i64>,
    outcomes: Vec<bool>,
}

impl View for Watcher {
    type V = WatcherView;

    closed spec fn view(&self) -> WatcherView {
        WatcherView {
            phase: self.phase,
            raw: self.raw@,
            batch: alert_views(self.batch@),
            queue: alert_views(self.queue@),
            cursor: self.cursor as int,
            stage: self.stage,
            channels: self.channels@,
            outcomes: self.outcomes@,
        }
    }
}

/// Whether a step of the scheduler is the step `expected`.
pub open spec fn is_step(next: WatcherView, given: Step, expected: StepView) -> bool {
    &&& next == expected.next
    &&& given.action@ == expected.action
    &&& given.notice == expected.notice
}

impl Watcher {
    /// What holds of every state that the scheduler reaches.
    pub open spec fn wf(&self) -> bool {
        self@.wf()
    }

    /// A scheduler between cycles.
    pub fn new() -> (r: Watcher)
        ensures
            r@ == idle(),
            r.wf(),
    {
        let r = Watcher {
            phase: Phase::Idle,
            raw: Vec::new(),
            batch: Vec::new(),
            queue: Vec::new(),
            cursor: 0,
            stage: Stage::Directory,
            channels: Vec::new(),
            outcomes: Vec::new(),
        };
        assert(r@.batch =~= Seq::empty());
        assert(r@.queue =~= Seq::empty());
        r
    }

    /// Where the cycle stands.
    pub fn phase(&self) -> (r: Phase)
        ensures
            r == self@.phase,
    {
        self.phase
    }

    fn finish(&mut self, notice: Option<Notice>) -> (r: Step)
        ensures
            is_step(final(self)@, r, rest(notice)),
    {
        self.phase = Phase::Idle;
        self.raw = Vec::new();
        self.batch = Vec::new();
        self.queue = Vec::new();
        self.cursor = 0;
        self.stage = Stage::Directory;
        self.channels = Vec::new();
        self.outcomes = Vec::new();
        assert(self@.batch =~= Seq::empty());
        assert(self@.queue =~= Seq::empty());
        Step { action: Action::Sleep(INTERVAL_SECS), notice }
    }

    fn advance(&mut self, notice: Option<Notice>) -> (r: Step)
        requires
            old(self)@.phase == Phase::Distributing,
            old(self)@.cursor < old(self)@.queue.len(),
        ensures
            is_step(final(self)@, r, old(self)@.advance(notice)),
    {
        assert(self.cursor < self.queue.len()) by {
            assert(self@.cursor == self.cursor as int);
            assert(self@.queue == alert_views(self.queue@));
        }
        if self.cursor + 1 < self.queue.len() {
            self.cursor = self.cursor + 1;
            self.stage = Stage::Directory;
            self.channels = Vec::new();
            self.outcomes = Vec::new();
            Step { action: Action::ListSubscribed, notice }
        } else {
            self.finish(notice)
        }
    }

    fn deliver(&mut self, notice: Option<Notice>) -> (r: Step)
        requires
            old(self)@.phase == Phase::Distributing,
            0 <= old(self)@.cursor < old(self)@.queue.len(),
            times_of(old(self)@.current()) is Some,
            old(self)@.outcomes.len() <= old(self)@.channels.len(),
        ensures
            is_step(final(self)@, r, old(self)@.deliver(notice)),
    {
        if self.outcomes.len() < self.channels.len() {
            let channel: i64 = self.channels[self.outcomes.len()];
            match resolve_times(&self.queue[self.cursor]) {
                Some(times) => {
                    let message = AlertMessage::render(&self.queue[self.cursor], &times);
                    let alert_id: i32 = self.queue[self.cursor].id;
                    self.stage = Stage::Sending;
                    Step { action: Action::Send { alert_id, channel, message }, notice }
                },
                None => self.finish(notice),
            }
        } else {
            let alert = self.queue[self.cursor].duplicate();
            let count: i32 = publish_count(self.outcomes.as_slice());
            self.stage = Stage::Storing;
            Step { action: Action::Upsert { alert, publish_count: count }, notice }
        }
    }

    /// Takes one event and decides what is to be done next. An event that
    /// the phase does not wait for ends the cycle; nothing ends the
    /// scheduler.
    pub fn step(&mut self, event: Event) -> (r: Step)
        requires
            old(self).wf(),
        ensures
            final(self).wf(),
            is_step(final(self)@, r, old(self)@.step(event)),
    {
        proof {
            lemma_step_keeps_wf(self@, event);
        }
        match self.phase {
            Phase::Idle => match event {
                Event::Tick => {
                    self.phase = Phase::Fetching;
                    Step { action: Action::Fetch, notice: Some(Notice::CycleStarted) }
                },
                _ => self.finish(Some(Notice::Unexpected)),
            },
            Phase::Fetching => match event {
                Event::Fetched(records) => {
                    self.raw = records;
                    self.phase = Phase::Normalizing;
                    Step { action: Action::Continue, notice: None }
                },
                Event::FetchFailed => self.finish(Some(Notice::FetchFailed)),
                _ => self.finish(Some(Notice::Unexpected)),
            },
            Phase::Normalizing => match event {
                Event::Proceed => {
                    let batch = deliverable(&self.raw);
                    let notice = Some(
                        Notice::Normalized {
                            alerts: batch.len(),
                            quarantined: self.raw.len() - batch.len(),
                        },
                    );
                    if batch.len() == 0 {
                        self.finish(notice)
                    } else {
                        let ids = alert_ids(&batch);
                        self.raw = Vec::new();
                        self.batch = batch;
                        self.phase = Phase::Reconciling;
                        Step { action: Action::Lookup(ids), notice }
                    }
                },
                _ => self.finish(Some(Notice::Unexpected)),
            },
            Phase::Reconciling => match event {
                Event::Rows(rows) => {
                    let queue = new_alerts(rows.as_slice(), self.batch.as_slice());
                    let updated = alerts_should_update(rows.as_slice(), self.batch.as_slice());
                    let notice = Some(
                        Notice::Found { untracked: queue.len(), changed: updated.len() },
                    );
                    if queue.len() == 0 {
                        self.finish(notice)
                    } else {
                        self.batch = Vec::new();
                        self.queue = queue;
                        self.phase = Phase::Distributing;
                        assert(self@.batch =~= Seq::empty());
                        Step { action: Action::ListSubscribed, notice }
                    }
                },
                Event::LookupFailed => self.finish(Some(Notice::LookupFailed)),
                _ => self.finish(Some(Notice::Unexpected)),
            },
            Phase::Distributing => match event {
                Event::Subscribers(guilds) => match self.stage {
                    Stage::Directory => {
                        self.channels = alert_channels(guilds.as_slice());
                        self.deliver(None)
                    },
                    _ => self.finish(Some(Notice::Unexpected)),
                },
                Event::DirectoryFailed => match self.stage {
                    Stage::Directory => {
                        let alert_id: i32 = self.queue[self.cursor].id;
                        self.advance(Some(Notice::DirectoryFailed { alert_id }))
                    },
                    _ => self.finish(Some(Notice::Unexpected)),
                },
                Event::Sent(ok) => match self.stage {
                    Stage::Sending => {
                        let notice = if ok {
                            None
                        } else {
                            Some(
                                Notice::DeliveryFailed {
                                    alert_id: self.queue[self.cursor].id,
                                    channel: self.channels[self.outcomes.len()],
                                },
                            )
                        };
                        self.outcomes.push(ok);
                        self.deliver(notice)
                    },
                    _ => self.finish(Some(Notice::Unexpected)),
                },
                Event::Upserted(ok) => match self.stage {
                    Stage::Storing => {
                        let notice = if ok {
                            None
                        } else {
                            Some(Notice::StoreFailed { alert_id: self.queue[self.cursor].id })
                        };
                        self.advance(notice)
                    },
                    _ => self.finish(Some(Notice::Unexpected)),
                },
                _ => self.finish(Some(Notice::Unexpected)),
            },
        }
    }
}

} // verus!
