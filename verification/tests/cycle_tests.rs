use cta_bot::cta::alerts::Alert;
use cta_bot::cycle::{copy_guilds, outcome, run_cycle, Attempt};
use cta_bot::db::{AlertStore, DBAlert, DBGuild};
use cta_bot::raw::{RawField, RawValue};
use cta_bot::scheduler::{
    alert_ids, deliverable, Action, Event, Notice, Phase, Watcher, INTERVAL_SECS,
};

fn text(s: &str) -> RawValue {
    RawValue::Text(s.to_string())
}

fn object(members: Vec<(&str, RawValue)>) -> RawValue {
    RawValue::Object(
        members.into_iter().map(|(name, value)| RawField { name: name.to_string(), value }).collect(),
    )
}

fn record_at(id: i32, headline: &str, start: &str) -> RawValue {
    object(vec![
        ("AlertId", text(&id.to_string())),
        ("Headline", text(headline)),
        ("ShortDescription", text("Trains are running with delays.")),
        ("FullDescription", object(vec![("#cdata-section", text("full"))])),
        ("SeverityScore", text("37")),
        ("SeverityColor", text("ffcc00")),
        ("SeverityCSS", text("minor-alert")),
        ("Impact", text("Minor Delays")),
        ("EventStart", text(start)),
        ("EventEnd", RawValue::Null),
        ("TBD", text("1")),
        ("MajorAlert", text("0")),
        ("AlertURL", object(vec![("#cdata-section", text("https://example.org"))])),
        ("ImpactedService", object(vec![("Service", RawValue::List(vec![]))])),
    ])
}

fn record(id: i32, headline: &str) -> RawValue {
    record_at(id, headline, "2024-01-15T12:00:00")
}

fn guild(id: i64, has_alerts: Option<bool>, channel: Option<i64>) -> DBGuild {
    DBGuild {
        guild_id: id,
        guild_name: Some(format!("guild {id}")),
        has_alerts,
        alert_channel: channel,
        accessibility_alerts: None,
        planned_alerts: None,
        route_ids: None,
        ephemeral_arrivals: None,
    }
}

fn three_guilds() -> Vec<DBGuild> {
    vec![
        guild(1, Some(true), Some(10)),
        guild(2, Some(true), None),
        guild(3, Some(true), Some(30)),
        guild(4, Some(false), Some(40)),
        guild(5, Some(true), Some(50)),
    ]
}

fn red_line_stored() -> AlertStore {
    let mut store = AlertStore::new();
    let alert = Alert::from_raw(&record(42, "Red Line delayed")).unwrap();
    store.upsert(&alert, 2).unwrap();
    store
}

#[test]
fn a_new_alert_is_sent_to_every_eligible_recipient_and_stored_with_its_count() {
    let mut watcher = Watcher::new();
    let mut store = AlertStore::new();
    let attempts = run_cycle(
        &mut watcher,
        &mut store,
        Some(vec![record(42, "Red Line delayed")]),
        &three_guilds(),
        &vec![vec![true, false, true]],
    );
    assert_eq!(
        attempts,
        vec![
            Attempt { alert_id: 42, channel: 10, delivered: true },
            Attempt { alert_id: 42, channel: 30, delivered: false },
            Attempt { alert_id: 42, channel: 50, delivered: true },
        ]
    );
    assert_eq!(store.len(), 1);
    assert!(store.contains(42));
    assert_eq!(store.published_to(42), Some(2));
    assert_eq!(store.lookup(&vec![42])[0].headline, "Red Line delayed");
    assert_eq!(watcher.phase(), Phase::Idle);
}

#[test]
fn an_unchanged_alert_is_neither_sent_nor_written() {
    let mut watcher = Watcher::new();
    let mut store = red_line_stored();
    let attempts = run_cycle(
        &mut watcher,
        &mut store,
        Some(vec![record(42, "Red Line delayed")]),
        &three_guilds(),
        &vec![vec![true, true, true]],
    );
    assert!(attempts.is_empty());
    assert_eq!(store.len(), 1);
    assert_eq!(store.published_to(42), Some(2));
    assert_eq!(watcher.phase(), Phase::Idle);
}

#[test]
fn a_changed_alert_is_reported_and_not_sent() {
    let mut watcher = Watcher::new();
    let mut store = red_line_stored();
    watcher.step(Event::Tick);
    watcher.step(Event::Fetched(vec![record(42, "Red Line delayed — resolved")]));
    let asked = watcher.step(Event::Proceed);
    let ids = match asked.action {
        Action::Lookup(ids) => ids,
        other => panic!("expected a lookup, got {other:?}"),
    };
    assert_eq!(ids, vec![42]);
    let step = watcher.step(Event::Rows(store.lookup(&ids)));
    assert_eq!(step.notice, Some(Notice::Found { untracked: 0, changed: 1 }));
    assert!(matches!(step.action, Action::Sleep(INTERVAL_SECS)));
    assert_eq!(watcher.phase(), Phase::Idle);
    assert_eq!(store.lookup(&vec![42])[0].headline, "Red Line delayed");

    let attempts = run_cycle(
        &mut watcher,
        &mut store,
        Some(vec![record(42, "Red Line delayed — resolved")]),
        &three_guilds(),
        &vec![vec![true, true, true]],
    );
    assert!(attempts.is_empty());
    assert_eq!(store.len(), 1);
    assert_eq!(store.published_to(42), Some(2));
    assert_eq!(store.lookup(&vec![42])[0].headline, "Red Line delayed");
}

#[test]
fn rerunning_a_cycle_on_the_same_batch_sends_nothing() {
    let batch = || vec![record(1, "a"), record(2, "b"), text("garbage"), record(3, "c")];
    let mut watcher = Watcher::new();
    let mut store = AlertStore::new();
    let outcomes = vec![vec![true, true, true], vec![false, false, false], vec![false, true]];
    let first = run_cycle(&mut watcher, &mut store, Some(batch()), &three_guilds(), &outcomes);
    assert_eq!(first.len(), 9);
    assert_eq!(store.published_to(1), Some(3));
    assert_eq!(store.published_to(2), Some(0));
    assert_eq!(store.published_to(3), Some(1));
    let second = run_cycle(&mut watcher, &mut store, Some(batch()), &three_guilds(), &outcomes);
    assert!(second.is_empty());
    assert_eq!(store.len(), 3);
    assert_eq!(store.published_to(1), Some(3));
    assert_eq!(store.published_to(2), Some(0));
    assert_eq!(store.published_to(3), Some(1));
}

#[test]
fn every_untracked_alert_is_absent_before_and_present_after() {
    let mut watcher = Watcher::new();
    let mut store = AlertStore::new();
    store.upsert(&Alert::from_raw(&record(2, "b")).unwrap(), 7).unwrap();
    assert!(!store.contains(1) && !store.contains(3));
    let attempts = run_cycle(
        &mut watcher,
        &mut store,
        Some(vec![record(1, "a"), record(2, "b"), record(3, "c")]),
        &three_guilds(),
        &vec![vec![false, true, false], vec![true, true, true]],
    );
    let sent_for: Vec<i32> = attempts.iter().map(|a| a.alert_id).collect();
    assert_eq!(sent_for, vec![1, 1, 1, 3, 3, 3]);
    assert_eq!(store.published_to(1), Some(1));
    assert_eq!(store.published_to(2), Some(7));
    assert_eq!(store.published_to(3), Some(3));
    assert_eq!(store.len(), 3);
}

#[test]
fn a_failed_send_does_not_stop_the_others_nor_the_write() {
    let mut watcher = Watcher::new();
    let mut store = AlertStore::new();
    let attempts = run_cycle(
        &mut watcher,
        &mut store,
        Some(vec![record(42, "Red Line delayed")]),
        &three_guilds(),
        &vec![vec![false]],
    );
    assert_eq!(attempts.len(), 3);
    assert!(attempts.iter().all(|a| !a.delivered));
    assert_eq!(store.published_to(42), Some(0));
}

#[test]
fn an_alert_without_recipients_is_stored_with_zero() {
    let mut watcher = Watcher::new();
    let mut store = AlertStore::new();
    let attempts =
        run_cycle(&mut watcher, &mut store, Some(vec![record(42, "Red Line delayed")]), &[], &vec![]);
    assert!(attempts.is_empty());
    assert_eq!(store.published_to(42), Some(0));
}

#[test]
fn a_failed_fetch_ends_the_cycle() {
    let mut watcher = Watcher::new();
    let mut store = red_line_stored();
    let attempts = run_cycle(&mut watcher, &mut store, None, &three_guilds(), &vec![]);
    assert!(attempts.is_empty());
    assert_eq!(store.len(), 1);
    assert_eq!(watcher.phase(), Phase::Idle);
    let again = run_cycle(&mut watcher, &mut store, Some(vec![]), &three_guilds(), &vec![]);
    assert!(again.is_empty());
    assert_eq!(watcher.phase(), Phase::Idle);
}

#[test]
fn an_identifier_that_occurs_twice_is_sent_twice_and_stored_once() {
    let mut watcher = Watcher::new();
    let mut store = AlertStore::new();
    let attempts = run_cycle(
        &mut watcher,
        &mut store,
        Some(vec![record(4, "first"), record(4, "second")]),
        &[guild(1, Some(true), Some(10))],
        &vec![vec![true], vec![false]],
    );
    assert_eq!(attempts.len(), 2);
    assert_eq!(store.len(), 1);
    assert_eq!(store.published_to(4), Some(1));
    assert_eq!(store.lookup(&vec![4])[0].headline, "first");
}

#[test]
fn an_alert_whose_start_does_not_exist_is_set_aside() {
    let records = vec![
        record_at(1, "gap", "2024-03-10T02:30:00"),
        record_at(2, "fine", "2024-03-10T03:30:00"),
    ];
    let batch = deliverable(&records);
    assert_eq!(alert_ids(&batch), vec![2]);
    let mut watcher = Watcher::new();
    watcher.step(Event::Tick);
    watcher.step(Event::Fetched(records));
    let step = watcher.step(Event::Proceed);
    assert_eq!(step.notice, Some(Notice::Normalized { alerts: 1, quarantined: 1 }));
    assert!(matches!(step.action, Action::Lookup(ids) if ids == vec![2]));
}

#[test]
fn the_scheduler_walks_through_its_phases() {
    let mut watcher = Watcher::new();
    assert_eq!(watcher.phase(), Phase::Idle);
    let step = watcher.step(Event::Tick);
    assert!(matches!(step.action, Action::Fetch));
    assert_eq!(step.notice, Some(Notice::CycleStarted));
    assert_eq!(watcher.phase(), Phase::Fetching);

    let step = watcher.step(Event::Fetched(vec![record(42, "Red Line delayed"), text("x")]));
    assert!(matches!(step.action, Action::Continue));
    assert_eq!(step.notice, None);
    assert_eq!(watcher.phase(), Phase::Normalizing);

    let step = watcher.step(Event::Proceed);
    assert!(matches!(&step.action, Action::Lookup(ids) if ids == &vec![42]));
    assert_eq!(step.notice, Some(Notice::Normalized { alerts: 1, quarantined: 1 }));
    assert_eq!(watcher.phase(), Phase::Reconciling);

    let step = watcher.step(Event::Rows(vec![]));
    assert!(matches!(step.action, Action::ListSubscribed));
    assert_eq!(step.notice, Some(Notice::Found { untracked: 1, changed: 0 }));
    assert_eq!(watcher.phase(), Phase::Distributing);

    let step = watcher.step(Event::Subscribers(three_guilds()));
    match step.action {
        Action::Send { alert_id, channel, message } => {
            assert_eq!(alert_id, 42);
            assert_eq!(channel, 10);
            assert_eq!(message.title, "Red Line delayed");
            assert_eq!(message.description, "Trains are running with delays.");
            assert_eq!(message.timestamp, 1705341600);
            assert_eq!(message.end_time, "TBD");
        }
        other => panic!("expected a send, got {other:?}"),
    }
    assert_eq!(step.notice, None);

    let step = watcher.step(Event::Sent(true));
    assert!(matches!(step.action, Action::Send { channel: 30, .. }));
    assert_eq!(step.notice, None);
    let step = watcher.step(Event::Sent(false));
    assert!(matches!(step.action, Action::Send { channel: 50, .. }));
    assert_eq!(step.notice, Some(Notice::DeliveryFailed { alert_id: 42, channel: 30 }));
    let step = watcher.step(Event::Sent(true));
    match step.action {
        Action::Upsert { alert, publish_count } => {
            assert_eq!(alert.id, 42);
            assert_eq!(publish_count, 2);
        }
        other => panic!("expected a write, got {other:?}"),
    }
    assert_eq!(watcher.phase(), Phase::Distributing);

    let step = watcher.step(Event::Upserted(true));
    assert!(matches!(step.action, Action::Sleep(10)));
    assert_eq!(step.notice, None);
    assert_eq!(watcher.phase(), Phase::Idle);
}

#[test]
fn failures_end_the_cycle_or_the_alert_and_never_the_scheduler() {
    let mut watcher = Watcher::new();
    watcher.step(Event::Tick);
    let step = watcher.step(Event::FetchFailed);
    assert_eq!(step.notice, Some(Notice::FetchFailed));
    assert!(matches!(step.action, Action::Sleep(10)));
    assert_eq!(watcher.phase(), Phase::Idle);

    watcher.step(Event::Tick);
    watcher.step(Event::Fetched(vec![text("garbage")]));
    let step = watcher.step(Event::Proceed);
    assert_eq!(step.notice, Some(Notice::Normalized { alerts: 0, quarantined: 1 }));
    assert!(matches!(step.action, Action::Sleep(10)));
    assert_eq!(watcher.phase(), Phase::Idle);

    watcher.step(Event::Tick);
    watcher.step(Event::Fetched(vec![record(1, "a"), record(2, "b")]));
    watcher.step(Event::Proceed);
    let step = watcher.step(Event::LookupFailed);
    assert_eq!(step.notice, Some(Notice::LookupFailed));
    assert_eq!(watcher.phase(), Phase::Idle);

    watcher.step(Event::Tick);
    watcher.step(Event::Fetched(vec![record(1, "a"), record(2, "b")]));
    watcher.step(Event::Proceed);
    watcher.step(Event::Rows(vec![]));
    let step = watcher.step(Event::DirectoryFailed);
    assert_eq!(step.notice, Some(Notice::DirectoryFailed { alert_id: 1 }));
    assert!(matches!(step.action, Action::ListSubscribed));
    let step = watcher.step(Event::Subscribers(vec![]));
    assert!(matches!(&step.action, Action::Upsert { alert, publish_count: 0 } if alert.id == 2));
    let step = watcher.step(Event::Upserted(false));
    assert_eq!(step.notice, Some(Notice::StoreFailed { alert_id: 2 }));
    assert!(matches!(step.action, Action::Sleep(10)));
    assert_eq!(watcher.phase(), Phase::Idle);
}

#[test]
fn an_event_out_of_turn_ends_the_cycle() {
    let out_of_turn: Vec<(Vec<Event>, Event)> = vec![
        (vec![], Event::Sent(true)),
        (vec![], Event::Proceed),
        (vec![Event::Tick], Event::Tick),
        (vec![Event::Tick], Event::Rows(vec![])),
        (vec![Event::Tick, Event::Fetched(vec![record(1, "a")])], Event::Upserted(true)),
        (
            vec![Event::Tick, Event::Fetched(vec![record(1, "a")]), Event::Proceed],
            Event::Subscribers(vec![]),
        ),
        (
            vec![
                Event::Tick,
                Event::Fetched(vec![record(1, "a")]),
                Event::Proceed,
                Event::Rows(vec![]),
            ],
            Event::Sent(true),
        ),
        (
            vec![
                Event::Tick,
                Event::Fetched(vec![record(1, "a")]),
                Event::Proceed,
                Event::Rows(vec![]),
                Event::Subscribers(three_guilds()),
            ],
            Event::Upserted(true),
        ),
        (
            vec![
                Event::Tick,
                Event::Fetched(vec![record(1, "a")]),
                Event::Proceed,
                Event::Rows(vec![]),
                Event::Subscribers(vec![]),
            ],
            Event::DirectoryFailed,
        ),
    ];
    for (before, event) in out_of_turn {
        let mut watcher = Watcher::new();
        for e in before {
            watcher.step(e);
        }
        let step = watcher.step(event);
        assert_eq!(step.notice, Some(Notice::Unexpected));
        assert!(matches!(step.action, Action::Sleep(10)));
        assert_eq!(watcher.phase(), Phase::Idle);
    }
}

#[test]
fn the_outcome_table_defaults_to_failure() {
    let table = vec![vec![true, false], vec![]];
    assert!(outcome(&table, 0, 0));
    assert!(!outcome(&table, 0, 1));
    assert!(!outcome(&table, 0, 2));
    assert!(!outcome(&table, 1, 0));
    assert!(!outcome(&table, 2, 0));
    let copies = copy_guilds(&three_guilds());
    assert_eq!(copies.len(), 5);
    assert_eq!(copies[2].alert_channel, Some(30));
    assert_eq!(copies[0].guild_name.as_deref(), Some("guild 1"));
    let _row: Option<DBAlert> = None;
}
