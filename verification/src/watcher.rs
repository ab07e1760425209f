//! The alert watcher: what a poll cycle decides, from the fetched batch to
//! the rows it writes.

use crate::civil::chicago_timestamp;
use crate::cta::alerts::{alert_views, Alert, AlertView, AlertsOptions, DateOrDateTime};
use crate::db::{has_id, row_views, DBAlert, DBAlertView, DBGuild};
use crate::text::{decimal, push_decimal, texts_of};
use vstd::prelude::*;
use vstd::string::*;

verus! {

/// Whether the store's rows say that the alert has been announced: some row
/// has its identifier.
pub open spec fn is_tracked(rows: Seq<DBAlertView>, alert: AlertView) -> bool {
    has_id(rows, alert.id)
}

/// Whether the alert has been announced with another headline or another
/// summary than it has now. The texts are compared character by character.
pub open spec fn is_changed(rows: Seq<DBAlertView>, alert: AlertView) -> bool {
    exists|i: int|
        0 <= i < rows.len() && (#[trigger] rows[i]).alert_id == alert.id && (rows[i].headline
            != alert.headline || rows[i].short_description != alert.short_description)
}

/// The alerts of `fetched` that have not been announced, in order.
pub open spec fn untracked_of(rows: Seq<DBAlertView>, fetched: Seq<AlertView>) -> Seq<AlertView> {
    fetched.filter(|a: AlertView| !is_tracked(rows, a))
}

/// The alerts of `fetched` that have been announced with other words, in
/// order.
pub open spec fn changed_of(rows: Seq<DBAlertView>, fetched: Seq<AlertView>) -> Seq<AlertView> {
    fetched.filter(|a: AlertView| is_changed(rows, a))
}

/// The alerts of `fetched` that have been announced as they are, in order.
pub open spec fn unchanged_of(rows: Seq<DBAlertView>, fetched: Seq<AlertView>) -> Seq<AlertView> {
    fetched.filter(|a: AlertView| is_tracked(rows, a) && !is_changed(rows, a))
}

fn has_row(db_alerts: &[DBAlert], alert: &Alert) -> (r: bool)
    ensures
        r == is_tracked(row_views(db_alerts@), alert@),
{
    let mut i: usize = 0;
    while i < db_alerts.len()
        invariant
            i <= db_alerts.len(),
            forall|j: int|
                0 <= j < i ==> (#[trigger] row_views(db_alerts@)[j]).alert_id != alert.id,
        decreases db_alerts.len() - i,
    {
        if db_alerts[i].alert_id == alert.id {
            assert(row_views(db_alerts@)[i as int].alert_id == alert.id);
            return true;
        }
        i += 1;
    }
    false
}

fn differs(db_alerts: &[DBAlert], alert: &Alert) -> (r: bool)
    ensures
        r == is_changed(row_views(db_alerts@), alert@),
{
    let mut i: usize = 0;
    while i < db_alerts.len()
        invariant
            i <= db_alerts.len(),
            forall|j: int|
                0 <= j < i ==> !((#[trigger] row_views(db_alerts@)[j]).alert_id == alert.id && (
                row_views(db_alerts@)[j].headline != alert@.headline || row_views(
                    db_alerts@,
                )[j].short_description != alert@.short_description)),
        decreases db_alerts.len() - i,
    {
        if db_alerts[i].alert_id == alert.id && (db_alerts[i].headline != alert.headline
            || db_alerts[i].short_description != alert.short_description) {
            assert(row_views(db_alerts@)[i as int].alert_id == alert.id);
            return true;
        }
        i += 1;
    }
    false
}

/// The fetched alerts that have no row: the candidates for a first
/// announcement. The comparison goes by identifier alone, and an identifier
/// that occurs twice in the batch is kept twice.
pub fn new_alerts(db_alerts: &[DBAlert], current_alerts: &[Alert]) -> (r: Vec<Alert>)
    ensures
        alert_views(r@) == untracked_of(row_views(db_alerts@), alert_views(current_alerts@)),
{
    let ghost rows = row_views(db_alerts@);
    let ghost all = alert_views(current_alerts@);
    let ghost keep = |a: AlertView| !is_tracked(rows, a);
    let mut out: Vec<Alert> = Vec::new();
    let mut i: usize = 0;
    proof {
        reveal(Seq::filter);
        assert(all.take(0) =~= Seq::empty());
    }
    while i < current_alerts.len()
        invariant
            i <= current_alerts.len(),
            rows == row_views(db_alerts@),
            all == alert_views(current_alerts@),
            keep == |a: AlertView| !is_tracked(rows, a),
            alert_views(out@) == all.take(i as int).filter(keep),
        decreases current_alerts.len() - i,
    {
        let ghost before = out@;
        proof {
            reveal(Seq::filter);
            assert(all.take(i + 1).drop_last() =~= all.take(i as int));
            assert(all.take(i + 1).last() == current_alerts@[i as int]@);
        }
        if !has_row(db_alerts, &current_alerts[i]) {
            out.push(current_alerts[i].duplicate());
            assert(alert_views(out@) =~= alert_views(before).push(current_alerts@[i as int]@));
        }
        i += 1;
    }
    assert(all.take(current_alerts.len() as int) =~= all);
    out
}

/// The fetched alerts whose row has another headline or another summary.
pub fn alerts_should_update(db_alerts: &[DBAlert], current_alerts: &[Alert]) -> (r: Vec<Alert>)
    ensures
        alert_views(r@) == changed_of(row_views(db_alerts@), alert_views(current_alerts@)),
{
    let ghost rows = row_views(db_alerts@);
    let ghost all = alert_views(current_alerts@);
    let ghost keep = |a: AlertView| is_changed(rows, a);
    let mut out: Vec<Alert> = Vec::new();
    let mut i: usize = 0;
    proof {
        reveal(Seq::filter);
        assert(all.take(0) =~= Seq::empty());
    }
    while i < current_alerts.len()
        invariant
            i <= current_alerts.len(),
            rows == row_views(db_alerts@),
            all == alert_views(current_alerts@),
            keep == |a: AlertView| is_changed(rows, a),
            alert_views(out@) == all.take(i as int).filter(keep),
        decreases current_alerts.len() - i,
    {
        let ghost before = out@;
        proof {
            reveal(Seq::filter);
            assert(all.take(i + 1).drop_last() =~= all.take(i as int));
            assert(all.take(i + 1).last() == current_alerts@[i as int]@);
        }
        if differs(db_alerts, &current_alerts[i]) {
            out.push(current_alerts[i].duplicate());
            assert(alert_views(out@) =~= alert_views(before).push(current_alerts@[i as int]@));
        }
        i += 1;
    }
    assert(all.take(current_alerts.len() as int) =~= all);
    out
}

/// The fetched alerts that have a row with the words they have now.
pub fn unchanged_alerts(db_alerts: &[DBAlert], current_alerts: &[Alert]) -> (r: Vec<Alert>)
    ensures
        alert_views(r@) == unchanged_of(row_views(db_alerts@), alert_views(current_alerts@)),
{
    let ghost rows = row_views(db_alerts@);
    let ghost all = alert_views(current_alerts@);
    let ghost keep = |a: AlertView| is_tracked(rows, a) && !is_changed(rows, a);
    let mut out: Vec<Alert> = Vec::new();
    let mut i: usize = 0;
    proof {
        reveal(Seq::filter);
        assert(all.take(0) =~= Seq::empty());
    }
    while i < current_alerts.len()
        invariant
            i <= current_alerts.len(),
            rows == row_views(db_alerts@),
            all == alert_views(current_alerts@),
            keep == |a: AlertView| is_tracked(rows, a) && !is_changed(rows, a),
            alert_views(out@) == all.take(i as int).filter(keep),
        decreases current_alerts.len() - i,
    {
        let ghost before = out@;
        proof {
            reveal(Seq::filter);
            assert(all.take(i + 1).drop_last() =~= all.take(i as int));
            assert(all.take(i + 1).last() == current_alerts@[i as int]@);
        }
        if has_row(db_alerts, &current_alerts[i]) && !differs(db_alerts, &current_alerts[i]) {
            out.push(current_alerts[i].duplicate());
            assert(alert_views(out@) =~= alert_views(before).push(current_alerts@[i as int]@));
        }
        i += 1;
    }
    assert(all.take(current_alerts.len() as int) =~= all);
    out
}

/// A fetched batch, split by what the store knows of each alert.
#[derive(Debug)]
pub struct Reconciliation {
    /// The alerts that have no row.
    pub untracked: Vec<Alert>,
    /// The alerts whose row has another headline or summary.
    pub changed: Vec<Alert>,
    /// The rest.
    pub unchanged: Vec<Alert>,
}

/// Splits a fetched batch into the alerts that are new to the store, those
/// that it has with other words, and those that it has as they are. Each
/// part keeps the order of the batch.
pub fn reconcile(db_alerts: &[DBAlert], fetched: &[Alert]) -> (r: Reconciliation)
    ensures
        alert_views(r.untracked@) == untracked_of(row_views(db_alerts@), alert_views(fetched@)),
        alert_views(r.changed@) == changed_of(row_views(db_alerts@), alert_views(fetched@)),
        alert_views(r.unchanged@) == unchanged_of(row_views(db_alerts@), alert_views(fetched@)),
{
    Reconciliation {
        untracked: new_alerts(db_alerts, fetched),
        changed: alerts_should_update(db_alerts, fetched),
        unchanged: unchanged_alerts(db_alerts, fetched),
    }
}

/// Every fetched alert falls in exactly one of the three parts, so their
/// lengths add up to the length of the batch.
pub proof fn lemma_reconcile_partitions(rows: Seq<DBAlertView>, fetched: Seq<AlertView>)
    ensures
        untracked_of(rows, fetched).len() + changed_of(rows, fetched).len() + unchanged_of(
            rows,
            fetched,
        ).len() == fetched.len(),
    decreases fetched.len(),
{
    reveal(Seq::filter);
    if fetched.len() > 0 {
        lemma_reconcile_partitions(rows, fetched.drop_last());
    }
}

/// An alert is among the untracked ones exactly if it is in the batch and
/// has no row.
pub proof fn lemma_untracked_members(rows: Seq<DBAlertView>, fetched: Seq<AlertView>)
    ensures
        forall|a: AlertView|
            untracked_of(rows, fetched).contains(a) <==> fetched.contains(a) && !has_id(
                rows,
                a.id,
            ),
{
    let keep = |a: AlertView| !is_tracked(rows, a);
    assert forall|a: AlertView|
        untracked_of(rows, fetched).contains(a) <==> fetched.contains(a) && !has_id(
            rows,
            a.id,
        ) by {
        if untracked_of(rows, fetched).contains(a) {
            let i = choose|i: int|
                0 <= i < fetched.filter(keep).len() && fetched.filter(keep)[i] == a;
            fetched.lemma_filter_pred(keep, i);
            fetched.lemma_filter_contains_rev(keep, a);
        }
        if fetched.contains(a) && !has_id(rows, a.id) {
            let i = choose|i: int| 0 <= i < fetched.len() && fetched[i] == a;
            fetched.lemma_filter_contains(keep, i);
        }
    }
}

/// Whether a subscriber is to receive alerts: it asked for them, and it
/// named a channel.
pub open spec fn is_eligible(guild: DBGuild) -> bool {
    guild.has_alerts == Some(true) && guild.alert_channel is Some
}

/// The channels of the subscribers that are to receive alerts, in the order
/// of the subscribers.
pub open spec fn channels_of(guilds: Seq<DBGuild>) -> Seq<i64>
    decreases guilds.len(),
{
    if guilds.len() == 0 {
        Seq::empty()
    } else if is_eligible(guilds.last()) {
        channels_of(guilds.drop_last()).push(guilds.last().alert_channel->0)
    } else {
        channels_of(guilds.drop_last())
    }
}

/// The channels that an alert goes to: one for each subscriber that asked
/// for alerts and named a channel.
pub fn alert_channels(guilds: &[DBGuild]) -> (r: Vec<i64>)
    ensures
        r@ == channels_of(guilds@),
{
    let mut out: Vec<i64> = Vec::new();
    let mut i: usize = 0;
    assert(guilds@.take(0) =~= Seq::empty());
    while i < guilds.len()
        invariant
            i <= guilds.len(),
            out@ == channels_of(guilds@.take(i as int)),
        decreases guilds.len() - i,
    {
        assert(guilds@.take(i + 1).drop_last() =~= guilds@.take(i as int));
        assert(guilds@.take(i + 1).last() == guilds@[i as int]);
        let wants = match guilds[i].has_alerts {
            Some(b) => b,
            None => false,
        };
        if wants {
            match guilds[i].alert_channel {
                Some(channel) => {
                    out.push(channel);
                },
                None => {},
            }
        }
        i += 1;
    }
    assert(guilds@.take(guilds.len() as int) =~= guilds@);
    out
}

/// No subscriber that did not ask for alerts, and none without a channel,
/// is among the channels; every other one is.
pub proof fn lemma_channels_are_eligible(guilds: Seq<DBGuild>)
    ensures
        forall|c: i64|
            channels_of(guilds).contains(c) <==> exists|i: int|
                0 <= i < guilds.len() && is_eligible(#[trigger] guilds[i])
                    && guilds[i].alert_channel == Some(c),
    decreases guilds.len(),
{
    if guilds.len() == 0 {
    } else {
        let rest = guilds.drop_last();
        lemma_channels_are_eligible(rest);
        assert forall|c: i64|
            channels_of(guilds).contains(c) <==> exists|i: int|
                0 <= i < guilds.len() && is_eligible(#[trigger] guilds[i])
                    && guilds[i].alert_channel == Some(c) by {
            if channels_of(guilds).contains(c) {
                if channels_of(rest).contains(c) {
                    let i = choose|i: int|
                        0 <= i < rest.len() && is_eligible(#[trigger] rest[i])
                            && rest[i].alert_channel == Some(c);
                    assert(guilds[i] == rest[i]);
                } else {
                    let k = choose|k: int|
                        0 <= k < channels_of(guilds).len() && channels_of(guilds)[k] == c;
                    assert(is_eligible(guilds[guilds.len() - 1]));
                }
            }
            if exists|i: int|
                0 <= i < guilds.len() && is_eligible(#[trigger] guilds[i])
                    && guilds[i].alert_channel == Some(c) {
                let i = choose|i: int|
                    0 <= i < guilds.len() && is_eligible(#[trigger] guilds[i])
                        && guilds[i].alert_channel == Some(c);
                if i < rest.len() {
                    assert(rest[i] == guilds[i]);
                    assert(channels_of(rest).contains(c));
                    let k = choose|k: int|
                        0 <= k < channels_of(rest).len() && channels_of(rest)[k] == c;
                    assert(channels_of(guilds)[k] == c);
                } else {
                    assert(channels_of(guilds).last() == c);
                }
            }
        }
    }
}

/// How many of `outcomes` are successes.
pub open spec fn successes(outcomes: Seq<bool>) -> nat
    decreases outcomes.len(),
{
    if outcomes.len() == 0 {
        0
    } else if outcomes.last() {
        successes(outcomes.drop_last()) + 1
    } else {
        successes(outcomes.drop_last())
    }
}

/// The publish count that `outcomes` give: the number of successes, held to
/// the range of the row's column.
pub open spec fn publish_count_of(outcomes: Seq<bool>) -> i32 {
    if successes(outcomes) > i32::MAX {
        i32::MAX
    } else {
        successes(outcomes) as i32
    }
}

/// There are no more successes than attempts.
pub proof fn lemma_successes_bounded(outcomes: Seq<bool>)
    ensures
        successes(outcomes) <= outcomes.len(),
    decreases outcomes.len(),
{
    if outcomes.len() > 0 {
        lemma_successes_bounded(outcomes.drop_last());
    }
}

/// While there are no more attempts than the row's column can count, the
/// publish count is the number of successes itself.
pub proof fn lemma_publish_count_exact(outcomes: Seq<bool>)
    requires
        outcomes.len() <= i32::MAX,
    ensures
        publish_count_of(outcomes) == successes(outcomes),
{
    lemma_successes_bounded(outcomes);
}

/// Counts the deliveries that succeeded. Each attempt counts once, and a
/// failure counts for nothing.
pub fn publish_count(outcomes: &[bool]) -> (r: i32)
    ensures
        r == publish_count_of(outcomes@),
{
    let mut count: i32 = 0;
    let mut i: usize = 0;
    assert(outcomes@.take(0) =~= Seq::empty());
    while i < outcomes.len()
        invariant
            i <= outcomes.len(),
            count == publish_count_of(outcomes@.take(i as int)),
        decreases outcomes.len() - i,
    {
        assert(outcomes@.take(i + 1).drop_last() =~= outcomes@.take(i as int));
        assert(outcomes@.take(i + 1).last() == outcomes@[i as int]);
        if outcomes[i] && count < i32::MAX {
            count += 1;
        }
        i += 1;
    }
    assert(outcomes@.take(outcomes.len() as int) =~= outcomes@);
    count
}

/// The instants of an alert, as Unix timestamps.
#[derive(Clone, Copy, Debug, PartialEq, Eq, Structural)]
pub struct AlertTimes {
    /// When the disruption starts.
    pub start: i64,
    /// When it ends, where that is known.
    pub end: Option<i64>,
}

/// The timestamp of an end that may be missing. The outer `None` is an end
/// that is no wall-clock time of the zone.
pub open spec fn end_of(event_end: Option<DateOrDateTime>) -> Option<Option<i64>> {
    match event_end {
        None => Some(None),
        Some(e) => match chicago_timestamp(e.instant_spec()) {
            Some(t) => Some(Some(t)),
            None => None,
        },
    }
}

/// The instants of an alert, read in the transit system's zone. Where the
/// end is still to be determined, `event_end` is not looked at. `None` where
/// a wall-clock value that is looked at does not exist in the zone.
pub open spec fn times_of(alert: AlertView) -> Option<AlertTimes> {
    match chicago_timestamp(alert.event_start.instant_spec()) {
        None => None,
        Some(start) => if alert.tbd {
            Some(AlertTimes { start, end: None })
        } else {
            match end_of(alert.event_end) {
                Some(end) => Some(AlertTimes { start, end }),
                None => None,
            }
        },
    }
}

/// Puts the two resolved instants of an alert together. `start` and `end`
/// are what the zone gives for `event_start` and for `event_end`, the latter
/// only asked where the alert has an end that counts.
pub fn times_from(tbd: bool, start: Option<i64>, end: Option<Option<i64>>) -> (r: Option<
    AlertTimes,
>)
    ensures
        r == match start {
            None => None,
            Some(s) => if tbd {
                Some(AlertTimes { start: s, end: None })
            } else {
                match end {
                    Some(e) => Some(AlertTimes { start: s, end: e }),
                    None => None,
                }
            },
        },
{
    match start {
        None => None,
        Some(s) => if tbd {
            Some(AlertTimes { start: s, end: None })
        } else {
            match end {
                Some(e) => Some(AlertTimes { start: s, end: e }),
                None => None,
            }
        },
    }
}

/// Resolves the instants of an alert in the transit system's zone.
pub fn resolve_times(alert: &Alert) -> (r: Option<AlertTimes>)
    ensures
        r == times_of(alert@),
{
    let start = alert.event_start.timestamp();
    let end = if alert.tbd {
        Some(None)
    } else {
        match alert.event_end {
            None => Some(None),
            Some(e) => match e.timestamp() {
                Some(t) => Some(Some(t)),
                None => None,
            },
        }
    };
    times_from(alert.tbd, start, end)
}

/// How the end of an alert reads in a message: the marker `TBD` where the
/// end is still to be determined, else a timestamp tag, with 0 for an alert
/// that has no end.
pub open spec fn end_text_of(tbd: bool, end: Option<i64>) -> Seq<char> {
    if tbd {
        seq!['T', 'B', 'D']
    } else {
        seq!['<', 't', ':'] + decimal(
            match end {
                Some(t) => t as int,
                None => 0,
            },
        ) + seq![':', 'f', '>']
    }
}

/// The line that tells an alert to a reader: the headline in bold, the
/// start and the end in brackets, then the summary.
pub open spec fn alert_text_of(alert: AlertView, times: AlertTimes) -> Seq<char> {
    seq!['*', '*'] + alert.headline + seq!['*', '*', '\n', '(', '<', 't', ':'] + decimal(
        times.start as int,
    ) + seq![':', 'f', '>', ' ', '-', ' '] + end_text_of(alert.tbd, times.end) + seq![')', '\n']
        + alert.short_description
}

/// Writes the end of an alert for a message.
pub fn end_text(tbd: bool, end: Option<i64>) -> (r: String)
    ensures
        r@ == end_text_of(tbd, end),
{
    proof {
        reveal_strlit("TBD");
        reveal_strlit("<t:");
        reveal_strlit(":f>");
    }
    if tbd {
        let r = String::from_str("TBD");
        assert(r@ =~= end_text_of(tbd, end));
        r
    } else {
        let mut r = String::from_str("<t:");
        let t: i64 = match end {
            Some(t) => t,
            None => 0,
        };
        push_decimal(&mut r, t);
        r.append(":f>");
        assert(r@ =~= end_text_of(tbd, end));
        r
    }
}

/// Writes the line that tells an alert to a reader.
pub fn alert_text(alert: &Alert, times: &AlertTimes) -> (r: String)
    ensures
        r@ == alert_text_of(alert@, *times),
{
    proof {
        reveal_strlit("**");
        reveal_strlit("**\n(<t:");
        reveal_strlit(":f> - ");
        reveal_strlit(")\n");
    }
    let mut r = String::from_str("**");
    r.append(alert.headline.as_str());
    r.append("**\n(<t:");
    push_decimal(&mut r, times.start);
    r.append(":f> - ");
    let end = end_text(alert.tbd, times.end);
    r.append(end.as_str());
    r.append(")\n");
    r.append(alert.short_description.as_str());
    assert(r@ =~= alert_text_of(alert@, *times));
    r
}

/// What is sent to a subscriber for one alert.
#[derive(Debug)]
pub struct AlertMessage {
    /// The alert's headline.
    pub title: String,
    /// The alert's summary.
    pub description: String,
    /// The start of the disruption, as a Unix timestamp.
    pub timestamp: i64,
    /// The end of the disruption as it reads in a message.
    pub end_time: String,
}

/// What an `AlertMessage` holds, as mathematics.
pub struct AlertMessageView {
    pub title: Seq<char>,
    pub description: Seq<char>,
    pub timestamp: i64,
    pub end_time: Seq<char>,
}

impl View for AlertMessage {
    type V = AlertMessageView;

    open spec fn view(&self) -> AlertMessageView {
        AlertMessageView {
            title: self.title@,
            description: self.description@,
            timestamp: self.timestamp,
            end_time: self.end_time@,
        }
    }
}

/// The message that announces an alert.
pub open spec fn message_of(alert: AlertView, times: AlertTimes) -> AlertMessageView {
    AlertMessageView {
        title: alert.headline,
        description: alert.short_description,
        timestamp: times.start,
        end_time: end_text_of(alert.tbd, times.end),
    }
}

impl AlertMessage {
    /// Renders the message that announces `alert`.
    pub fn render(alert: &Alert, times: &AlertTimes) -> (r: AlertMessage)
        ensures
            r@ == message_of(alert@, *times),
    {
        AlertMessage {
            title: alert.headline.clone(),
            description: alert.short_description.clone(),
            timestamp: times.start,
            end_time: end_text(alert.tbd, times.end),
        }
    }
}

/// An alert whose end is still to be determined reads `TBD` for its end,
/// whatever its `event_end` holds: with any other `event_end` its instants,
/// its message and its line are the same.
pub proof fn lemma_tbd_ignores_event_end(alert: AlertView, other_end: Option<DateOrDateTime>)
    requires
        alert.tbd,
    ensures
        ({
            let other = AlertView { event_end: other_end, ..alert };
            &&& times_of(other) == times_of(alert)
            &&& forall|times: AlertTimes|
                #![trigger message_of(alert, times)]
                #![trigger alert_text_of(alert, times)]
                {
                    &&& message_of(other, times) == message_of(alert, times)
                    &&& alert_text_of(other, times) == alert_text_of(alert, times)
                    &&& message_of(alert, times).end_time == seq!['T', 'B', 'D']
                }
        }),
{
}

/// Why an alert was not announced.
#[derive(Clone, Copy, Debug, PartialEq, Eq, Structural)]
pub enum PublishError {
    /// The store failed.
    DBError,
    /// The chat platform failed.
    DiscordError,
    /// The subscriber named no channel.
    NoChannelError,
}

impl PublishError {
    /// The sentence that describes the error to an operator.
    pub fn message(&self) -> (r: String)
        ensures
            r@ == match self {
                PublishError::DBError => "Failed to save alert to database."@,
                PublishError::DiscordError => "Failed to publish alert to Discord."@,
                PublishError::NoChannelError => "No Channel Set"@,
            },
    {
        match self {
            PublishError::DBError => String::from_str("Failed to save alert to database."),
            PublishError::DiscordError => String::from_str("Failed to publish alert to Discord."),
            PublishError::NoChannelError => String::from_str("No Channel Set"),
        }
    }
}

/// The routes that the watcher asks alerts for: the eight rail lines.
pub open spec fn watched_routes() -> Seq<Seq<char>> {
    seq!["red"@, "blue"@, "g"@, "org"@, "brn"@, "p"@, "pink"@, "y"@]
}

/// What the watcher asks of the feed at each poll: the alerts in effect on
/// the rail lines, planned work with them, lifts and escalators without.
pub fn watch_options() -> (r: AlertsOptions)
    ensures
        texts_of(r.route_ids@) == watched_routes(),
        r.active_only == Some(true),
        r.accessibility == Some(false),
        r.planned == Some(true),
        r.by_start_date is None,
        r.recent_days is None,
{
    let mut route_ids: Vec<String> = Vec::new();
    route_ids.push(String::from_str("red"));
    route_ids.push(String::from_str("blue"));
    route_ids.push(String::from_str("g"));
    route_ids.push(String::from_str("org"));
    route_ids.push(String::from_str("brn"));
    route_ids.push(String::from_str("p"));
    route_ids.push(String::from_str("pink"));
    route_ids.push(String::from_str("y"));
    assert(texts_of(route_ids@) =~= watched_routes());
    AlertsOptions {
        route_ids,
        active_only: Some(true),
        accessibility: Some(false),
        planned: Some(true),
        by_start_date: None,
        recent_days: None,
    }
}

} // verus!
