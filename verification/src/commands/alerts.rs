//! The command that lists the active alerts.

use crate::cta::alerts::{alert_views, Alert, AlertView};
use crate::text::{join, joined, texts_of};
use crate::watcher::{alert_text, alert_text_of, resolve_times, times_of};
use vstd::prelude::*;
use vstd::string::*;

verus! {

/// The lines that tell `alerts` to a reader, one for each alert whose
/// instants exist in the transit system's zone, in order.
pub open spec fn alert_lines(alerts: Seq<AlertView>) -> Seq<Seq<char>>
    decreases alerts.len(),
{
    if alerts.len() == 0 {
        Seq::empty()
    } else {
        match times_of(alerts.last()) {
            Some(times) => alert_lines(alerts.drop_last()).push(
                alert_text_of(alerts.last(), times),
            ),
            None => alert_lines(alerts.drop_last()),
        }
    }
}

/// Writes one line for each alert. An alert whose end is still to be
/// determined reads `TBD` for its end.
pub fn alerts_texts(alerts: &[Alert]) -> (r: Vec<String>)
    ensures
        texts_of(r@) == alert_lines(alert_views(alerts@)),
{
    let ghost all = alert_views(alerts@);
    let mut out: Vec<String> = Vec::new();
    let mut i: usize = 0;
    assert(all.take(0) =~= Seq::empty());
    assert(texts_of(out@) =~= Seq::empty());
    while i < alerts.len()
        invariant
            i <= alerts.len(),
            all == alert_views(alerts@),
            texts_of(out@) == alert_lines(all.take(i as int)),
        decreases alerts.len() - i,
    {
        let ghost before = out@;
        assert(all.take(i + 1).drop_last() =~= all.take(i as int));
        assert(all.take(i + 1).last() == alerts@[i as int]@);
        match resolve_times(&alerts[i]) {
            Some(times) => {
                let line = alert_text(&alerts[i], &times);
                out.push(line);
                assert(texts_of(out@) =~= texts_of(before).push(
                    alert_text_of(alerts@[i as int]@, times),
                ));
            },
            None => {},
        }
        i += 1;
    }
    assert(all.take(alerts.len() as int) =~= all);
    out
}

/// Writes the body of the list of active alerts: the lines of the alerts
/// with an empty line between each two.
pub fn alerts_description(alerts: &[Alert]) -> (r: String)
    ensures
        r@ == joined(alert_lines(alert_views(alerts@)), "\n\n"@),
{
    let lines = alerts_texts(alerts);
    join(lines.as_slice(), "\n\n")
}

} // verus!
