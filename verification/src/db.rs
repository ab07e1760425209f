//! The rows that the watcher keeps: the alerts already announced and the
//! subscribers, with an alert store that lives in memory.

use crate::cta::alerts::{duplicate_services, service_views, Alert, AlertView, Service, ServiceView};
use vstd::prelude::*;
use vstd::string::*;

verus! {

/// An alert that has been announced, as the store keeps it.
#[derive(Debug)]
pub struct DBAlert {
    /// The feed's identifier of the alert; the key of the row.
    pub alert_id: i32,
    pub headline: String,
    pub short_description: String,
    pub full_description: String,
    pub severity_score: i32,
    pub severity_color: String,
    pub impact: String,
    pub tbd: bool,
    pub major_alert: bool,
    pub alert_url: String,
    pub impacted_services: Vec<Service>,
    /// How many subscribers the alert reached when it was announced.
    pub published_to: i32,
}

/// What a `DBAlert` holds, as mathematics.
pub struct DBAlertView {
    pub alert_id: i32,
    pub headline: Seq<char>,
    pub short_description: Seq<char>,
    pub full_description: Seq<char>,
    pub severity_score: i32,
    pub severity_color: Seq<char>,
    pub impact: Seq<char>,
    pub tbd: bool,
    pub major_alert: bool,
    pub alert_url: Seq<char>,
    pub impacted_services: Seq<ServiceView>,
    pub published_to: i32,
}

impl View for DBAlert {
    type V = DBAlertView;

    open spec fn view(&self) -> DBAlertView {
        DBAlertView {
            alert_id: self.alert_id,
            headline: self.headline@,
            short_description: self.short_description@,
            full_description: self.full_description@,
            severity_score: self.severity_score,
            severity_color: self.severity_color@,
            impact: self.impact@,
            tbd: self.tbd,
            major_alert: self.major_alert,
            alert_url: self.alert_url@,
            impacted_services: service_views(self.impacted_services@),
            published_to: self.published_to,
        }
    }
}

/// The row that records `alert` as announced to `publish_count`
/// subscribers: the alert's descriptive fields, copied.
pub open spec fn record_of(alert: AlertView, publish_count: i32) -> DBAlertView {
    DBAlertView {
        alert_id: alert.id,
        headline: alert.headline,
        short_description: alert.short_description,
        full_description: alert.full_description,
        severity_score: alert.severity_score,
        severity_color: alert.severity_color,
        impact: alert.impact,
        tbd: alert.tbd,
        major_alert: alert.major_alert,
        alert_url: alert.alert_url,
        impacted_services: alert.impacted_services,
        published_to: publish_count,
    }
}

impl DBAlert {
    /// Builds the row that records `alert` as announced to `publish_count`
    /// subscribers.
    pub fn from_alert(alert: &Alert, publish_count: i32) -> (r: DBAlert)
        ensures
            r@ == record_of(alert@, publish_count),
    {
        DBAlert {
            alert_id: alert.id,
            headline: alert.headline.clone(),
            short_description: alert.short_description.clone(),
            full_description: alert.full_description.get().clone(),
            severity_score: alert.severity_score,
            severity_color: alert.severity_color.clone(),
            impact: alert.impact.clone(),
            tbd: alert.tbd,
            major_alert: alert.major_alert,
            alert_url: alert.alert_url.get().clone(),
            impacted_services: duplicate_services(&alert.impacted_services.impacted_services),
            published_to: publish_count,
        }
    }

    /// A copy of the row.
    pub fn duplicate(&self) -> (r: DBAlert)
        ensures
            r@ == self@,
    {
        DBAlert {
            alert_id: self.alert_id,
            headline: self.headline.clone(),
            short_description: self.short_description.clone(),
            full_description: self.full_description.clone(),
            severity_score: self.severity_score,
            severity_color: self.severity_color.clone(),
            impact: self.impact.clone(),
            tbd: self.tbd,
            major_alert: self.major_alert,
            alert_url: self.alert_url.clone(),
            impacted_services: duplicate_services(&self.impacted_services),
            published_to: self.published_to,
        }
    }
}

/// One subscriber: a guild, and what it asked for.
#[derive(Debug)]
pub struct DBGuild {
    pub guild_id: i64,
    pub guild_name: Option<String>,
    /// Whether the guild asked for alerts.
    pub has_alerts: Option<bool>,
    /// The channel that alerts go to.
    pub alert_channel: Option<i64>,
    pub accessibility_alerts: Option<bool>,
    pub planned_alerts: Option<bool>,
    pub route_ids: Option<Vec<String>>,
    pub ephemeral_arrivals: Option<bool>,
}

impl DBGuild {
    /// A copy of the subscriber.
    pub fn duplicate(&self) -> (r: DBGuild)
        ensures
            r.guild_id == self.guild_id,
            r.has_alerts == self.has_alerts,
            r.alert_channel == self.alert_channel,
            r.accessibility_alerts == self.accessibility_alerts,
            r.planned_alerts == self.planned_alerts,
            r.ephemeral_arrivals == self.ephemeral_arrivals,
            r.guild_name is Some == self.guild_name is Some,
            r.guild_name is Some ==> r.guild_name->0@ == self.guild_name->0@,
            r.route_ids is Some == self.route_ids is Some,
            r.route_ids is Some ==> r.route_ids->0@.len() == self.route_ids->0@.len()
                && forall|i: int|
                0 <= i < r.route_ids->0@.len() ==> (#[trigger] r.route_ids->0@[i])@
                    == self.route_ids->0@[i]@,
    {
        let guild_name = match &self.guild_name {
            Some(name) => Some(name.clone()),
            None => None,
        };
        let route_ids = match &self.route_ids {
            Some(ids) => {
                let mut out: Vec<String> = Vec::new();
                let mut i: usize = 0;
                while i < ids.len()
                    invariant
                        i <= ids.len(),
                        out.len() == i,
                        forall|j: int| 0 <= j < i ==> (#[trigger] out@[j])@ == ids@[j]@,
                    decreases ids.len() - i,
                {
                    out.push(ids[i].clone());
                    i += 1;
                }
                Some(out)
            },
            None => None,
        };
        DBGuild {
            guild_id: self.guild_id,
            guild_name,
            has_alerts: self.has_alerts,
            alert_channel: self.alert_channel,
            accessibility_alerts: self.accessibility_alerts,
            planned_alerts: self.planned_alerts,
            route_ids,
            ephemeral_arrivals: self.ephemeral_arrivals,
        }
    }
}

/// One entry of the key-value table.
#[derive(Debug)]
pub struct DBKeyValue {
    key: String,
    value: Option<String>,
}

impl DBKeyValue {
    /// The key of the entry.
    pub closed spec fn spec_key(&self) -> Seq<char> {
        self.key@
    }

    /// The value of the entry, if it has one.
    pub closed spec fn spec_value(&self) -> Option<Seq<char>> {
        match self.value {
            Some(v) => Some(v@),
            None => None,
        }
    }

    /// An entry for `key`.
    pub fn new(key: String, value: Option<String>) -> (r: DBKeyValue)
        ensures
            r.spec_key() == key@,
            r.spec_value() == match value {
                Some(v) => Some(v@),
                None => None,
            },
    {
        DBKeyValue { key, value }
    }

    /// The key of the entry.
    pub fn key(&self) -> (r: &str)
        ensures
            r@ == self.spec_key(),
    {
        self.key.as_str()
    }

    /// The value of the entry.
    pub fn value(&self) -> (r: Option<&str>)
        ensures
            match r {
                Some(v) => self.spec_value() == Some(v@),
                None => self.spec_value() is None,
            },
    {
        match &self.value {
            Some(v) => Some(v.as_str()),
            None => None,
        }
    }
}

/// The views of a list of rows, in order.
pub open spec fn row_views(rows: Seq<DBAlert>) -> Seq<DBAlertView> {
    Seq::new(rows.len(), |i: int| rows[i]@)
}

/// Whether some row of `rows` has the key `id`.
pub open spec fn has_id(rows: Seq<DBAlertView>, id: i32) -> bool {
    exists|i: int| 0 <= i < rows.len() && (#[trigger] rows[i]).alert_id == id
}

/// Whether no two rows of `rows` have the same key.
pub open spec fn distinct_ids(rows: Seq<DBAlertView>) -> bool {
    forall|i: int, j: int|
        0 <= i < j < rows.len() ==> (#[trigger] rows[i]).alert_id != (#[trigger] rows[j]).alert_id
}

/// The index of the first of `rows[from..]` whose key is `id`.
pub open spec fn index_of_id(rows: Seq<DBAlertView>, id: i32, from: int) -> Option<int>
    decreases rows.len() - from,
{
    if from < 0 || from >= rows.len() {
        None
    } else if rows[from].alert_id == id {
        Some(from)
    } else {
        index_of_id(rows, id, from + 1)
    }
}

/// The first row of `rows` whose key is `id`.
pub open spec fn row_of(rows: Seq<DBAlertView>, id: i32) -> Option<DBAlertView> {
    match index_of_id(rows, id, 0) {
        Some(i) => Some(rows[i]),
        None => None,
    }
}

/// `index_of_id` finds a row exactly when there is one at or after `from`,
/// and what it finds has the key.
pub proof fn lemma_index_of_id(rows: Seq<DBAlertView>, id: i32, from: int)
    requires
        0 <= from <= rows.len(),
    ensures
        match index_of_id(rows, id, from) {
            Some(i) => from <= i < rows.len() && rows[i].alert_id == id && forall|j: int|
                from <= j < i ==> (#[trigger] rows[j]).alert_id != id,
            None => forall|j: int| from <= j < rows.len() ==> (#[trigger] rows[j]).alert_id != id,
        },
    decreases rows.len() - from,
{
    if from < rows.len() && rows[from].alert_id != id {
        lemma_index_of_id(rows, id, from + 1);
    }
}

/// Why the store did not take a row.
#[derive(Clone, Copy, Debug, PartialEq, Eq, Structural)]
pub enum StoreError {
    /// A row with the same key is already there. The store is as it was.
    Duplicate,
}

/// The alerts that have been announced, held in memory. No two rows have
/// the same key.
pub struct AlertStore {
    rows: Vec<DBAlert>,
}

impl AlertStore {
    /// The rows of the store, in the order in which they were added.
    pub closed spec fn rows(&self) -> Seq<DBAlertView> {
        row_views(self.rows@)
    }

    /// The store's invariant: at most one row for each key.
    pub open spec fn wf(&self) -> bool {
        distinct_ids(self.rows())
    }

    /// Whether the store has a row for `id`.
    pub open spec fn has(&self, id: i32) -> bool {
        has_id(self.rows(), id)
    }

    /// A store without rows.
    pub fn new() -> (r: AlertStore)
        ensures
            r.wf(),
            r.rows() == Seq::<DBAlertView>::empty(),
    {
        let r = AlertStore { rows: Vec::new() };
        assert(r.rows() =~= Seq::<DBAlertView>::empty());
        r
    }

    /// How many rows the store has.
    pub fn len(&self) -> (r: usize)
        ensures
            r == self.rows().len(),
    {
        self.rows.len()
    }

    fn position(&self, id: i32) -> (r: Option<usize>)
        ensures
            match r {
                Some(i) => index_of_id(self.rows(), id, 0) == Some(i as int) && i
                    < self.rows@.len() && self.rows@[i as int]@ == self.rows()[i as int],
                None => index_of_id(self.rows(), id, 0) is None,
            },
    {
        let mut i: usize = 0;
        while i < self.rows.len()
            invariant
                i <= self.rows.len(),
                self.rows().len() == self.rows.len(),
                index_of_id(self.rows(), id, 0) == index_of_id(self.rows(), id, i as int),
            decreases self.rows.len() - i,
        {
            if self.rows[i].alert_id == id {
                return Some(i);
            }
            i += 1;
        }
        None
    }

    /// Whether the store has a row for `id`.
    pub fn contains(&self, id: i32) -> (r: bool)
        ensures
            r == self.has(id),
    {
        proof {
            lemma_index_of_id(self.rows(), id, 0);
        }
        self.position(id).is_some()
    }

    /// The publish count of the row for `id`.
    pub fn published_to(&self, id: i32) -> (r: Option<i32>)
        ensures
            r == match row_of(self.rows(), id) {
                Some(row) => Some(row.published_to),
                None => None,
            },
    {
        match self.position(id) {
            Some(i) => Some(self.rows[i].published_to),
            None => None,
        }
    }

    /// The rows whose key is one of `ids`, in the store's order. Keys
    /// without a row give nothing, and that is no error.
    pub fn lookup(&self, ids: &Vec<i32>) -> (r: Vec<DBAlert>)
        ensures
            row_views(r@) == self.rows().filter(|row: DBAlertView| ids@.contains(row.alert_id)),
    {
        let ghost wanted = |row: DBAlertView| ids@.contains(row.alert_id);
        let mut found: Vec<DBAlert> = Vec::new();
        let mut i: usize = 0;
        assert(self.rows().take(0) =~= Seq::empty());
        proof {
            reveal(Seq::filter);
        }
        assert(self.rows().take(0).filter(wanted) =~= Seq::empty());
        while i < self.rows.len()
            invariant
                i <= self.rows.len(),
                self.rows().len() == self.rows.len(),
                wanted == |row: DBAlertView| ids@.contains(row.alert_id),
                row_views(found@) == self.rows().take(i as int).filter(wanted),
            decreases self.rows.len() - i,
        {
            let ghost before = found@;
            proof {
                reveal(Seq::filter);
                assert(self.rows().take(i + 1).drop_last() =~= self.rows().take(i as int));
                assert(self.rows().take(i + 1).last() == self.rows@[i as int]@);
            }
            if contains_id(ids, self.rows[i].alert_id) {
                found.push(self.rows[i].duplicate());
                assert(row_views(found@) =~= row_views(before).push(self.rows@[i as int]@));
            }
            i += 1;
        }
        assert(self.rows().take(self.rows.len() as int) =~= self.rows());
        found
    }

    /// Adds the row that records `alert` as announced to `publish_count`
    /// subscribers. Where the store already has a row for the alert it is
    /// left as it was, and the call is refused.
    pub fn upsert(&mut self, alert: &Alert, publish_count: i32) -> (r: Result<(), StoreError>)
        requires
            old(self).wf(),
        ensures
            final(self).wf(),
            old(self).has(alert.id) ==> r == Err::<(), StoreError>(StoreError::Duplicate)
                && final(self).rows() == old(self).rows(),
            !old(self).has(alert.id) ==> r == Ok::<(), StoreError>(()) && final(self).rows()
                == old(self).rows().push(record_of(alert@, publish_count)),
    {
        if self.contains(alert.id) {
            Err(StoreError::Duplicate)
        } else {
            let row = DBAlert::from_alert(alert, publish_count);
            let ghost before = self.rows@;
            self.rows.push(row);
            assert(row_views(self.rows@) =~= row_views(before).push(
                record_of(alert@, publish_count),
            ));
            Ok(())
        }
    }
}

/// Whether `id` is one of `ids`.
pub fn contains_id(ids: &Vec<i32>, id: i32) -> (r: bool)
    ensures
        r == ids@.contains(id),
{
    let mut i: usize = 0;
    while i < ids.len()
        invariant
            i <= ids.len(),
            forall|j: int| 0 <= j < i ==> ids@[j] != id,
        decreases ids.len() - i,
    {
        if ids[i] == id {
            return true;
        }
        i += 1;
    }
    false
}

} // verus!
