//! The service-alert feed: its records, and the normaliser that turns one
//! raw record into one validated alert.

use crate::civil::{
    chicago_timestamp, chrono_date, chrono_datetime, local_timestamp, parse_date, parse_datetime,
    CivilDate, CivilDateTime,
};
use crate::raw::RawValue;
use crate::text::{parse_i32, parse_i32_spec};
use crate::util::{bool_from_string, bool_of};
use vstd::prelude::*;
use vstd::string::*;

verus! {

/// Why the alert feed gave no alerts.
#[derive(Clone, Copy, Debug, PartialEq, Eq, Structural)]
pub enum AlertsError {
    /// The request to the feed failed.
    RequestError,
    /// The payload, or one record of it, does not have the feed's shape.
    ParseError,
    /// The feed answered with an error code of its own.
    DataError,
    /// The alert store handed back a row that is no alert.
    DataBaseError,
    /// The feed is reachable and lists nothing.
    NoAlerts,
}

impl AlertsError {
    /// The sentence that describes the error to an operator.
    pub fn message(&self) -> (r: String)
        ensures
            r@ == match self {
                AlertsError::RequestError => "Failed to fetch data from Alerts API"@,
                AlertsError::ParseError => "Failed to parse JSON data returned from Alerts API"@,
                AlertsError::DataError => "Alerts API provided invalid data"@,
                AlertsError::DataBaseError => "Database provided invalid data"@,
                AlertsError::NoAlerts => "There are no active alerts."@,
            },
    {
        match self {
            AlertsError::RequestError => String::from_str("Failed to fetch data from Alerts API"),
            AlertsError::ParseError => String::from_str(
                "Failed to parse JSON data returned from Alerts API",
            ),
            AlertsError::DataError => String::from_str("Alerts API provided invalid data"),
            AlertsError::DataBaseError => String::from_str("Database provided invalid data"),
            AlertsError::NoAlerts => String::from_str("There are no active alerts."),
        }
    }
}

/// A date, or a date with a time of day. Both are wall-clock values of the
/// transit system's zone.
#[derive(Clone, Copy, Debug, PartialEq, Eq, Structural)]
pub enum DateOrDateTime {
    /// A precise wall-clock time.
    DateTime(CivilDateTime),
    /// A calendar date, which stands for its first instant.
    Date(CivilDate),
}

impl DateOrDateTime {
    /// The value that two readings of one text give: the reading as a date
    /// with a time if there is one, else the reading as a bare date.
    pub open spec fn from_readings_spec(
        datetime: Option<CivilDateTime>,
        date: Option<CivilDate>,
    ) -> Option<DateOrDateTime> {
        match datetime {
            Some(t) => Some(DateOrDateTime::DateTime(t)),
            None => match date {
                Some(d) => Some(DateOrDateTime::Date(d)),
                None => None,
            },
        }
    }

    /// What a text of the feed stands for: it is tried as a date with a time
    /// first, then as a bare date.
    pub open spec fn parse_spec(s: Seq<char>) -> Option<DateOrDateTime> {
        Self::from_readings_spec(chrono_datetime(s), chrono_date(s))
    }

    /// The wall-clock instant that the value stands for: a bare date stands
    /// for its midnight.
    pub open spec fn instant_spec(self) -> CivilDateTime {
        match self {
            DateOrDateTime::DateTime(t) => t,
            DateOrDateTime::Date(d) => d.midnight(),
        }
    }

    /// Chooses between the two readings of one text, the full timestamp
    /// first. With neither reading the text is malformed.
    pub fn from_readings(datetime: Option<CivilDateTime>, date: Option<CivilDate>) -> (r: Result<
        DateOrDateTime,
        AlertsError,
    >)
        ensures
            match r {
                Ok(v) => Self::from_readings_spec(datetime, date) == Some(v),
                Err(e) => Self::from_readings_spec(datetime, date) is None && e
                    == AlertsError::ParseError,
            },
    {
        match datetime {
            Some(t) => Ok(DateOrDateTime::DateTime(t)),
            None => match date {
                Some(d) => Ok(DateOrDateTime::Date(d)),
                None => Err(AlertsError::ParseError),
            },
        }
    }

    /// Reads a date or a date with a time from a text of the feed.
    pub fn parse(s: &str) -> (r: Result<DateOrDateTime, AlertsError>)
        ensures
            match r {
                Ok(v) => Self::parse_spec(s@) == Some(v),
                Err(e) => Self::parse_spec(s@) is None && e == AlertsError::ParseError,
            },
    {
        Self::from_readings(parse_datetime(s), parse_date(s))
    }

    /// The wall-clock instant that the value stands for.
    pub fn instant(&self) -> (r: CivilDateTime)
        ensures
            r == self.instant_spec(),
    {
        match self {
            DateOrDateTime::DateTime(t) => *t,
            DateOrDateTime::Date(d) => d.at_midnight(),
        }
    }

    /// The Unix timestamp of the value, read in the transit system's zone;
    /// `None` where that zone has no such wall-clock time.
    pub fn timestamp(&self) -> (r: Option<i64>)
        ensures
            r == chicago_timestamp(self.instant_spec()),
    {
        local_timestamp(self.instant())
    }
}

/// A text that the feed wraps in a character-data section.
#[derive(Debug)]
pub struct CDATA<I> {
    inner: I,
}

impl<I> CDATA<I> {
    /// What the section holds.
    pub closed spec fn spec_inner(&self) -> I {
        self.inner
    }

    /// Wraps `inner`.
    pub fn new(inner: I) -> (r: Self)
        ensures
            r.spec_inner() == inner,
    {
        CDATA { inner }
    }

    /// What the section holds.
    pub fn get(&self) -> (r: &I)
        ensures
            *r == self.spec_inner(),
    {
        &self.inner
    }
}

impl<I: View> View for CDATA<I> {
    type V = I::V;

    open spec fn view(&self) -> I::V {
        self.spec_inner().view()
    }
}

/// The kind of thing that an alert affects.
#[derive(Clone, Copy, Debug, PartialEq, Eq, Structural)]
pub enum ServiceType {
    /// The whole system.
    SystemWide,
    /// A rail line.
    TrainRoute,
    /// A bus route.
    BusRoute,
    /// A rail station.
    TrainStation,
}

impl ServiceType {
    /// The kind that a one-letter code of the feed names.
    pub open spec fn from_code(s: Seq<char>) -> Option<ServiceType> {
        if s == seq!['X'] {
            Some(ServiceType::SystemWide)
        } else if s == seq!['R'] {
            Some(ServiceType::TrainRoute)
        } else if s == seq!['B'] {
            Some(ServiceType::BusRoute)
        } else if s == seq!['T'] {
            Some(ServiceType::TrainStation)
        } else {
            None
        }
    }

    /// The one-letter code of the kind.
    pub open spec fn code(self) -> Seq<char> {
        match self {
            ServiceType::SystemWide => seq!['X'],
            ServiceType::TrainRoute => seq!['R'],
            ServiceType::BusRoute => seq!['B'],
            ServiceType::TrainStation => seq!['T'],
        }
    }

    /// Reads the feed's one-letter code: `X`, `R`, `B` or `T`.
    pub fn from_str(s: &str) -> (r: Result<ServiceType, AlertsError>)
        ensures
            match r {
                Ok(t) => Self::from_code(s@) == Some(t),
                Err(e) => Self::from_code(s@) is None && e == AlertsError::DataError,
            },
    {
        proof {
            reveal_strlit("X");
            reveal_strlit("R");
            reveal_strlit("B");
            reveal_strlit("T");
            assert("X"@ =~= seq!['X']);
            assert("R"@ =~= seq!['R']);
            assert("B"@ =~= seq!['B']);
            assert("T"@ =~= seq!['T']);
        }
        if *s == *"X" {
            Ok(ServiceType::SystemWide)
        } else if *s == *"R" {
            Ok(ServiceType::TrainRoute)
        } else if *s == *"B" {
            Ok(ServiceType::BusRoute)
        } else if *s == *"T" {
            Ok(ServiceType::TrainStation)
        } else {
            Err(AlertsError::DataError)
        }
    }

    /// Writes the feed's one-letter code.
    pub fn to_text(&self) -> (r: String)
        ensures
            r@ == self.code(),
    {
        proof {
            reveal_strlit("X");
            reveal_strlit("R");
            reveal_strlit("B");
            reveal_strlit("T");
            assert("X"@ =~= seq!['X']);
            assert("R"@ =~= seq!['R']);
            assert("B"@ =~= seq!['B']);
            assert("T"@ =~= seq!['T']);
        }
        match self {
            ServiceType::SystemWide => String::from_str("X"),
            ServiceType::TrainRoute => String::from_str("R"),
            ServiceType::BusRoute => String::from_str("B"),
            ServiceType::TrainStation => String::from_str("T"),
        }
    }
}

/// A code and the kind it names are one: writing a kind and reading the
/// code back gives the kind.
pub proof fn lemma_service_code_round_trip(t: ServiceType)
    ensures
        ServiceType::from_code(t.code()) == Some(t),
{
    assert(seq!['X'][0] == 'X');
    assert(seq!['R'][0] == 'R');
    assert(seq!['B'][0] == 'B');
    assert(seq!['T'][0] == 'T');
}

/// The text inside the character-data section that is the member `name` of
/// a raw object.
pub open spec fn cdata_of(raw: RawValue, name: Seq<char>) -> Option<Seq<char>> {
    match raw.spec_field(name) {
        Some(section) => section.spec_text_field("#cdata-section"@),
        None => None,
    }
}

/// The integer that the string member `name` of a raw object writes.
pub open spec fn int_of(raw: RawValue, name: Seq<char>) -> Option<i32> {
    match raw.spec_text_field(name) {
        Some(s) => parse_i32_spec(s),
        None => None,
    }
}

/// The boolean that the string member `name` of a raw object spells.
pub open spec fn flag_of(raw: RawValue, name: Seq<char>) -> Option<bool> {
    match raw.spec_text_field(name) {
        Some(s) => bool_of(s),
        None => None,
    }
}

fn owned_text(raw: &RawValue, name: &str) -> (r: Option<String>)
    ensures
        match r {
            Some(s) => raw.spec_text_field(name@) == Some(s@),
            None => raw.spec_text_field(name@) is None,
        },
{
    match raw.text_field(name) {
        Some(s) => Some(String::from_str(s)),
        None => None,
    }
}

fn cdata_text(raw: &RawValue, name: &str) -> (r: Option<CDATA<String>>)
    ensures
        match r {
            Some(s) => cdata_of(*raw, name@) == Some(s@),
            None => cdata_of(*raw, name@) is None,
        },
{
    match raw.field(name) {
        Some(section) => match owned_text(section, "#cdata-section") {
            Some(s) => Some(CDATA::new(s)),
            None => None,
        },
        None => None,
    }
}

fn int_text(raw: &RawValue, name: &str) -> (r: Option<i32>)
    ensures
        r == int_of(*raw, name@),
{
    match raw.text_field(name) {
        Some(s) => parse_i32(s),
        None => None,
    }
}

fn flag_text(raw: &RawValue, name: &str) -> (r: Option<bool>)
    ensures
        r == flag_of(*raw, name@),
{
    match raw.text_field(name) {
        Some(s) => match bool_from_string(s) {
            Ok(b) => Some(b),
            Err(_) => None,
        },
        None => None,
    }
}

/// One route or station that an alert affects.
#[derive(Debug)]
pub struct Service {
    /// The kind of thing affected.
    pub stype: ServiceType,
    /// The kind, in words.
    pub stype_description: String,
    /// The feed's identifier of the route or station.
    pub id: String,
    /// Its name.
    pub name: String,
    /// The colour behind its name on a sign.
    pub background_color: String,
    /// The colour of its name on a sign.
    pub text_color: String,
    /// Where to read about it.
    pub url: CDATA<String>,
}

/// What a `Service` holds, as mathematics.
pub struct ServiceView {
    pub stype: ServiceType,
    pub stype_description: Seq<char>,
    pub id: Seq<char>,
    pub name: Seq<char>,
    pub background_color: Seq<char>,
    pub text_color: Seq<char>,
    pub url: Seq<char>,
}

impl View for Service {
    type V = ServiceView;

    open spec fn view(&self) -> ServiceView {
        ServiceView {
            stype: self.stype,
            stype_description: self.stype_description@,
            id: self.id@,
            name: self.name@,
            background_color: self.background_color@,
            text_color: self.text_color@,
            url: self.url@,
        }
    }
}

/// The service that a raw record describes; `None` where a member is
/// missing, is no string, or names no kind of service.
pub open spec fn service_of(raw: RawValue) -> Option<ServiceView> {
    match raw.spec_text_field("ServiceType"@) {
        Some(code) => {
            if ServiceType::from_code(code) is Some && raw.spec_text_field(
                "ServiceTypeDescription"@,
            ) is Some && raw.spec_text_field("ServiceId"@) is Some && raw.spec_text_field(
                "ServiceName"@,
            ) is Some && raw.spec_text_field("ServiceBackColor"@) is Some && raw.spec_text_field(
                "ServiceTextColor"@,
            ) is Some && cdata_of(raw, "ServiceURL"@) is Some {
                Some(
                    ServiceView {
                        stype: ServiceType::from_code(code)->0,
                        stype_description: raw.spec_text_field("ServiceTypeDescription"@)->0,
                        id: raw.spec_text_field("ServiceId"@)->0,
                        name: raw.spec_text_field("ServiceName"@)->0,
                        background_color: raw.spec_text_field("ServiceBackColor"@)->0,
                        text_color: raw.spec_text_field("ServiceTextColor"@)->0,
                        url: cdata_of(raw, "ServiceURL"@)->0,
                    },
                )
            } else {
                None
            }
        },
        None => None,
    }
}

impl Service {
    /// Normalises one raw service record.
    pub fn from_raw(raw: &RawValue) -> (r: Result<Service, AlertsError>)
        ensures
            match r {
                Ok(s) => service_of(*raw) == Some(s@),
                Err(e) => service_of(*raw) is None && e == AlertsError::ParseError,
            },
    {
        let stype = match raw.text_field("ServiceType") {
            Some(code) => match ServiceType::from_str(code) {
                Ok(t) => t,
                Err(_) => {
                    return Err(AlertsError::ParseError);
                },
            },
            None => {
                return Err(AlertsError::ParseError);
            },
        };
        let stype_description = match owned_text(raw, "ServiceTypeDescription") {
            Some(s) => s,
            None => {
                return Err(AlertsError::ParseError);
            },
        };
        let id = match owned_text(raw, "ServiceId") {
            Some(s) => s,
            None => {
                return Err(AlertsError::ParseError);
            },
        };
        let name = match owned_text(raw, "ServiceName") {
            Some(s) => s,
            None => {
                return Err(AlertsError::ParseError);
            },
        };
        let background_color = match owned_text(raw, "ServiceBackColor") {
            Some(s) => s,
            None => {
                return Err(AlertsError::ParseError);
            },
        };
        let text_color = match owned_text(raw, "ServiceTextColor") {
            Some(s) => s,
            None => {
                return Err(AlertsError::ParseError);
            },
        };
        let url = match cdata_text(raw, "ServiceURL") {
            Some(s) => s,
            None => {
                return Err(AlertsError::ParseError);
            },
        };
        Ok(Service { stype, stype_description, id, name, background_color, text_color, url })
    }

    /// A copy of the service.
    pub fn duplicate(&self) -> (r: Service)
        ensures
            r@ == self@,
    {
        Service {
            stype: self.stype,
            stype_description: self.stype_description.clone(),
            id: self.id.clone(),
            name: self.name.clone(),
            background_color: self.background_color.clone(),
            text_color: self.text_color.clone(),
            url: CDATA::new(self.url.get().clone()),
        }
    }
}

/// The views of a list of services, in order.
pub open spec fn service_views(services: Seq<Service>) -> Seq<ServiceView> {
    Seq::new(services.len(), |i: int| services[i]@)
}

/// Copies a list of services.
pub fn duplicate_services(services: &Vec<Service>) -> (r: Vec<Service>)
    ensures
        service_views(r@) == service_views(services@),
{
    let mut out: Vec<Service> = Vec::new();
    let mut i: usize = 0;
    while i < services.len()
        invariant
            i <= services.len(),
            out.len() == i,
            forall|j: int| 0 <= j < i ==> out@[j]@ == services@[j]@,
        decreases services.len() - i,
    {
        out.push(services[i].duplicate());
        i += 1;
    }
    assert(service_views(out@) =~= service_views(services@));
    out
}

/// The services that a list of raw records describes, in the order of the
/// list; `None` where any one of them is malformed.
pub open spec fn services_of(items: Seq<RawValue>) -> Option<Seq<ServiceView>> {
    if forall|i: int| 0 <= i < items.len() ==> (#[trigger] service_of(items[i])) is Some {
        Some(Seq::new(items.len(), |i: int| service_of(items[i])->0))
    } else {
        None
    }
}

/// The services that the `ImpactedService` member of an alert lists. Its
/// member `Service` is an array of records, or, for a single service, the
/// bare record.
pub open spec fn impacted_of(raw: RawValue) -> Option<Seq<ServiceView>> {
    match raw.spec_field("Service"@) {
        Some(RawValue::List(items)) => services_of(items@),
        Some(single) => match service_of(single) {
            Some(s) => Some(seq![s]),
            None => None,
        },
        None => None,
    }
}

/// The routes and stations that an alert affects.
#[derive(Debug)]
pub struct ImpactedService {
    /// The services, in the order of the feed.
    pub impacted_services: Vec<Service>,
}

impl View for ImpactedService {
    type V = Seq<ServiceView>;

    open spec fn view(&self) -> Seq<ServiceView> {
        service_views(self.impacted_services@)
    }
}

impl ImpactedService {
    /// Normalises the list of affected services. A bare record gives a list
    /// of one; an array gives its elements in order; anything else, or any
    /// malformed element, is an error.
    #[verifier::loop_isolation(false)]
    pub fn from_raw(raw: &RawValue) -> (r: Result<ImpactedService, AlertsError>)
        ensures
            match r {
                Ok(s) => impacted_of(*raw) == Some(s@),
                Err(e) => impacted_of(*raw) is None && e == AlertsError::ParseError,
            },
    {
        let member = match raw.field("Service") {
            Some(m) => m,
            None => {
                return Err(AlertsError::ParseError);
            },
        };
        match member.as_list() {
            Some(items) => {
                let mut children: Vec<Service> = Vec::new();
                let mut i: usize = 0;
                while i < items.len()
                    invariant
                        i <= items.len(),
                        children.len() == i,
                        forall|j: int|
                            0 <= j < i ==> (#[trigger] service_of(items@[j])) == Some(
                                children@[j]@,
                            ),
                    decreases items.len() - i,
                {
                    match Service::from_raw(&items[i]) {
                        Ok(s) => {
                            children.push(s);
                        },
                        Err(e) => {
                            assert(service_of(items@[i as int]) is None);
                            return Err(e);
                        },
                    }
                    i += 1;
                }
                assert(services_of(items@)->0 =~= service_views(children@));
                Ok(ImpactedService { impacted_services: children })
            },
            None => match Service::from_raw(member) {
                Ok(s) => {
                    let mut children: Vec<Service> = Vec::new();
                    children.push(s);
                    assert(service_views(children@) =~= seq![s@]);
                    Ok(ImpactedService { impacted_services: children })
                },
                Err(e) => Err(e),
            },
        }
    }

    /// A copy of the list.
    pub fn duplicate(&self) -> (r: ImpactedService)
        ensures
            r@ == self@,
    {
        ImpactedService { impacted_services: duplicate_services(&self.impacted_services) }
    }
}

/// A bare service record and an array that holds only that record give the
/// same list of one service, and an array gives one service for each of its
/// records, in the order of the array.
pub proof fn lemma_single_or_list(raw: RawValue)
    ensures
        raw.spec_field("Service"@) matches Some(member) ==> {
            &&& member !is List ==> (impacted_of(raw) matches Some(list) ==> list.len() == 1
                && service_of(member) == Some(list[0]))
            &&& member matches RawValue::List(items) ==> (impacted_of(raw) matches Some(list)
                ==> list.len() == items.len() && forall|i: int|
                0 <= i < items.len() ==> service_of(#[trigger] items[i]) == Some(list[i]))
        },
{
}

/// One service-disruption notice, as one poll of the feed gave it.
#[derive(Debug)]
pub struct Alert {
    /// The feed's identifier of the disruption, the same from poll to poll.
    pub id: i32,
    /// The headline.
    pub headline: String,
    /// The summary.
    pub short_description: String,
    /// The full text.
    pub full_description: CDATA<String>,
    /// How severe the feed rates the disruption.
    pub severity_score: i32,
    /// The colour that goes with the severity.
    pub severity_color: String,
    /// The style class that goes with the severity.
    pub severity_css: String,
    /// The effect on service, in words.
    pub impact: String,
    /// When the disruption starts.
    pub event_start: DateOrDateTime,
    /// When it ends; `None` where the feed gives no end.
    pub event_end: Option<DateOrDateTime>,
    /// Whether the end is still to be determined. Where it is, `event_end`
    /// means nothing.
    pub tbd: bool,
    /// Whether the feed marks the alert as major.
    pub major_alert: bool,
    /// Where to read about it.
    pub alert_url: CDATA<String>,
    /// The routes and stations affected.
    pub impacted_services: ImpactedService,
}

/// What an `Alert` holds, as mathematics.
pub struct AlertView {
    pub id: i32,
    pub headline: Seq<char>,
    pub short_description: Seq<char>,
    pub full_description: Seq<char>,
    pub severity_score: i32,
    pub severity_color: Seq<char>,
    pub severity_css: Seq<char>,
    pub impact: Seq<char>,
    pub event_start: DateOrDateTime,
    pub event_end: Option<DateOrDateTime>,
    pub tbd: bool,
    pub major_alert: bool,
    pub alert_url: Seq<char>,
    pub impacted_services: Seq<ServiceView>,
}

impl View for Alert {
    type V = AlertView;

    open spec fn view(&self) -> AlertView {
        AlertView {
            id: self.id,
            headline: self.headline@,
            short_description: self.short_description@,
            full_description: self.full_description@,
            severity_score: self.severity_score,
            severity_color: self.severity_color@,
            severity_css: self.severity_css@,
            impact: self.impact@,
            event_start: self.event_start,
            event_end: self.event_end,
            tbd: self.tbd,
            major_alert: self.major_alert,
            alert_url: self.alert_url@,
            impacted_services: self.impacted_services@,
        }
    }
}

/// The start of the alert that a raw record describes: its string member
/// `EventStart`, read as a date with or without a time.
pub open spec fn event_start_of(raw: RawValue) -> Option<DateOrDateTime> {
    match raw.spec_text_field("EventStart"@) {
        Some(s) => DateOrDateTime::parse_spec(s),
        None => None,
    }
}

/// The end of the alert that a raw record describes. The member `EventEnd`
/// may be missing or null, which is an alert without an end; otherwise it is
/// read as `EventStart` is. The outer `None` is a malformed record.
pub open spec fn event_end_of(raw: RawValue) -> Option<Option<DateOrDateTime>> {
    if raw.spec_absent("EventEnd"@) {
        Some(None)
    } else {
        match raw.spec_text_field("EventEnd"@) {
            Some(s) => match DateOrDateTime::parse_spec(s) {
                Some(v) => Some(Some(v)),
                None => None,
            },
            None => None,
        }
    }
}

/// The services of the alert that a raw record describes.
pub open spec fn impacted_services_of(raw: RawValue) -> Option<Seq<ServiceView>> {
    match raw.spec_field("ImpactedService"@) {
        Some(member) => impacted_of(member),
        None => None,
    }
}

/// Whether a raw record has every member of an alert, each well formed.
pub open spec fn is_alert(raw: RawValue) -> bool {
    &&& int_of(raw, "AlertId"@) is Some
    &&& raw.spec_text_field("Headline"@) is Some
    &&& raw.spec_text_field("ShortDescription"@) is Some
    &&& cdata_of(raw, "FullDescription"@) is Some
    &&& int_of(raw, "SeverityScore"@) is Some
    &&& raw.spec_text_field("SeverityColor"@) is Some
    &&& raw.spec_text_field("SeverityCSS"@) is Some
    &&& raw.spec_text_field("Impact"@) is Some
    &&& event_start_of(raw) is Some
    &&& event_end_of(raw) is Some
    &&& flag_of(raw, "TBD"@) is Some
    &&& flag_of(raw, "MajorAlert"@) is Some
    &&& cdata_of(raw, "AlertURL"@) is Some
    &&& impacted_services_of(raw) is Some
}

/// The alert that a raw record describes; `None` where the record is
/// malformed. No member is dropped: each field of the alert is the member
/// of the record that the feed names for it.
pub open spec fn alert_of(raw: RawValue) -> Option<AlertView> {
    if is_alert(raw) {
        Some(
            AlertView {
                id: int_of(raw, "AlertId"@)->0,
                headline: raw.spec_text_field("Headline"@)->0,
                short_description: raw.spec_text_field("ShortDescription"@)->0,
                full_description: cdata_of(raw, "FullDescription"@)->0,
                severity_score: int_of(raw, "SeverityScore"@)->0,
                severity_color: raw.spec_text_field("SeverityColor"@)->0,
                severity_css: raw.spec_text_field("SeverityCSS"@)->0,
                impact: raw.spec_text_field("Impact"@)->0,
                event_start: event_start_of(raw)->0,
                event_end: event_end_of(raw)->0,
                tbd: flag_of(raw, "TBD"@)->0,
                major_alert: flag_of(raw, "MajorAlert"@)->0,
                alert_url: cdata_of(raw, "AlertURL"@)->0,
                impacted_services: impacted_services_of(raw)->0,
            },
        )
    } else {
        None
    }
}

fn event_start_from(raw: &RawValue) -> (r: Option<DateOrDateTime>)
    ensures
        r == event_start_of(*raw),
{
    match raw.text_field("EventStart") {
        Some(s) => match DateOrDateTime::parse(s) {
            Ok(v) => Some(v),
            Err(_) => None,
        },
        None => None,
    }
}

fn event_end_from(raw: &RawValue) -> (r: Option<Option<DateOrDateTime>>)
    ensures
        r == event_end_of(*raw),
{
    match raw.field("EventEnd") {
        None => Some(None),
        Some(member) => {
            if member.is_null() {
                Some(None)
            } else {
                match member.as_text() {
                    Some(s) => match DateOrDateTime::parse(s) {
                        Ok(v) => Some(Some(v)),
                        Err(_) => None,
                    },
                    None => None,
                }
            }
        },
    }
}

fn impacted_services_from(raw: &RawValue) -> (r: Option<ImpactedService>)
    ensures
        match r {
            Some(s) => impacted_services_of(*raw) == Some(s@),
            None => impacted_services_of(*raw) is None,
        },
{
    match raw.field("ImpactedService") {
        Some(member) => match ImpactedService::from_raw(member) {
            Ok(s) => Some(s),
            Err(_) => None,
        },
        None => None,
    }
}

impl Alert {
    /// Normalises one raw record of the feed: exactly one alert, or the
    /// error that marks the record as malformed.
    pub fn from_raw(raw: &RawValue) -> (r: Result<Alert, AlertsError>)
        ensures
            match r {
                Ok(a) => alert_of(*raw) == Some(a@),
                Err(e) => alert_of(*raw) is None && e == AlertsError::ParseError,
            },
    {
        let id = match int_text(raw, "AlertId") {
            Some(v) => v,
            None => {
                return Err(AlertsError::ParseError);
            },
        };
        let headline = match owned_text(raw, "Headline") {
            Some(v) => v,
            None => {
                return Err(AlertsError::ParseError);
            },
        };
        let short_description = match owned_text(raw, "ShortDescription") {
            Some(v) => v,
            None => {
                return Err(AlertsError::ParseError);
            },
        };
        let full_description = match cdata_text(raw, "FullDescription") {
            Some(v) => v,
            None => {
                return Err(AlertsError::ParseError);
            },
        };
        let severity_score = match int_text(raw, "SeverityScore") {
            Some(v) => v,
            None => {
                return Err(AlertsError::ParseError);
            },
        };
        let severity_color = match owned_text(raw, "SeverityColor") {
            Some(v) => v,
            None => {
                return Err(AlertsError::ParseError);
            },
        };
        let severity_css = match owned_text(raw, "SeverityCSS") {
            Some(v) => v,
            None => {
                return Err(AlertsError::ParseError);
            },
        };
        let impact = match owned_text(raw, "Impact") {
            Some(v) => v,
            None => {
                return Err(AlertsError::ParseError);
            },
        };
        let event_start = match event_start_from(raw) {
            Some(v) => v,
            None => {
                return Err(AlertsError::ParseError);
            },
        };
        let event_end = match event_end_from(raw) {
            Some(v) => v,
            None => {
                return Err(AlertsError::ParseError);
            },
        };
        let tbd = match flag_text(raw, "TBD") {
            Some(v) => v,
            None => {
                return Err(AlertsError::ParseError);
            },
        };
        let major_alert = match flag_text(raw, "MajorAlert") {
            Some(v) => v,
            None => {
                return Err(AlertsError::ParseError);
            },
        };
        let alert_url = match cdata_text(raw, "AlertURL") {
            Some(v) => v,
            None => {
                return Err(AlertsError::ParseError);
            },
        };
        let impacted_services = match impacted_services_from(raw) {
            Some(v) => v,
            None => {
                return Err(AlertsError::ParseError);
            },
        };
        Ok(
            Alert {
                id,
                headline,
                short_description,
                full_description,
                severity_score,
                severity_color,
                severity_css,
                impact,
                event_start,
                event_end,
                tbd,
                major_alert,
                alert_url,
                impacted_services,
            },
        )
    }

    /// A copy of the alert.
    pub fn duplicate(&self) -> (r: Alert)
        ensures
            r@ == self@,
    {
        Alert {
            id: self.id,
            headline: self.headline.clone(),
            short_description: self.short_description.clone(),
            full_description: CDATA::new(self.full_description.get().clone()),
            severity_score: self.severity_score,
            severity_color: self.severity_color.clone(),
            severity_css: self.severity_css.clone(),
            impact: self.impact.clone(),
            event_start: self.event_start,
            event_end: self.event_end,
            tbd: self.tbd,
            major_alert: self.major_alert,
            alert_url: CDATA::new(self.alert_url.get().clone()),
            impacted_services: self.impacted_services.duplicate(),
        }
    }
}

/// The views of a list of alerts, in order.
pub open spec fn alert_views(alerts: Seq<Alert>) -> Seq<AlertView> {
    Seq::new(alerts.len(), |i: int| alerts[i]@)
}

/// The alerts that a batch of raw records gives: one for each well-formed
/// record, in the order of the batch. Malformed records give none.
pub open spec fn alerts_of(records: Seq<RawValue>) -> Seq<AlertView>
    decreases records.len(),
{
    if records.len() == 0 {
        Seq::empty()
    } else {
        match alert_of(records.last()) {
            Some(a) => alerts_of(records.drop_last()).push(a),
            None => alerts_of(records.drop_last()),
        }
    }
}

/// A normalised batch.
#[derive(Debug)]
pub struct Batch {
    /// The alerts of the well-formed records, in the order of the feed.
    pub alerts: Vec<Alert>,
    /// How many records were malformed and set aside.
    pub quarantined: usize,
}

/// Normalises a batch of raw records one by one. A malformed record is set
/// aside and counted; it does not stop the records after it.
pub fn normalize_batch(records: &Vec<RawValue>) -> (r: Batch)
    ensures
        alert_views(r.alerts@) == alerts_of(records@),
        r.quarantined == records.len() - r.alerts.len(),
{
    let mut alerts: Vec<Alert> = Vec::new();
    let mut quarantined: usize = 0;
    let mut i: usize = 0;
    assert(records@.take(0) =~= Seq::empty());
    while i < records.len()
        invariant
            i <= records.len(),
            alert_views(alerts@) == alerts_of(records@.take(i as int)),
            quarantined + alerts.len() == i,
        decreases records.len() - i,
    {
        let ghost before = alerts@;
        assert(records@.take(i + 1).drop_last() =~= records@.take(i as int));
        assert(records@.take(i + 1).last() == records@[i as int]);
        match Alert::from_raw(&records[i]) {
            Ok(a) => {
                alerts.push(a);
                assert(alert_views(alerts@) =~= alert_views(before).push(a@));
            },
            Err(_) => {
                quarantined += 1;
            },
        }
        i += 1;
    }
    assert(records@.take(records.len() as int) =~= records@);
    Batch { alerts, quarantined }
}

/// Whether the optional string member `name` of a raw object is well
/// formed: missing, null, or a string.
pub open spec fn optional_text(raw: RawValue, name: Seq<char>) -> bool {
    raw.spec_absent(name) || raw.spec_text_field(name) is Some
}

/// The raw alert records of a response of the feed. The response wraps
/// them in the member `CTAAlerts`, with a time stamp and an error code. A
/// response without alerts is an empty batch where its error code is 50 or
/// 25, which the feed gives when nothing is active, and a data error
/// otherwise. A response of another shape is a parse error.
pub open spec fn records_of(response: RawValue) -> Result<Seq<RawValue>, AlertsError> {
    match response.spec_field("CTAAlerts"@) {
        None => Err(AlertsError::ParseError),
        Some(envelope) => {
            if envelope.spec_text_field("TimeStamp"@) is None || !optional_text(
                envelope,
                "ErrorMessage"@,
            ) {
                Err(AlertsError::ParseError)
            } else {
                match int_of(envelope, "ErrorCode"@) {
                    None => Err(AlertsError::ParseError),
                    Some(code) => {
                        if envelope.spec_absent("Alert"@) {
                            if code == 50 || code == 25 {
                                Ok(Seq::empty())
                            } else {
                                Err(AlertsError::DataError)
                            }
                        } else {
                            match envelope.spec_field("Alert"@)->0.spec_items() {
                                Some(items) => Ok(items),
                                None => Err(AlertsError::ParseError),
                            }
                        }
                    },
                }
            }
        },
    }
}

fn optional_text_ok(raw: &RawValue, name: &str) -> (r: bool)
    ensures
        r == optional_text(*raw, name@),
{
    match raw.field(name) {
        None => true,
        Some(member) => member.is_null() || member.as_text().is_some(),
    }
}

/// Takes the raw alert records out of a response of the feed.
pub fn raw_alerts(response: RawValue) -> (r: Result<Vec<RawValue>, AlertsError>)
    ensures
        match r {
            Ok(records) => records_of(response) == Ok::<Seq<RawValue>, AlertsError>(records@),
            Err(e) => records_of(response) == Err::<Seq<RawValue>, AlertsError>(e),
        },
{
    let envelope = match response.into_field("CTAAlerts") {
        Some(envelope) => envelope,
        None => {
            return Err(AlertsError::ParseError);
        },
    };
    if envelope.text_field("TimeStamp").is_none() || !optional_text_ok(&envelope, "ErrorMessage") {
        return Err(AlertsError::ParseError);
    }
    let code: i32 = match int_text(&envelope, "ErrorCode") {
        Some(code) => code,
        None => {
            return Err(AlertsError::ParseError);
        },
    };
    match envelope.into_field("Alert") {
        None => if code == 50 || code == 25 {
            Ok(Vec::new())
        } else {
            Err(AlertsError::DataError)
        },
        Some(member) => {
            if member.is_null() {
                if code == 50 || code == 25 {
                    Ok(Vec::new())
                } else {
                    Err(AlertsError::DataError)
                }
            } else {
                match member.into_list() {
                    Some(items) => Ok(items),
                    None => Err(AlertsError::ParseError),
                }
            }
        },
    }
}

/// The default of the options that are wanted unless they are switched off.
pub fn yes() -> (r: bool)
    ensures
        r,
{
    true
}

/// What is asked of the alert feed.
#[derive(Debug)]
pub struct AlertsOptions {
    /// Whether only the alerts in effect are wanted.
    pub active_only: Option<bool>,
    /// Whether alerts on lifts and escalators are wanted.
    pub accessibility: Option<bool>,
    /// Whether alerts on planned work are wanted.
    pub planned: Option<bool>,
    /// The routes whose alerts are wanted.
    pub route_ids: Vec<String>,
    /// The day from which alerts are wanted.
    pub by_start_date: Option<CivilDate>,
    /// How many days back alerts are wanted.
    pub recent_days: Option<i32>,
}

impl Default for AlertsOptions {
    fn default() -> (r: Self)
        ensures
            r.active_only is None,
            r.accessibility is None,
            r.planned is None,
            r.route_ids@.len() == 0,
            r.by_start_date is None,
            r.recent_days is None,
    {
        AlertsOptions {
            active_only: None,
            accessibility: None,
            planned: None,
            route_ids: Vec::new(),
            by_start_date: None,
            recent_days: None,
        }
    }
}

/// How `chrono` writes the date and time that the fields of `t` name
/// (`NaiveDateTime`'s `Display`); `None` where they name none.
pub uninterp spec fn chrono_datetime_text(t: CivilDateTime) -> Option<Seq<char>>;

/// How `chrono` writes the date that the fields of `d` name (`NaiveDate`'s
/// `Display`); `None` where they name none.
pub uninterp spec fn chrono_date_text(d: CivilDate) -> Option<Seq<char>>;

/// Calls `to_string` on the `chrono::NaiveDateTime` that the fields of `t`
/// name. The text depends on `t` alone, and is named
/// `chrono_datetime_text`.
#[verifier::external_body]
fn write_datetime(t: CivilDateTime) -> (r: Option<String>)
    ensures
        match r {
            Some(s) => chrono_datetime_text(t) == Some(s@),
            None => chrono_datetime_text(t) is None,
        },
{
    let date = chrono::NaiveDate::from_ymd_opt(t.date.year, t.date.month, t.date.day)?;
    Some(date.and_hms_nano_opt(t.hour, t.minute, t.second, t.nano)?.to_string())
}

/// Calls `to_string` on the `chrono::NaiveDate` that the fields of `d`
/// name. The text depends on `d` alone, and is named `chrono_date_text`.
#[verifier::external_body]
fn write_date(d: CivilDate) -> (r: Option<String>)
    ensures
        match r {
            Some(s) => chrono_date_text(d) == Some(s@),
            None => chrono_date_text(d) is None,
        },
{
    Some(chrono::NaiveDate::from_ymd_opt(d.year, d.month, d.day)?.to_string())
}

impl DateOrDateTime {
    /// The text that names the kind before the value.
    pub open spec fn tag(self) -> Seq<char> {
        match self {
            DateOrDateTime::DateTime(_) => "DateTime "@,
            DateOrDateTime::Date(_) => "Date "@,
        }
    }

    /// The value as `chrono` writes it.
    pub open spec fn written(self) -> Option<Seq<char>> {
        match self {
            DateOrDateTime::DateTime(t) => chrono_datetime_text(t),
            DateOrDateTime::Date(d) => chrono_date_text(d),
        }
    }

    /// Puts the kind before a written value.
    pub fn tagged(&self, written: &str) -> (r: String)
        ensures
            r@ == self.tag() + written@,
    {
        let mut r = match self {
            DateOrDateTime::DateTime(_) => String::from_str("DateTime "),
            DateOrDateTime::Date(_) => String::from_str("Date "),
        };
        r.append(written);
        r
    }

    /// Writes the value with its kind before it; `None` where its fields
    /// name no date of the calendar.
    pub fn to_text(&self) -> (r: Option<String>)
        ensures
            match r {
                Some(s) => self.written() matches Some(w) && s@ == self.tag() + w,
                None => self.written() is None,
            },
    {
        let written = match self {
            DateOrDateTime::DateTime(t) => write_datetime(*t),
            DateOrDateTime::Date(d) => write_date(*d),
        };
        match written {
            Some(w) => Some(self.tagged(w.as_str())),
            None => None,
        }
    }
}

} // verus!
