//! The bus tracker: its records, the requests it answers, and what its
//! block identifiers say of a bus's garage.

use crate::civil::CivilDateTime;
use crate::text::{chars_of, find_char, join, joined, position_of, texts_of};
use chrono::{Datelike, Timelike};
use vstd::prelude::*;
use vstd::std_specs::convert::FromSpecImpl;
use vstd::string::*;

verus! {

/// A bus garage.
#[derive(Clone, Copy, Debug, PartialEq, Eq, Structural)]
pub enum Garage {
    Garage103rd,
    Kedzie,
    ForestGlen,
    NorthPark,
    Garage74th,
    Garage77th,
    Chicago,
    Unknown,
}

impl Garage {
    /// The garage's name.
    pub open spec fn name(self) -> Seq<char> {
        match self {
            Garage::Chicago => "Chicago Garage"@,
            Garage::Garage103rd => "103rd Garage"@,
            Garage::Kedzie => "Kedzie Garage"@,
            Garage::ForestGlen => "Forest Glen Garage"@,
            Garage::NorthPark => "North Park Garage"@,
            Garage::Garage74th => "74th Garage"@,
            Garage::Garage77th => "77th Garage"@,
            Garage::Unknown => "Unknown Garage"@,
        }
    }

    /// The garage's name.
    pub fn to_name(self) -> (r: String)
        ensures
            r@ == self.name(),
    {
        String::from_str(
            match self {
                Garage::Chicago => "Chicago Garage",
                Garage::Garage103rd => "103rd Garage",
                Garage::Kedzie => "Kedzie Garage",
                Garage::ForestGlen => "Forest Glen Garage",
                Garage::NorthPark => "North Park Garage",
                Garage::Garage74th => "74th Garage",
                Garage::Garage77th => "77th Garage",
                Garage::Unknown => "Unknown Garage",
            },
        )
    }
}

impl From<Garage> for String {
    fn from(garage: Garage) -> (r: String)
        ensures
            r@ == garage.name(),
    {
        garage.to_name()
    }
}

impl FromSpecImpl<Garage> for String {
    open spec fn obeys_from_spec() -> bool {
        false
    }

    open spec fn from_spec(garage: Garage) -> String {
        arbitrary()
    }
}

/// The character of a block identifier that tells the garage: the first
/// one after the first hyphen, or `0` where the identifier has no hyphen or
/// nothing between its first hyphen and the next.
pub open spec fn garage_key(tablockid: Seq<char>) -> char {
    let dash = find_char(tablockid, '-', 0);
    if dash + 1 < tablockid.len() && tablockid[dash + 1] != '-' {
        tablockid[dash + 1]
    } else {
        '0'
    }
}

/// The garage that a key character stands for.
pub open spec fn garage_of(key: char) -> Garage {
    if key == '1' {
        Garage::Garage103rd
    } else if key == '2' {
        Garage::Kedzie
    } else if key == '4' {
        Garage::ForestGlen
    } else if key == '5' {
        Garage::NorthPark
    } else if key == '6' {
        Garage::Garage74th
    } else if key == '7' {
        Garage::Garage77th
    } else if key == '8' {
        Garage::Chicago
    } else {
        Garage::Unknown
    }
}

/// Why the bus tracker gave no answer.
#[derive(Clone, Copy, Debug, PartialEq, Eq, Structural)]
pub enum BusTrackerError {
    /// The request failed.
    RequestError,
    /// The payload does not have the tracker's shape.
    ParseError,
    /// The tracker's time of day could not be read.
    TimeError,
    /// A time went out of the range that can be counted.
    TimeOutOfRange,
    /// A number could not be read.
    ParseIntError,
}

impl BusTrackerError {
    /// The sentence that describes the error to an operator.
    pub fn message(&self) -> (r: String)
        ensures
            r@ == match self {
                BusTrackerError::RequestError => "Failed to fetch data from BusTracker API"@,
                BusTrackerError::ParseError =>
                    "Failed to parse JSON data returned from BusTracker API"@,
                BusTrackerError::TimeError => "Failed to parse BusTracker server time."@,
                BusTrackerError::TimeOutOfRange => "Time arithmetic went out of range."@,
                BusTrackerError::ParseIntError => "Integer Parsing Error"@,
            },
    {
        match self {
            BusTrackerError::RequestError => String::from_str(
                "Failed to fetch data from BusTracker API",
            ),
            BusTrackerError::ParseError => String::from_str(
                "Failed to parse JSON data returned from BusTracker API",
            ),
            BusTrackerError::TimeError => String::from_str(
                "Failed to parse BusTracker server time.",
            ),
            BusTrackerError::TimeOutOfRange => String::from_str(
                "Time arithmetic went out of range.",
            ),
            BusTrackerError::ParseIntError => String::from_str("Integer Parsing Error"),
        }
    }
}

/// Where one bus is. The coordinates are held as the tracker wrote them.
#[derive(Debug)]
pub struct Vehicle {
    pub lat: String,
    pub lon: String,
    pub hdg: i32,
    pub tmstmp: String,
    pub vid: String,
    pub pid: i32,
    pub rt: String,
    pub des: String,
    pub dly: Option<bool>,
    pub zone: String,
    pub pdist: Option<i32>,
    /// The block identifier: a route, a hyphen, and a number whose first
    /// digit tells the garage.
    pub tablockid: String,
}

/// Whether a prediction is of an arrival or of a departure.
#[derive(Clone, Copy, Debug, PartialEq, Eq, Structural)]
pub enum PredictionType {
    A,
    D,
}

/// One predicted arrival or departure of a bus.
#[derive(Debug)]
pub struct Prediction {
    pub tmstmp: String,
    pub typ: PredictionType,
    pub stpnm: String,
    pub stpid: i32,
    pub vid: String,
    pub dstp: i32,
    pub rt: String,
    pub rtdir: String,
    pub des: String,
    pub prdtm: String,
    pub dly: Option<bool>,
    pub tablockid: String,
    pub tatripid: String,
    pub prdctdn: String,
    pub zone: String,
}

/// What names the buses asked for.
#[allow(non_snake_case)]
#[derive(Debug)]
pub enum VidOrRt {
    /// Some buses, by their numbers.
    Vid { Vid: Vec<String> },
    /// The buses of some routes.
    Rt { Rt: Vec<String> },
}

/// A request for the positions of buses.
#[derive(Debug)]
pub struct VehiclesParameters {
    pub search: VidOrRt,
}

/// What names the predictions asked for.
#[derive(Debug)]
pub enum StpidOrVid {
    /// Those of some stops, of some routes only where `rt` is given.
    StpId { stpid: Vec<String>, rt: Option<Vec<String>> },
    /// Those of some buses.
    Vid { vid: Vec<String> },
}

/// A request for predictions.
#[derive(Debug)]
pub struct PredictionsParameters {
    pub search: StpidOrVid,
}

/// The query that asks for the buses of `options`.
pub open spec fn vehicles_query(options: VehiclesParameters) -> Seq<char> {
    match options.search {
        VidOrRt::Vid { Vid } => "vid="@ + joined(texts_of(Vid@), ","@),
        VidOrRt::Rt { Rt } => "rt="@ + joined(texts_of(Rt@), ","@),
    }
}

/// The query that asks for the predictions of `options`.
pub open spec fn predictions_query(options: PredictionsParameters) -> Seq<char> {
    match options.search {
        StpidOrVid::StpId { stpid, rt } => match rt {
            Some(rts) => "stpid="@ + joined(texts_of(stpid@), ","@) + "&rt="@ + joined(
                texts_of(rts@),
                ","@,
            ),
            None => "stpid="@ + joined(texts_of(stpid@), ","@),
        },
        StpidOrVid::Vid { vid } => "vid="@ + joined(texts_of(vid@), ","@),
    }
}

/// What `chrono` reads from `s` in the tracker's format, `%Y%m%d %H:%M:%S`
/// (`NaiveDateTime::parse_from_str`), by its calendar fields; `None` where
/// it reports an error.
pub uninterp spec fn chrono_bustime(s: Seq<char>) -> Option<CivilDateTime>;

/// The Unix timestamp of `t` read as a time of the zone without offset, as
/// `chrono` counts it (`NaiveDateTime::and_utc`, then `timestamp`); `None`
/// where `t` is no date and time of the calendar.
pub uninterp spec fn utc_timestamp(t: CivilDateTime) -> Option<i64>;

/// Calls `chrono::NaiveDateTime::parse_from_str` with the tracker's format
/// and hands back the calendar fields of what it read. The result is a
/// function of the text alone, named `chrono_bustime`.
#[verifier::external_body]
fn read_bustime(s: &str) -> (r: Option<CivilDateTime>)
    ensures
        r == chrono_bustime(s@),
{
    let t = chrono::NaiveDateTime::parse_from_str(s, "%Y%m%d %H:%M:%S").ok()?;
    let date = crate::civil::CivilDate { year: t.year(), month: t.month(), day: t.day() };
    Some(
        CivilDateTime {
            date,
            hour: t.hour(),
            minute: t.minute(),
            second: t.second(),
            nano: t.nanosecond(),
        },
    )
}

/// Calls `chrono::NaiveDateTime::and_utc` on the date and time that the
/// fields of `t` name and hands back the timestamp of the result. It is a
/// function of `t` alone, named `utc_timestamp`.
#[verifier::external_body]
fn count_utc(t: CivilDateTime) -> (r: Option<i64>)
    ensures
        r == utc_timestamp(t),
{
    let date = chrono::NaiveDate::from_ymd_opt(t.date.year, t.date.month, t.date.day)?;
    let naive = date.and_hms_nano_opt(t.hour, t.minute, t.second, t.nano)?;
    Some(naive.and_utc().timestamp())
}

/// The seconds by which the tracker's clock reading is moved to give its
/// timestamp: six hours for the shift of the reading, and six for the
/// zone's offset.
pub const BUSTIME_SHIFT: i64 = 43200;

/// The timestamp that a reading of the tracker's clock gives. `reading` is
/// what the text gave, and `counted` the reading's timestamp in the zone
/// without offset.
pub open spec fn bustime_of(reading: Option<CivilDateTime>, counted: Option<i64>) -> Result<
    i64,
    BusTrackerError,
> {
    match reading {
        None => Err(BusTrackerError::TimeError),
        Some(_) => match counted {
            None => Err(BusTrackerError::TimeOutOfRange),
            Some(ts) => if ts + BUSTIME_SHIFT <= i64::MAX {
                Ok((ts + BUSTIME_SHIFT) as i64)
            } else {
                Err(BusTrackerError::TimeOutOfRange)
            },
        },
    }
}

/// The client of the bus tracker.
#[derive(Debug)]
pub struct BusTracker {
    token: String,
}

impl BusTracker {
    /// The key that the client sends with each request.
    pub closed spec fn spec_token(&self) -> Seq<char> {
        self.token@
    }

    /// The address that every request starts with.
    pub open spec fn base_url() -> Seq<char> {
        "http://www.ctabustracker.com/bustime/api/v2/"@
    }

    /// The address that asks for the tracker's time.
    pub open spec fn time_url_of(&self) -> Seq<char> {
        Self::base_url() + "gettime?key="@ + self.spec_token() + "&format=json"@
    }

    /// The address that asks for buses.
    pub open spec fn vehicles_url_of(&self, options: VehiclesParameters) -> Seq<char> {
        Self::base_url() + "getvehicles?key="@ + self.spec_token() + "&format=json&tmres=s&"@
            + vehicles_query(options)
    }

    /// The address that asks for predictions.
    pub open spec fn predictions_url_of(&self, options: PredictionsParameters) -> Seq<char> {
        Self::base_url() + "getpredictions?key="@ + self.spec_token() + "&format=json&"@
            + predictions_query(options)
    }

    /// A client that sends `token` as its key.
    pub fn new(token: &str) -> (r: Self)
        ensures
            r.spec_token() == token@,
    {
        Self { token: String::from_str(token) }
    }

    /// A copy of the client.
    pub fn duplicate(&self) -> (r: Self)
        ensures
            r.spec_token() == self.spec_token(),
    {
        Self { token: self.token.clone() }
    }

    /// The address that asks for the tracker's time.
    pub fn time_url(&self) -> (r: String)
        ensures
            r@ == self.time_url_of(),
    {
        let mut r = String::from_str("http://www.ctabustracker.com/bustime/api/v2/");
        r.append("gettime?key=");
        r.append(self.token.as_str());
        r.append("&format=json");
        assert(r@ =~= self.time_url_of());
        r
    }

    /// The address that asks for the buses of `options`.
    pub fn vehicles_url(&self, options: &VehiclesParameters) -> (r: String)
        ensures
            r@ == self.vehicles_url_of(*options),
    {
        let mut r = String::from_str("http://www.ctabustracker.com/bustime/api/v2/");
        r.append("getvehicles?key=");
        r.append(self.token.as_str());
        r.append("&format=json&tmres=s&");
        match &options.search {
            VidOrRt::Vid { Vid } => {
                r.append("vid=");
                let list = join(Vid.as_slice(), ",");
                r.append(list.as_str());
            },
            VidOrRt::Rt { Rt } => {
                r.append("rt=");
                let list = join(Rt.as_slice(), ",");
                r.append(list.as_str());
            },
        }
        assert(r@ =~= self.vehicles_url_of(*options));
        r
    }

    /// The address that asks for the predictions of `options`.
    pub fn predictions_url(&self, options: &PredictionsParameters) -> (r: String)
        ensures
            r@ == self.predictions_url_of(*options),
    {
        let mut r = String::from_str("http://www.ctabustracker.com/bustime/api/v2/");
        r.append("getpredictions?key=");
        r.append(self.token.as_str());
        r.append("&format=json&");
        match &options.search {
            StpidOrVid::StpId { stpid, rt } => {
                r.append("stpid=");
                let stops = join(stpid.as_slice(), ",");
                r.append(stops.as_str());
                match rt {
                    Some(rts) => {
                        r.append("&rt=");
                        let routes = join(rts.as_slice(), ",");
                        r.append(routes.as_str());
                    },
                    None => {},
                }
            },
            StpidOrVid::Vid { vid } => {
                r.append("vid=");
                let list = join(vid.as_slice(), ",");
                r.append(list.as_str());
            },
        }
        assert(r@ =~= self.predictions_url_of(*options));
        r
    }

    /// Puts a reading of the tracker's clock and its count together. A text
    /// that gave no reading is a time error; a reading that cannot be
    /// counted, or whose shifted count does not fit, is out of range.
    pub fn bustime_from(reading: Option<CivilDateTime>, counted: Option<i64>) -> (r: Result<
        i64,
        BusTrackerError,
    >)
        ensures
            r == bustime_of(reading, counted),
    {
        match reading {
            None => Err(BusTrackerError::TimeError),
            Some(_) => match counted {
                None => Err(BusTrackerError::TimeOutOfRange),
                Some(ts) => match ts.checked_add(BUSTIME_SHIFT) {
                    Some(shifted) => Ok(shifted),
                    None => Err(BusTrackerError::TimeOutOfRange),
                },
            },
        }
    }

    /// Reads the tracker's clock, written as `%Y%m%d %H:%M:%S`, and gives
    /// its timestamp.
    pub fn parse_bustime(timestamp: &str) -> (r: Result<i64, BusTrackerError>)
        ensures
            r == bustime_of(
                chrono_bustime(timestamp@),
                match chrono_bustime(timestamp@) {
                    Some(t) => utc_timestamp(t),
                    None => None,
                },
            ),
    {
        let reading = read_bustime(timestamp);
        let counted = match reading {
            Some(t) => count_utc(t),
            None => None,
        };
        Self::bustime_from(reading, counted)
    }

    /// Tells the garage of a bus from its block identifier, which reads
    /// `route -GXX` with the garage's digit for `G`.
    pub fn tablockid_to_garage(tablockid: &str) -> (r: Garage)
        ensures
            r == garage_of(garage_key(tablockid@)),
    {
        let chars = chars_of(tablockid);
        let dash = position_of(&chars, '-');
        let key = if dash < chars.len() && dash + 1 < chars.len() {
            if chars[dash + 1] != '-' {
                chars[dash + 1]
            } else {
                '0'
            }
        } else {
            '0'
        };
        if key == '1' {
            Garage::Garage103rd
        } else if key == '2' {
            Garage::Kedzie
        } else if key == '4' {
            Garage::ForestGlen
        } else if key == '5' {
            Garage::NorthPark
        } else if key == '6' {
            Garage::Garage74th
        } else if key == '7' {
            Garage::Garage77th
        } else if key == '8' {
            Garage::Chicago
        } else {
            Garage::Unknown
        }
    }
}

} // verus!
