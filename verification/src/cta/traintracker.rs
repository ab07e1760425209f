//! The rail tracker: its records, and the requests it answers.

use crate::civil::CivilDateTime;
use crate::text::{decimal, push_decimal};
use vstd::prelude::*;
use vstd::std_specs::convert::FromSpecImpl;
use vstd::string::*;

verus! {

/// A rail line, by the short code of the tracker.
#[derive(Clone, Copy, Debug, PartialEq, Eq, Structural)]
pub enum LRouteCode {
    Red,
    P,
    Y,
    Blue,
    Pink,
    G,
    Org,
    Brn,
}

/// A rail line, by its name.
#[derive(Clone, Copy, Debug, PartialEq, Eq, Structural)]
pub enum LRouteName {
    Red,
    P,
    Y,
    Blue,
    Pink,
    G,
    Org,
    Brn,
}

impl LRouteCode {
    /// The line's name.
    pub open spec fn name(self) -> LRouteName {
        match self {
            LRouteCode::Red => LRouteName::Red,
            LRouteCode::P => LRouteName::P,
            LRouteCode::Y => LRouteName::Y,
            LRouteCode::Blue => LRouteName::Blue,
            LRouteCode::Pink => LRouteName::Pink,
            LRouteCode::G => LRouteName::G,
            LRouteCode::Org => LRouteName::Org,
            LRouteCode::Brn => LRouteName::Brn,
        }
    }

    /// The code as the tracker's query wants it: the code's own spelling in
    /// double quotes.
    pub open spec fn quoted(self) -> Seq<char> {
        match self {
            LRouteCode::Red => "\"Red\""@,
            LRouteCode::P => "\"P\""@,
            LRouteCode::Y => "\"Y\""@,
            LRouteCode::Blue => "\"Blue\""@,
            LRouteCode::Pink => "\"Pink\""@,
            LRouteCode::G => "\"G\""@,
            LRouteCode::Org => "\"Org\""@,
            LRouteCode::Brn => "\"Brn\""@,
        }
    }

    /// Writes the code in double quotes.
    pub fn to_quoted(&self) -> (r: &'static str)
        ensures
            r@ == self.quoted(),
    {
        match self {
            LRouteCode::Red => "\"Red\"",
            LRouteCode::P => "\"P\"",
            LRouteCode::Y => "\"Y\"",
            LRouteCode::Blue => "\"Blue\"",
            LRouteCode::Pink => "\"Pink\"",
            LRouteCode::G => "\"G\"",
            LRouteCode::Org => "\"Org\"",
            LRouteCode::Brn => "\"Brn\"",
        }
    }
}

impl LRouteName {
    /// The line's code.
    pub open spec fn code(self) -> LRouteCode {
        match self {
            LRouteName::Red => LRouteCode::Red,
            LRouteName::P => LRouteCode::P,
            LRouteName::Y => LRouteCode::Y,
            LRouteName::Blue => LRouteCode::Blue,
            LRouteName::Pink => LRouteCode::Pink,
            LRouteName::G => LRouteCode::G,
            LRouteName::Org => LRouteCode::Org,
            LRouteName::Brn => LRouteCode::Brn,
        }
    }

    /// The name as riders read it.
    pub open spec fn label(self) -> Seq<char> {
        match self {
            LRouteName::Red => "Red Line"@,
            LRouteName::P => "Purple Line"@,
            LRouteName::Y => "Yellow Line"@,
            LRouteName::Blue => "Blue Line"@,
            LRouteName::Pink => "Pink Line"@,
            LRouteName::G => "Green Line"@,
            LRouteName::Org => "Orange Line"@,
            LRouteName::Brn => "Brown Line"@,
        }
    }

    /// The name as riders read it.
    pub fn to_label(&self) -> (r: &'static str)
        ensures
            r@ == self.label(),
    {
        match self {
            LRouteName::Red => "Red Line",
            LRouteName::P => "Purple Line",
            LRouteName::Y => "Yellow Line",
            LRouteName::Blue => "Blue Line",
            LRouteName::Pink => "Pink Line",
            LRouteName::G => "Green Line",
            LRouteName::Org => "Orange Line",
            LRouteName::Brn => "Brown Line",
        }
    }
}

impl From<LRouteCode> for LRouteName {
    fn from(value: LRouteCode) -> (r: Self) {
        match value {
            LRouteCode::Red => LRouteName::Red,
            LRouteCode::P => LRouteName::P,
            LRouteCode::Y => LRouteName::Y,
            LRouteCode::Blue => LRouteName::Blue,
            LRouteCode::Pink => LRouteName::Pink,
            LRouteCode::G => LRouteName::G,
            LRouteCode::Org => LRouteName::Org,
            LRouteCode::Brn => LRouteName::Brn,
        }
    }
}

impl FromSpecImpl<LRouteCode> for LRouteName {
    open spec fn obeys_from_spec() -> bool {
        true
    }

    open spec fn from_spec(value: LRouteCode) -> Self {
        value.name()
    }
}

impl From<LRouteName> for LRouteCode {
    fn from(value: LRouteName) -> (r: Self) {
        match value {
            LRouteName::Red => LRouteCode::Red,
            LRouteName::P => LRouteCode::P,
            LRouteName::Y => LRouteCode::Y,
            LRouteName::Blue => LRouteCode::Blue,
            LRouteName::Pink => LRouteCode::Pink,
            LRouteName::G => LRouteCode::G,
            LRouteName::Org => LRouteCode::Org,
            LRouteName::Brn => LRouteCode::Brn,
        }
    }
}

impl FromSpecImpl<LRouteName> for LRouteCode {
    open spec fn obeys_from_spec() -> bool {
        true
    }

    open spec fn from_spec(value: LRouteName) -> Self {
        value.code()
    }
}

/// A line's code and its name stand for one line: each conversion undoes
/// the other.
pub proof fn lemma_route_round_trip(code: LRouteCode, name: LRouteName)
    ensures
        code.name().code() == code,
        name.code().name() == name,
{
}

/// Why the rail tracker gave no answer.
#[derive(Clone, Copy, Debug, PartialEq, Eq, Structural)]
pub enum TrainTrackerError {
    /// The request failed.
    RequestError,
    /// The payload does not have the tracker's shape.
    ParseError,
    /// The tracker's data make no sense.
    DataError,
}

impl TrainTrackerError {
    /// The sentence that describes the error to an operator.
    pub fn message(&self) -> (r: String)
        ensures
            r@ == match self {
                TrainTrackerError::RequestError => "Failed to fetch data from TrainTracker API"@,
                TrainTrackerError::ParseError =>
                    "Failed to parse JSON data returned from TrainTracker API"@,
                TrainTrackerError::DataError => "TrainTracker API provided invalid data"@,
            },
    {
        match self {
            TrainTrackerError::RequestError => String::from_str(
                "Failed to fetch data from TrainTracker API",
            ),
            TrainTrackerError::ParseError => String::from_str(
                "Failed to parse JSON data returned from TrainTracker API",
            ),
            TrainTrackerError::DataError => String::from_str(
                "TrainTracker API provided invalid data",
            ),
        }
    }
}

/// The way a train runs.
#[derive(Clone, Copy, Debug, PartialEq, Eq, Structural)]
pub enum TrainDirection {
    Northbound,
    Southbound,
}

impl TrainDirection {
    /// The direction that a code of the tracker names.
    pub open spec fn from_code(s: Seq<char>) -> Option<TrainDirection> {
        if s == seq!['1'] {
            Some(TrainDirection::Northbound)
        } else if s == seq!['5'] {
            Some(TrainDirection::Southbound)
        } else {
            None
        }
    }

    /// The number that the tracker gives the direction.
    pub open spec fn number(self) -> i8 {
        match self {
            TrainDirection::Northbound => 1,
            TrainDirection::Southbound => 5,
        }
    }

    /// Reads the tracker's code: `1` is northbound and `5` southbound.
    pub fn from_str(s: &str) -> (r: Result<TrainDirection, TrainTrackerError>)
        ensures
            match r {
                Ok(d) => Self::from_code(s@) == Some(d),
                Err(e) => Self::from_code(s@) is None && e == TrainTrackerError::DataError,
            },
    {
        proof {
            reveal_strlit("1");
            reveal_strlit("5");
            assert("1"@ =~= seq!['1']);
            assert("5"@ =~= seq!['5']);
        }
        if *s == *"1" {
            Ok(TrainDirection::Northbound)
        } else if *s == *"5" {
            Ok(TrainDirection::Southbound)
        } else {
            Err(TrainTrackerError::DataError)
        }
    }

    /// The number that the tracker gives the direction.
    pub fn to_number(&self) -> (r: i8)
        ensures
            r == self.number(),
    {
        match self {
            TrainDirection::Northbound => 1,
            TrainDirection::Southbound => 5,
        }
    }
}

/// The trains of one line.
#[derive(Debug)]
pub struct TTRoute {
    pub name: LRouteCode,
    pub trains: Vec<TTPosition>,
}

/// Where one train is. The coordinates are held as the tracker wrote them.
#[derive(Debug)]
pub struct TTPosition {
    pub run_number: i32,
    pub route: Option<LRouteCode>,
    pub destination_station: i32,
    pub destination_name: String,
    pub train_direction: i8,
    pub next_station_id: i32,
    pub next_stop_id: i32,
    pub next_station_name: String,
    pub prediction_time: CivilDateTime,
    pub arrival_time: CivilDateTime,
    pub is_approaching: bool,
    pub is_delayed: bool,
    pub lat: String,
    pub lon: String,
    pub heading: i32,
}

impl TTPosition {
    /// A copy of the position.
    pub fn duplicate(&self) -> (r: TTPosition)
        ensures
            r == *self,
    {
        TTPosition {
            run_number: self.run_number,
            route: self.route,
            destination_station: self.destination_station,
            destination_name: self.destination_name.clone(),
            train_direction: self.train_direction,
            next_station_id: self.next_station_id,
            next_stop_id: self.next_stop_id,
            next_station_name: self.next_station_name.clone(),
            prediction_time: self.prediction_time,
            arrival_time: self.arrival_time,
            is_approaching: self.is_approaching,
            is_delayed: self.is_delayed,
            lat: self.lat.clone(),
            lon: self.lon.clone(),
            heading: self.heading,
        }
    }
}

/// One predicted arrival at a station.
#[derive(Debug)]
pub struct TTArrival {
    pub run_number: i32,
    pub route: LRouteCode,
    pub destination_station: i32,
    pub destination_name: String,
    pub train_direction: i8,
    pub prediction_time: CivilDateTime,
    pub arrival_time: CivilDateTime,
    pub is_approaching: bool,
    pub is_scheduled: bool,
    pub is_delayed: bool,
    pub is_faulted: bool,
    pub latitude: Option<String>,
    pub longitude: Option<String>,
    pub heading: Option<String>,
}

/// Where a followed train is. The coordinates are held as the tracker
/// wrote them.
#[derive(Debug)]
pub struct Position {
    pub latitude: String,
    pub longitude: String,
    pub heading: i32,
}

/// One stop ahead of a followed train.
#[derive(Debug)]
pub struct TTFollowEta {
    pub station_id: i32,
    pub stop_id: i32,
    pub station_name: String,
    pub run_number: i32,
    pub route: LRouteName,
    pub destination_station: i32,
    pub destination_name: String,
    pub train_direction: TrainDirection,
    pub prediction_time: CivilDateTime,
    pub arrival_time: CivilDateTime,
    pub is_approaching: bool,
    pub is_scheduled: bool,
    pub is_delayed: bool,
    pub is_faulted: bool,
}

/// What names the place whose arrivals are asked for.
#[derive(Clone, Copy, Debug, PartialEq, Eq, Structural)]
pub enum MapOrStopID {
    /// A station.
    MapID { mapid: i32 },
    /// One platform of a station.
    StopID { stpid: i32 },
}

/// A request for arrivals.
#[derive(Debug)]
pub struct ArrivalsParameters {
    /// The place.
    pub id: MapOrStopID,
    /// The most arrivals wanted.
    pub max: Option<i32>,
    /// The line wanted.
    pub rt: Option<String>,
}

/// The query that asks for the arrivals of `options`: the place, then the
/// limit and the line where they are given.
pub open spec fn arrivals_query(options: ArrivalsParameters) -> Seq<char> {
    (match options.id {
        MapOrStopID::MapID { mapid } => "mapid="@ + decimal(mapid as int),
        MapOrStopID::StopID { stpid } => "stpid="@ + decimal(stpid as int),
    }) + (match options.max {
        Some(max) => "&max="@ + decimal(max as int),
        None => Seq::empty(),
    }) + (match options.rt {
        Some(rt) => "&rt="@ + rt@,
        None => Seq::empty(),
    })
}

/// The codes of `routes` as the positions request lists them: each in
/// double quotes and followed by a comma.
pub open spec fn routes_list(routes: Seq<LRouteCode>) -> Seq<char>
    decreases routes.len(),
{
    if routes.len() == 0 {
        Seq::empty()
    } else {
        routes_list(routes.drop_last()) + routes.last().quoted() + ","@
    }
}

/// The client of the rail tracker.
pub struct TrainTracker {
    token: String,
}

impl TrainTracker {
    /// The key that the client sends with each request.
    pub closed spec fn spec_token(&self) -> Seq<char> {
        self.token@
    }

    /// The address that every request starts with.
    pub open spec fn base_url() -> Seq<char> {
        "https://lapi.transitchicago.com/api/1.0/"@
    }

    /// The address that asks for the stops ahead of a train.
    pub open spec fn follow_train_url_of(&self, train_number: i32) -> Seq<char> {
        Self::base_url() + "ttfollow.aspx?runnumber="@ + decimal(train_number as int) + "&key="@
            + self.spec_token() + "&outputType=JSON"@
    }

    /// The address that asks for arrivals.
    pub open spec fn arrivals_url_of(&self, options: ArrivalsParameters) -> Seq<char> {
        Self::base_url() + "ttarrivals.aspx?"@ + arrivals_query(options) + "&key="@
            + self.spec_token() + "&outputType=JSON"@
    }

    /// The address that asks for the trains of some lines.
    pub open spec fn positions_url_of(&self, routes: Seq<LRouteCode>) -> Seq<char> {
        Self::base_url() + "ttpositions.aspx?rt="@ + routes_list(routes) + "&key="@
            + self.spec_token() + "&outputType=JSON"@
    }

    /// A client that sends `token` as its key.
    pub fn new(token: &str) -> (r: Self)
        ensures
            r.spec_token() == token@,
    {
        Self { token: String::from_str(token) }
    }

    /// The address that asks for the stops ahead of the train with the run
    /// number `train_number`.
    pub fn follow_train_url(&self, train_number: i32) -> (r: String)
        ensures
            r@ == self.follow_train_url_of(train_number),
    {
        let mut r = String::from_str("https://lapi.transitchicago.com/api/1.0/");
        r.append("ttfollow.aspx?runnumber=");
        push_decimal(&mut r, train_number as i64);
        r.append("&key=");
        r.append(self.token.as_str());
        r.append("&outputType=JSON");
        assert(r@ =~= self.follow_train_url_of(train_number));
        r
    }

    /// The address that asks for the arrivals of `options`.
    pub fn arrivals_url(&self, options: &ArrivalsParameters) -> (r: String)
        ensures
            r@ == self.arrivals_url_of(*options),
    {
        let mut r = String::from_str("https://lapi.transitchicago.com/api/1.0/");
        r.append("ttarrivals.aspx?");
        match options.id {
            MapOrStopID::MapID { mapid } => {
                r.append("mapid=");
                push_decimal(&mut r, mapid as i64);
            },
            MapOrStopID::StopID { stpid } => {
                r.append("stpid=");
                push_decimal(&mut r, stpid as i64);
            },
        }
        match options.max {
            Some(max) => {
                r.append("&max=");
                push_decimal(&mut r, max as i64);
            },
            None => {},
        }
        match &options.rt {
            Some(rt) => {
                r.append("&rt=");
                r.append(rt.as_str());
            },
            None => {},
        }
        r.append("&key=");
        r.append(self.token.as_str());
        r.append("&outputType=JSON");
        assert(r@ =~= self.arrivals_url_of(*options));
        r
    }

    /// The address that asks for the trains of the lines `rt`.
    pub fn positions_url(&self, rt: &Vec<LRouteCode>) -> (r: String)
        ensures
            r@ == self.positions_url_of(rt@),
    {
        let mut r = String::from_str("https://lapi.transitchicago.com/api/1.0/");
        r.append("ttpositions.aspx?rt=");
        let ghost head = r@;
        let mut i: usize = 0;
        assert(rt@.take(0) =~= Seq::empty());
        assert(head + routes_list(rt@.take(0)) =~= head);
        while i < rt.len()
            invariant
                i <= rt.len(),
                r@ == head + routes_list(rt@.take(i as int)),
            decreases rt.len() - i,
        {
            assert(rt@.take(i + 1).drop_last() =~= rt@.take(i as int));
            assert(rt@.take(i + 1).last() == rt@[i as int]);
            r.append(rt[i].to_quoted());
            r.append(",");
            assert(r@ =~= head + routes_list(rt@.take(i + 1)));
            i += 1;
        }
        assert(rt@.take(rt.len() as int) =~= rt@);
        r.append("&key=");
        r.append(self.token.as_str());
        r.append("&outputType=JSON");
        assert(r@ =~= self.positions_url_of(rt@));
        r
    }
}

} // verus!
