//! The list of rail stops, and the names of its stations.

use vstd::prelude::*;
use vstd::string::*;

verus! {

/// The side of the track that a platform serves.
#[derive(Clone, Copy, Debug, PartialEq, Eq, Structural)]
pub enum Direction {
    N,
    S,
    E,
    W,
}

/// Where a stop is, as the list wrote it.
#[derive(Debug)]
pub struct Location {
    pub latitude: String,
    pub longitude: String,
}

/// One platform of a station.
#[derive(Debug)]
pub struct Stop {
    pub stop_id: i32,
    pub direction_id: Direction,
    pub stop_name: String,
    pub station_name: String,
    pub station_descriptive_name: String,
    pub map_id: i32,
    pub ada: bool,
    pub red: bool,
    pub blue: bool,
    pub g: bool,
    pub brn: bool,
    pub p: bool,
    pub pexp: bool,
    pub y: bool,
    pub pnk: bool,
    pub o: bool,
    pub location: Location,
}

/// The index of the first of `stops[from..]` whose station or whose own
/// number is `id`.
pub open spec fn stop_position(stops: Seq<Stop>, id: i32, from: int) -> Option<int>
    decreases stops.len() - from,
{
    if from < 0 || from >= stops.len() {
        None
    } else if stops[from].map_id == id || stops[from].stop_id == id {
        Some(from)
    } else {
        stop_position(stops, id, from + 1)
    }
}

/// The rail stops.
#[derive(Debug)]
pub struct CtaStations {
    stops: Vec<Stop>,
}

impl CtaStations {
    /// The stops, in the order of the list.
    pub closed spec fn spec_stops(&self) -> Seq<Stop> {
        self.stops@
    }

    /// The stops of a list.
    pub fn from_stops(stops: Vec<Stop>) -> (r: CtaStations)
        ensures
            r.spec_stops() == stops@,
    {
        CtaStations { stops }
    }

    /// The descriptive name of the first stop whose station or whose own
    /// number is `id`.
    pub fn get_stop_name(&self, id: i32) -> (r: Option<String>)
        ensures
            match stop_position(self.spec_stops(), id, 0) {
                Some(i) => r matches Some(name) && name@
                    == self.spec_stops()[i].station_descriptive_name@,
                None => r is None,
            },
    {
        let mut i: usize = 0;
        while i < self.stops.len()
            invariant
                i <= self.stops.len(),
                stop_position(self.stops@, id, 0) == stop_position(self.stops@, id, i as int),
            decreases self.stops.len() - i,
        {
            if self.stops[i].map_id == id || self.stops[i].stop_id == id {
                return Some(self.stops[i].station_descriptive_name.clone());
            }
            i += 1;
        }
        None
    }
}

} // verus!
