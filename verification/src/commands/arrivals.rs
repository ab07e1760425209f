//! The command that shows the arrival board of a rail station.

use crate::arrivaldisplay::Arrival;
use crate::cta::gtfs::StopEntry;
use crate::cta::traintracker::{LRouteName, TTArrival};
use crate::text::{parse_i32, parse_i32_spec};
use crate::util::{countdown, countdown_text};
use vstd::prelude::*;
use vstd::string::*;

verus! {

/// The most stations that are offered for a choice.
pub const MAX_STATIONS: usize = 25;

/// What the command does with the stations that a search found.
#[derive(Clone, Copy, Debug, PartialEq, Eq, Structural)]
pub enum StationChoice {
    /// There are too many: the rider is asked to narrow the search.
    TooMany,
    /// There are several: the rider is asked to pick one.
    Choose,
    /// There is none.
    NoneFound,
    /// There is one: its board is shown.
    Single,
}

/// Decides what to do with `found` stations.
pub fn choose_station(found: usize) -> (r: StationChoice)
    ensures
        r == if found > MAX_STATIONS {
            StationChoice::TooMany
        } else if found > 1 {
            StationChoice::Choose
        } else if found == 0 {
            StationChoice::NoneFound
        } else {
            StationChoice::Single
        },
{
    if found > MAX_STATIONS {
        StationChoice::TooMany
    } else if found > 1 {
        StationChoice::Choose
    } else if found == 0 {
        StationChoice::NoneFound
    } else {
        StationChoice::Single
    }
}

/// Whether a stop is a rail station: its identifier writes a number from
/// 40000 to 50000.
pub open spec fn is_station(stop: StopEntry) -> bool {
    match parse_i32_spec(stop.id@) {
        Some(n) => 40000 <= n <= 50000,
        None => false,
    }
}

/// The indices of the stops that are rail stations, in order.
pub open spec fn station_indices(stops: Seq<StopEntry>) -> Seq<int>
    decreases stops.len(),
{
    if stops.len() == 0 {
        Seq::empty()
    } else if is_station(stops.last()) {
        station_indices(stops.drop_last()).push(stops.len() - 1)
    } else {
        station_indices(stops.drop_last())
    }
}

/// Picks the rail stations out of the stops that a search found, and gives
/// their indices in `stops`.
pub fn train_stations(stops: &[StopEntry]) -> (r: Vec<usize>)
    ensures
        r@.map_values(|i: usize| i as int) == station_indices(stops@),
{
    let ghost cast = |i: usize| i as int;
    let mut out: Vec<usize> = Vec::new();
    let mut i: usize = 0;
    assert(stops@.take(0) =~= Seq::empty());
    assert(out@.map_values(cast) =~= Seq::empty());
    while i < stops.len()
        invariant
            i <= stops.len(),
            cast == |i: usize| i as int,
            out@.map_values(cast) == station_indices(stops@.take(i as int)),
        decreases stops.len() - i,
    {
        let ghost before = out@;
        assert(stops@.take(i + 1).drop_last() =~= stops@.take(i as int));
        assert(stops@.take(i + 1).last() == stops@[i as int]);
        let keep = match parse_i32(stops[i].id.as_str()) {
            Some(n) => 40000 <= n && n <= 50000,
            None => false,
        };
        if keep {
            out.push(i);
            assert(out@.map_values(cast) =~= before.map_values(cast).push(i as int));
        }
        i += 1;
    }
    assert(stops@.take(stops.len() as int) =~= stops@);
    out
}

/// How a station is called on its board: by its name, or by its
/// identifier where it has no name.
pub open spec fn station_title_of(stop: StopEntry) -> Seq<char> {
    match stop.name {
        Some(name) => name@,
        None => "Station ID "@ + stop.id@,
    }
}

/// Writes how a station is called on its board.
pub fn station_title(stop: &StopEntry) -> (r: String)
    ensures
        r@ == station_title_of(*stop),
{
    match &stop.name {
        Some(name) => name.clone(),
        None => {
            let mut r = String::from_str("Station ID ");
            r.append(stop.id.as_str());
            r
        },
    }
}

/// The row of the board for a predicted arrival that is `minutes` minutes
/// away.
pub fn board_arrival(prediction: &TTArrival, minutes: i32) -> (r: Arrival)
    ensures
        r.destination_name@ == prediction.destination_name@,
        r.route == prediction.route.name(),
        r.countdown@ == countdown_text(minutes as int),
        r.is_scheduled == prediction.is_scheduled,
        r.train_number == prediction.run_number,
{
    Arrival {
        destination_name: prediction.destination_name.clone(),
        route: LRouteName::from(prediction.route),
        countdown: countdown(minutes),
        is_scheduled: prediction.is_scheduled,
        train_number: prediction.run_number,
    }
}

} // verus!
