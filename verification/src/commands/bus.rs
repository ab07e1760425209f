//! The commands about buses: where they are, and when they arrive.

use crate::cta::bustracker::{Garage, Prediction, Vehicle};
use crate::cta::gtfs::StopEntry;
use crate::text::{decimal, parse_i32, parse_i32_spec, push_decimal, texts_of};
use vstd::prelude::*;
use vstd::string::*;

verus! {

/// The most stop names that are offered for a choice.
pub const MAX_STOPS: usize = 25;

/// The most stop names whose arrivals are shown at once.
pub const SHOWN_STOPS: usize = 2;

/// The highest number of a bus stop.
pub const LAST_BUS_STOP: i32 = 30000;

/// The most bytes of a report that are shown.
pub const REPORT_BYTES: usize = 4096;

/// What the command does with the stop names that a search found.
#[derive(Clone, Copy, Debug, PartialEq, Eq, Structural)]
pub enum StopChoice {
    /// There are too many: the rider is asked to narrow the search.
    TooMany,
    /// There are several: the rider is asked to pick one.
    Choose,
    /// There is none.
    NoneFound,
    /// There are one or two: their arrivals are shown.
    Show,
}

/// Decides what to do with `names` stop names.
pub fn choose_stop(names: usize) -> (r: StopChoice)
    ensures
        r == if names > MAX_STOPS {
            StopChoice::TooMany
        } else if names > SHOWN_STOPS {
            StopChoice::Choose
        } else if names == 0 {
            StopChoice::NoneFound
        } else {
            StopChoice::Show
        },
{
    if names > MAX_STOPS {
        StopChoice::TooMany
    } else if names > SHOWN_STOPS {
        StopChoice::Choose
    } else if names == 0 {
        StopChoice::NoneFound
    } else {
        StopChoice::Show
    }
}

/// The stops that go by one name.
#[derive(Debug)]
pub struct StopGroup {
    /// The name.
    pub name: String,
    /// The identifiers of the stops, in the order in which they were found.
    pub ids: Vec<String>,
}

/// What a `StopGroup` holds, as mathematics.
pub struct StopGroupView {
    pub name: Seq<char>,
    pub ids: Seq<Seq<char>>,
}

impl View for StopGroup {
    type V = StopGroupView;

    open spec fn view(&self) -> StopGroupView {
        StopGroupView { name: self.name@, ids: texts_of(self.ids@) }
    }
}

/// The views of a list of groups, in order.
pub open spec fn group_views(groups: Seq<StopGroup>) -> Seq<StopGroupView> {
    Seq::new(groups.len(), |i: int| groups[i]@)
}

/// Whether a stop is a bus stop: its identifier writes a number up to
/// 30000.
pub open spec fn is_bus_stop(stop: StopEntry) -> bool {
    match parse_i32_spec(stop.id@) {
        Some(n) => n <= LAST_BUS_STOP,
        None => false,
    }
}

/// The index of the first of `groups[from..]` that is called `name`.
pub open spec fn group_index(groups: Seq<StopGroupView>, name: Seq<char>, from: int) -> Option<
    int,
>
    decreases groups.len() - from,
{
    if from < 0 || from >= groups.len() {
        None
    } else if groups[from].name == name {
        Some(from)
    } else {
        group_index(groups, name, from + 1)
    }
}

/// `groups` with the stop `id` added under `name`: to the group of that
/// name, or as a new group at the end.
pub open spec fn with_stop(groups: Seq<StopGroupView>, name: Seq<char>, id: Seq<char>) -> Seq<
    StopGroupView,
> {
    match group_index(groups, name, 0) {
        Some(k) => groups.update(k, StopGroupView { name, ids: groups[k].ids.push(id) }),
        None => groups.push(StopGroupView { name, ids: seq![id] }),
    }
}

/// The bus stops of `stops`, grouped by name. The groups stand in the order
/// in which their names first occur, and so do the stops of each group.
pub open spec fn groups_of(stops: Seq<StopEntry>) -> Seq<StopGroupView>
    decreases stops.len(),
{
    if stops.len() == 0 {
        Seq::empty()
    } else if is_bus_stop(stops.last()) {
        with_stop(groups_of(stops.drop_last()), stops.last().label(), stops.last().id@)
    } else {
        groups_of(stops.drop_last())
    }
}

fn find_group(groups: &Vec<StopGroup>, name: &str) -> (r: Option<usize>)
    ensures
        match r {
            Some(k) => group_index(group_views(groups@), name@, 0) == Some(k as int) && k
                < groups.len() && groups@[k as int].name@ == name@,
            None => group_index(group_views(groups@), name@, 0) is None,
        },
{
    let mut i: usize = 0;
    while i < groups.len()
        invariant
            i <= groups.len(),
            group_index(group_views(groups@), name@, 0) == group_index(
                group_views(groups@),
                name@,
                i as int,
            ),
        decreases groups.len() - i,
    {
        if *groups[i].name.as_str() == *name {
            return Some(i);
        }
        i += 1;
    }
    None
}

/// Groups the bus stops that a search found by their name.
pub fn group_stops(stops: &[StopEntry]) -> (r: Vec<StopGroup>)
    ensures
        group_views(r@) == groups_of(stops@),
{
    let mut out: Vec<StopGroup> = Vec::new();
    let mut i: usize = 0;
    assert(stops@.take(0) =~= Seq::empty());
    assert(group_views(out@) =~= Seq::empty());
    while i < stops.len()
        invariant
            i <= stops.len(),
            group_views(out@) == groups_of(stops@.take(i as int)),
        decreases stops.len() - i,
    {
        let ghost before = out@;
        assert(stops@.take(i + 1).drop_last() =~= stops@.take(i as int));
        assert(stops@.take(i + 1).last() == stops@[i as int]);
        let keep = match parse_i32(stops[i].id.as_str()) {
            Some(n) => n <= LAST_BUS_STOP,
            None => false,
        };
        if keep {
            let name = match &stops[i].name {
                Some(name) => name.clone(),
                None => String::new(),
            };
            let id = stops[i].id.clone();
            match find_group(&out, name.as_str()) {
                Some(k) => {
                    let ghost ids_before = out@[k as int].ids@;
                    out[k].ids.push(id);
                    assert(out@.len() == before.len());
                    assert(out@[k as int].name == before[k as int].name);
                    assert(forall|j: int| 0 <= j < out@.len() && j != k ==> out@[j] == before[j]);
                    assert(texts_of(out@[k as int].ids@) =~= texts_of(ids_before).push(id@));
                    assert(group_views(out@) =~= group_views(before).update(
                        k as int,
                        StopGroupView { name: name@, ids: texts_of(ids_before).push(id@) },
                    ));
                },
                None => {
                    let mut ids: Vec<String> = Vec::new();
                    ids.push(id);
                    assert(texts_of(ids@) =~= seq![id@]);
                    out.push(StopGroup { name, ids });
                    assert(group_views(out@) =~= group_views(before).push(
                        StopGroupView { name: name@, ids: seq![id@] },
                    ));
                },
            }
        }
        i += 1;
    }
    assert(stops@.take(stops.len() as int) =~= stops@);
    out
}

/// The line of the report for one bus.
pub open spec fn vehicle_line_of(vehicle: Vehicle, route_name: Seq<char>, garage: Garage) -> Seq<
    char,
> {
    "Bus "@ + vehicle.vid@ + " Route "@ + vehicle.rt@ + " ("@ + route_name + ") to "@
        + vehicle.des@ + ". "@ + garage.name() + "\n"@
}

/// Writes the line of the report for one bus on the route called
/// `route_name`.
pub fn vehicle_line(vehicle: &Vehicle, route_name: &str) -> (r: String)
    ensures
        r@ == vehicle_line_of(
            *vehicle,
            route_name@,
            crate::cta::bustracker::garage_of(
                crate::cta::bustracker::garage_key(vehicle.tablockid@),
            ),
        ),
{
    let garage = crate::cta::bustracker::BusTracker::tablockid_to_garage(
        vehicle.tablockid.as_str(),
    );
    let mut r = String::from_str("Bus ");
    r.append(vehicle.vid.as_str());
    r.append(" Route ");
    r.append(vehicle.rt.as_str());
    r.append(" (");
    r.append(route_name);
    r.append(") to ");
    r.append(vehicle.des.as_str());
    r.append(". ");
    r.append(garage.to_name().as_str());
    r.append("\n");
    assert(r@ =~= vehicle_line_of(*vehicle, route_name@, garage));
    r
}

/// The line of the board for one predicted arrival at the instant
/// `predicted`, a Unix timestamp.
pub open spec fn prediction_line_of(prediction: Prediction, predicted: i64) -> Seq<char> {
    "Route "@ + prediction.rt@ + " "@ + prediction.rtdir@ + " to "@ + prediction.des@ + " <t:"@
        + decimal(predicted as int) + ":R> (Bus #"@ + prediction.vid@ + ")\n"@
}

/// Writes the line of the board for one predicted arrival.
pub fn prediction_line(prediction: &Prediction, predicted: i64) -> (r: String)
    ensures
        r@ == prediction_line_of(*prediction, predicted),
{
    let mut r = String::from_str("Route ");
    r.append(prediction.rt.as_str());
    r.append(" ");
    r.append(prediction.rtdir.as_str());
    r.append(" to ");
    r.append(prediction.des.as_str());
    r.append(" <t:");
    push_decimal(&mut r, predicted);
    r.append(":R> (Bus #");
    r.append(prediction.vid.as_str());
    r.append(")\n");
    assert(r@ =~= prediction_line_of(*prediction, predicted));
    r
}

/// Where a report of the bytes `bytes` is cut so that at most `at` bytes
/// stay and no character is split: the last character boundary up to `at`.
pub open spec fn clip_point(bytes: Seq<u8>, at: int) -> int
    decreases at,
{
    if at <= 0 {
        0
    } else if vstd::utf8::is_char_boundary(bytes, at) {
        at
    } else {
        clip_point(bytes, at - 1)
    }
}

/// Cuts a report that is longer than `REPORT_BYTES` bytes, and says whether
/// it did. The cut falls on the last character boundary within the limit.
pub fn clip_report(msg: &str) -> (r: (&str, bool))
    ensures
        r.1 == (msg.len() > REPORT_BYTES),
        !r.1 ==> r.0@ == msg@,
        r.1 ==> r.0.spec_bytes() == msg.spec_bytes().subrange(
            0,
            clip_point(msg.spec_bytes(), REPORT_BYTES as int),
        ),
{
    if msg.len() > REPORT_BYTES {
        let mut at: usize = REPORT_BYTES;
        while at > 0 && !msg.is_char_boundary(at)
            invariant
                at <= REPORT_BYTES,
                clip_point(msg.spec_bytes(), REPORT_BYTES as int) == clip_point(
                    msg.spec_bytes(),
                    at as int,
                ),
            decreases at,
        {
            at -= 1;
        }
        proof {
            vstd::utf8::encode_utf8_valid_utf8(msg@);
        }
        (msg.split_at(at).0, true)
    } else {
        (msg, false)
    }
}

} // verus!
