//! The arrival board: what it shows for each arrival, in whole numbers and
//! colours. Drawing it is left to whoever renders it.

use crate::cta::traintracker::LRouteName;
use crate::text::{decimal, decimal_string};
use vstd::prelude::*;
use vstd::string::*;

verus! {

/// One row of the board.
#[derive(Debug)]
pub struct Arrival {
    pub destination_name: String,
    pub route: LRouteName,
    pub train_number: i32,
    pub countdown: String,
    pub is_scheduled: bool,
}

/// Why the board could not be rendered.
#[derive(Clone, Copy, Debug, PartialEq, Eq, Structural)]
pub enum ArrivalDisplayError {
    /// The picture could not be encoded.
    EncodingError,
    /// A font could not be read.
    FileError,
}

impl ArrivalDisplayError {
    /// The sentence that describes the error to an operator.
    pub fn message(&self) -> (r: String)
        ensures
            r@ == match self {
                ArrivalDisplayError::EncodingError => "Error encoding SVG into PNG image."@,
                ArrivalDisplayError::FileError => "Error loading files"@,
            },
    {
        match self {
            ArrivalDisplayError::EncodingError => String::from_str(
                "Error encoding SVG into PNG image.",
            ),
            ArrivalDisplayError::FileError => String::from_str("Error loading files"),
        }
    }
}

/// The height of the board above its first row.
pub const HEADER_HEIGHT: usize = 65;

/// The distance from the top of one row to the top of the next.
pub const ROW_PITCH: usize = 105;

/// The rows that fit on a board.
pub const BOARD_ROWS: usize = 8;

/// The colour of a line.
pub open spec fn line_color_of(route: LRouteName) -> Seq<char> {
    match route {
        LRouteName::Red => "#c60c30"@,
        LRouteName::P => "#522398"@,
        LRouteName::Y => "#f9e300"@,
        LRouteName::Blue => "#00a1de"@,
        LRouteName::Pink => "#e27ea6"@,
        LRouteName::G => "#009b3a"@,
        LRouteName::Org => "#f9461c"@,
        LRouteName::Brn => "#62361b"@,
    }
}

/// Whether a row is drawn in the line's colour on white: the two branch
/// termini are.
pub open spec fn is_inverse(destination: Seq<char>) -> bool {
    destination == "Cottage Grove"@ || destination == "UIC-Halsted"@
}

/// The colour behind a row.
pub open spec fn background_of(arrival: Arrival) -> Seq<char> {
    if is_inverse(arrival.destination_name@) {
        "#ffffff"@
    } else {
        line_color_of(arrival.route)
    }
}

/// The colour of the writing of a row: the line's colour on an inverse row,
/// black on the yellow line, white otherwise.
pub open spec fn foreground_of(arrival: Arrival) -> Seq<char> {
    if is_inverse(arrival.destination_name@) {
        line_color_of(arrival.route)
    } else if arrival.route == LRouteName::Y {
        "#000000"@
    } else {
        "#ffffff"@
    }
}

/// `s`, with `fill` put before it until it is `width` characters long.
pub open spec fn padded(s: Seq<char>, width: nat, fill: char) -> Seq<char> {
    if s.len() >= width {
        s
    } else {
        Seq::new((width - s.len()) as nat, |i: int| fill) + s
    }
}

/// The small line above the destination: the line's name, the run number
/// filled with zeros to three characters, and `to`.
pub open spec fn caption_of(arrival: Arrival) -> Seq<char> {
    arrival.route.label() + " #"@ + padded(decimal(arrival.train_number as int), 3, '0') + " to"@
}

/// The colour of a line.
pub fn line_color(route: LRouteName) -> (r: &'static str)
    ensures
        r@ == line_color_of(route),
{
    match route {
        LRouteName::Red => "#c60c30",
        LRouteName::P => "#522398",
        LRouteName::Y => "#f9e300",
        LRouteName::Blue => "#00a1de",
        LRouteName::Pink => "#e27ea6",
        LRouteName::G => "#009b3a",
        LRouteName::Org => "#f9461c",
        LRouteName::Brn => "#62361b",
    }
}

/// Whether a row is drawn in the line's colour on white.
pub fn inverse(destination: &str) -> (r: bool)
    ensures
        r == is_inverse(destination@),
{
    *destination == *"Cottage Grove" || *destination == *"UIC-Halsted"
}

/// The colour behind a row.
pub fn background(arrival: &Arrival) -> (r: &'static str)
    ensures
        r@ == background_of(*arrival),
{
    if inverse(arrival.destination_name.as_str()) {
        "#ffffff"
    } else {
        line_color(arrival.route)
    }
}

/// The colour of the writing of a row.
pub fn foreground(arrival: &Arrival) -> (r: &'static str)
    ensures
        r@ == foreground_of(*arrival),
{
    if inverse(arrival.destination_name.as_str()) {
        line_color(arrival.route)
    } else {
        match arrival.route {
            LRouteName::Y => "#000000",
            _ => "#ffffff",
        }
    }
}

/// The height of a board of `rows` rows.
pub fn canvas_height(rows: usize) -> (r: usize)
    requires
        HEADER_HEIGHT + rows * ROW_PITCH <= usize::MAX,
    ensures
        r == HEADER_HEIGHT + rows * ROW_PITCH,
{
    HEADER_HEIGHT + rows * ROW_PITCH
}

/// How many of `arrivals` arrivals a board shows: the first eight.
pub fn board_rows(arrivals: usize) -> (r: usize)
    ensures
        r == if arrivals < BOARD_ROWS {
            arrivals
        } else {
            BOARD_ROWS
        },
{
    if arrivals < BOARD_ROWS {
        arrivals
    } else {
        BOARD_ROWS
    }
}

/// The mark of a row: a clock for a scheduled arrival, waves for a tracked
/// one.
pub fn symbol(is_scheduled: bool) -> (r: &'static str)
    ensures
        r@ == if is_scheduled {
            "#clockSymbol"@
        } else {
            "#trackingSymbol"@
        },
{
    if is_scheduled {
        "#clockSymbol"
    } else {
        "#trackingSymbol"
    }
}

/// Writes the small line above the destination.
pub fn caption(arrival: &Arrival) -> (r: String)
    ensures
        r@ == caption_of(*arrival),
{
    proof {
        reveal_strlit("0");
        reveal_strlit("00");
    }
    let number = decimal_string(arrival.train_number as i64);
    let digits = number.as_str().unicode_len();
    let mut r = String::from_str(arrival.route.to_label());
    r.append(" #");
    let ghost head = r@;
    if digits == 1 {
        r.append("00");
        assert(r@ =~= head + Seq::new(2, |i: int| '0'));
    } else if digits == 2 {
        r.append("0");
        assert(r@ =~= head + Seq::new(1, |i: int| '0'));
    } else if digits == 0 {
        r.append("0");
        r.append("00");
        assert(r@ =~= head + Seq::new(3, |i: int| '0'));
    }
    r.append(number.as_str());
    r.append(" to");
    assert(r@ =~= caption_of(*arrival));
    r
}

} // verus!
