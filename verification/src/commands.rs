//! What the bot's commands decide. Talking to the chat platform is left to
//! the program around the library.

pub mod alerts;
pub mod arrivals;
pub mod autocomplete;
pub mod broadcast;
pub mod bus;

use crate::text::{chars_of, occurs_at, starts_with};
use vstd::prelude::*;
use vstd::string::*;

verus! {

/// A command of the bot.
#[derive(Debug)]
pub struct BotCommand {}

/// The commands that the bot knows.
#[derive(Clone, Copy, Debug, PartialEq, Eq, Structural)]
pub enum CommandKind {
    Ping,
    RouteName,
    GetTrain,
    Bus,
    Arrivals,
    Broadcast,
    /// A name that is no command of the bot.
    Unknown,
}

/// The command that a name stands for.
pub open spec fn command_kind_of(name: Seq<char>) -> CommandKind {
    if name == "ping"@ {
        CommandKind::Ping
    } else if name == "route_name"@ {
        CommandKind::RouteName
    } else if name == "get_train"@ {
        CommandKind::GetTrain
    } else if name == "bus"@ {
        CommandKind::Bus
    } else if name == "arrivals"@ {
        CommandKind::Arrivals
    } else if name == "broadcast"@ {
        CommandKind::Broadcast
    } else {
        CommandKind::Unknown
    }
}

/// Tells which command a name stands for.
pub fn command_kind(name: &str) -> (r: CommandKind)
    ensures
        r == command_kind_of(name@),
{
    if *name == *"ping" {
        CommandKind::Ping
    } else if *name == *"route_name" {
        CommandKind::RouteName
    } else if *name == *"get_train" {
        CommandKind::GetTrain
    } else if *name == *"bus" {
        CommandKind::Bus
    } else if *name == *"arrivals" {
        CommandKind::Arrivals
    } else if *name == *"broadcast" {
        CommandKind::Broadcast
    } else {
        CommandKind::Unknown
    }
}

/// What a button or a menu of a message asks for.
#[derive(Clone, Copy, Debug, PartialEq, Eq, Structural)]
pub enum ComponentKind {
    BusArrivalsSelect,
    BusArrivalsRefresh,
    ArrivalsSelect,
    ArrivalsRefresh,
    /// An identifier that none of the bot's messages carries.
    Unknown,
}

/// What the component with the identifier `custom_id` asks for: the first
/// of the four prefixes that the identifier begins with decides.
pub open spec fn component_kind_of(custom_id: Seq<char>) -> ComponentKind {
    if occurs_at(custom_id, "bus_arrivals:select"@, 0) {
        ComponentKind::BusArrivalsSelect
    } else if occurs_at(custom_id, "bus_arrivals:refresh"@, 0) {
        ComponentKind::BusArrivalsRefresh
    } else if occurs_at(custom_id, "arrivals:select"@, 0) {
        ComponentKind::ArrivalsSelect
    } else if occurs_at(custom_id, "arrivals:refresh"@, 0) {
        ComponentKind::ArrivalsRefresh
    } else {
        ComponentKind::Unknown
    }
}

/// Tells what the component with the identifier `custom_id` asks for.
pub fn component_kind(custom_id: &str) -> (r: ComponentKind)
    ensures
        r == component_kind_of(custom_id@),
{
    let id = chars_of(custom_id);
    if starts_with(&id, &chars_of("bus_arrivals:select")) {
        ComponentKind::BusArrivalsSelect
    } else if starts_with(&id, &chars_of("bus_arrivals:refresh")) {
        ComponentKind::BusArrivalsRefresh
    } else if starts_with(&id, &chars_of("arrivals:select")) {
        ComponentKind::ArrivalsSelect
    } else if starts_with(&id, &chars_of("arrivals:refresh")) {
        ComponentKind::ArrivalsRefresh
    } else {
        ComponentKind::Unknown
    }
}

/// The seconds that must pass before a board is refreshed again.
pub const REFRESH_COOLDOWN_SECS: i64 = 30;

/// Whether a board that was last written `elapsed_secs` whole seconds ago
/// may be refreshed: more than the cooldown has passed.
pub fn refresh_allowed(elapsed_secs: i64) -> (r: bool)
    ensures
        r == (elapsed_secs > REFRESH_COOLDOWN_SECS),
{
    elapsed_secs > REFRESH_COOLDOWN_SECS
}

/// What follows the first `marker` in `text`, or nothing where `text` does
/// not hold `marker`.
pub open spec fn text_after_of(text: Seq<char>, marker: Seq<char>) -> Seq<char> {
    match crate::text::first_occurrence(text, marker, 0) {
        Some(at) => text.skip(at + marker.len()),
        None => Seq::empty(),
    }
}

/// Gives what follows the first `marker` in `text`: the name that a refresh
/// button carries behind its marker.
pub fn text_after(text: &str, marker: &str) -> (r: String)
    ensures
        r@ == text_after_of(text@, marker@),
{
    let all = chars_of(text);
    let mark = chars_of(marker);
    match crate::text::find_text(&all, &mark) {
        Some(at) => {
            let rest = text.substring_char(at + mark.len(), all.len());
            assert(text@.subrange(at + mark.len(), all.len() as int) =~= text@.skip(
                at + mark.len(),
            ));
            String::from_str(rest)
        },
        None => String::new(),
    }
}

} // verus!
