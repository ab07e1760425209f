//! The static schedule: the stops it lists, and where it is loaded from.

use crate::text::{chars_of, contains_text, decimal, decimal_string, find_text, texts_of};
use vstd::prelude::*;
use vstd::string::*;

verus! {

/// One stop of the schedule.
#[derive(Debug)]
pub struct StopEntry {
    /// The stop's identifier.
    pub id: String,
    /// The stop's name, where it has one.
    pub name: Option<String>,
}

impl StopEntry {
    /// The stop's name, or the empty text where it has none.
    pub open spec fn label(self) -> Seq<char> {
        match self.name {
            Some(name) => name@,
            None => Seq::empty(),
        }
    }
}

/// Where the schedule is loaded from.
#[derive(Clone, Copy, Debug, PartialEq, Eq, Structural)]
pub enum GtfsSource {
    /// From the cached file.
    Cache,
    /// From the web, and the cache is filled on the way.
    CacheFromWeb,
    /// From the web, and nothing is kept.
    Web,
}

/// Chooses where to load the schedule from: the cache where it holds the
/// file, the web through the cache where there is a cache directory that
/// can be written, else the web alone.
pub fn choose_source(has_cache_dir: bool, has_cached_data: bool) -> (r: GtfsSource)
    ensures
        r == if has_cache_dir && has_cached_data {
            GtfsSource::Cache
        } else if has_cache_dir {
            GtfsSource::CacheFromWeb
        } else {
            GtfsSource::Web
        },
{
    if has_cache_dir && has_cached_data {
        GtfsSource::Cache
    } else if has_cache_dir {
        GtfsSource::CacheFromWeb
    } else {
        GtfsSource::Web
    }
}

/// Where the schedule is kept in the cache directory `dir`.
pub fn cache_path(dir: &str) -> (r: String)
    ensures
        r@ == dir@ + "/google_transit.zip"@,
{
    let mut r = String::from_str(dir);
    r.append("/google_transit.zip");
    r
}

/// The identifiers of the stops whose name holds `search`, in the order of
/// the stops.
pub open spec fn found_stops(stops: Seq<StopEntry>, search: Seq<char>) -> Seq<Seq<char>>
    decreases stops.len(),
{
    if stops.len() == 0 {
        Seq::empty()
    } else if contains_text(stops.last().label(), search) {
        found_stops(stops.drop_last(), search).push(stops.last().id@)
    } else {
        found_stops(stops.drop_last(), search)
    }
}

/// Finds the stops whose name holds `search`, letter for letter, and gives
/// their identifiers. A stop without a name counts as one with an empty
/// name. The answer is always `Some`.
pub fn search_stops(stops: &[StopEntry], search: &str) -> (r: Option<Vec<String>>)
    ensures
        r matches Some(found) && texts_of(found@) == found_stops(stops@, search@),
{
    let needle = chars_of(search);
    let mut found: Vec<String> = Vec::new();
    let mut i: usize = 0;
    assert(stops@.take(0) =~= Seq::empty());
    assert(texts_of(found@) =~= Seq::empty());
    while i < stops.len()
        invariant
            i <= stops.len(),
            needle@ == search@,
            texts_of(found@) == found_stops(stops@.take(i as int), search@),
        decreases stops.len() - i,
    {
        let ghost before = found@;
        assert(stops@.take(i + 1).drop_last() =~= stops@.take(i as int));
        assert(stops@.take(i + 1).last() == stops@[i as int]);
        let hay = match &stops[i].name {
            Some(name) => chars_of(name.as_str()),
            None => Vec::new(),
        };
        if find_text(&hay, &needle).is_some() {
            found.push(stops[i].id.clone());
            assert(texts_of(found@) =~= texts_of(before).push(stops@[i as int].id@));
        }
        i += 1;
    }
    assert(stops@.take(stops.len() as int) =~= stops@);
    Some(found)
}

/// The index of the first of `stops[from..]` whose identifier is `id`.
pub open spec fn stop_index(stops: Seq<StopEntry>, id: Seq<char>, from: int) -> Option<int>
    decreases stops.len() - from,
{
    if from < 0 || from >= stops.len() {
        None
    } else if stops[from].id@ == id {
        Some(from)
    } else {
        stop_index(stops, id, from + 1)
    }
}

/// The name of the stop with the number `id`; `None` where no stop has the
/// number, or the stop has no name.
pub fn get_stop_name(stops: &[StopEntry], id: i32) -> (r: Option<String>)
    ensures
        match stop_index(stops@, decimal(id as int), 0) {
            Some(i) => match stops@[i].name {
                Some(name) => r matches Some(found) && found@ == name@,
                None => r is None,
            },
            None => r is None,
        },
{
    let wanted = decimal_string(id as i64);
    let mut i: usize = 0;
    while i < stops.len()
        invariant
            i <= stops.len(),
            wanted@ == decimal(id as int),
            stop_index(stops@, wanted@, 0) == stop_index(stops@, wanted@, i as int),
        decreases stops.len() - i,
    {
        if stops[i].id == wanted {
            return match &stops[i].name {
                Some(name) => Some(name.clone()),
                None => None,
            };
        }
        i += 1;
    }
    None
}

} // verus!
