//! Suggestions for stop names while a rider types.

use crate::cta::gtfs::StopEntry;
use crate::text::{parse_i32, parse_i32_spec, texts_of};
use fuzzy_matcher::FuzzyMatcher;
use vstd::prelude::*;
use vstd::string::*;

verus! {

/// The most suggestions that are offered.
pub const MAX_CHOICES: usize = 25;

/// A stop name with the score of its match against what was typed.
#[derive(Debug)]
pub struct Scored {
    pub name: String,
    pub score: i64,
}

/// What a `Scored` holds, as mathematics.
pub struct ScoredView {
    pub name: Seq<char>,
    pub score: i64,
}

impl View for Scored {
    type V = ScoredView;

    open spec fn view(&self) -> ScoredView {
        ScoredView { name: self.name@, score: self.score }
    }
}

/// The views of a list of scored names, in order.
pub open spec fn scored_views(list: Seq<Scored>) -> Seq<ScoredView> {
    Seq::new(list.len(), |i: int| list[i]@)
}

/// The score that the matcher of `fuzzy_matcher` gives to `choice` for the
/// pattern `pattern` (`SkimMatcherV2::default().fuzzy_match`); `None` where
/// it finds no match.
pub uninterp spec fn skim_score(choice: Seq<char>, pattern: Seq<char>) -> Option<i64>;

/// Calls `fuzzy_matcher::skim::SkimMatcherV2::fuzzy_match` on a matcher with
/// the default settings. The score depends on the two texts alone, and is
/// named `skim_score`.
#[verifier::external_body]
fn fuzzy_score(choice: &str, pattern: &str) -> (r: Option<i64>)
    ensures
        r == skim_score(choice@, pattern@),
{
    fuzzy_matcher::skim::SkimMatcherV2::default().fuzzy_match(choice, pattern)
}

/// The number that a stop's identifier writes, or 0 where it writes none.
pub open spec fn stop_number(id: Seq<char>) -> i32 {
    match parse_i32_spec(id) {
        Some(n) => n,
        None => 0,
    }
}

/// The entry of a stop: its name, or the empty text where it has none, and
/// the score that the matcher gave, or 0 where it found no match.
pub open spec fn entry_of(stop: StopEntry, score: Option<i64>) -> ScoredView {
    ScoredView {
        name: stop.label(),
        score: match score {
            Some(s) => s,
            None => 0,
        },
    }
}

/// The entries of the stops whose number lies in `lo..=hi`, in the order
/// of the stops, each scored against `search`.
pub open spec fn entries_of(stops: Seq<StopEntry>, search: Seq<char>, lo: i32, hi: i32) -> Seq<
    ScoredView,
>
    decreases stops.len(),
{
    if stops.len() == 0 {
        Seq::empty()
    } else {
        let stop = stops.last();
        let rest = entries_of(stops.drop_last(), search, lo, hi);
        if lo <= stop_number(stop.id@) <= hi {
            rest.push(entry_of(stop, skim_score(stop.label(), search)))
        } else {
            rest
        }
    }
}

/// `entries` without each entry that has the name of the entry kept just
/// before it.
pub open spec fn deduped(entries: Seq<ScoredView>) -> Seq<ScoredView>
    decreases entries.len(),
{
    if entries.len() == 0 {
        Seq::empty()
    } else {
        let kept = deduped(entries.drop_last());
        if kept.len() > 0 && kept.last().name == entries.last().name {
            kept
        } else {
            kept.push(entries.last())
        }
    }
}

/// Where `entry` goes in a ranking: before the first entry whose score is
/// not above its own.
pub open spec fn place_of(ranking: Seq<ScoredView>, entry: ScoredView, from: int) -> int
    decreases ranking.len() - from,
{
    if from < 0 || from >= ranking.len() {
        ranking.len() as int
    } else if ranking[from].score <= entry.score {
        from
    } else {
        place_of(ranking, entry, from + 1)
    }
}

/// The ranking of `entries`: those with a score other than 0, the highest
/// score first, and of two with the same score the later one of `entries`
/// first.
pub open spec fn ranked(entries: Seq<ScoredView>) -> Seq<ScoredView>
    decreases entries.len(),
{
    if entries.len() == 0 {
        Seq::empty()
    } else {
        let before = ranked(entries.drop_last());
        let entry = entries.last();
        if entry.score == 0 {
            before
        } else {
            before.insert(place_of(before, entry, 0), entry)
        }
    }
}

/// The names of the first entries of a ranking, at most `MAX_CHOICES`.
pub open spec fn top_names(ranking: Seq<ScoredView>) -> Seq<Seq<char>> {
    Seq::new(
        if ranking.len() < MAX_CHOICES {
            ranking.len()
        } else {
            MAX_CHOICES as nat
        },
        |i: int| ranking[i].name,
    )
}

/// A ranking has no entry with the score 0, and its scores do not rise.
pub proof fn lemma_ranked_is_sorted(entries: Seq<ScoredView>)
    ensures
        forall|i: int|
            0 <= i < ranked(entries).len() ==> (#[trigger] ranked(entries)[i]).score != 0,
        forall|i: int, j: int|
            0 <= i < j < ranked(entries).len() ==> (#[trigger] ranked(entries)[i]).score >= (
            #[trigger] ranked(entries)[j]).score,
        ranked(entries).len() <= entries.len(),
    decreases entries.len(),
{
    if entries.len() > 0 {
        lemma_ranked_is_sorted(entries.drop_last());
        let before = ranked(entries.drop_last());
        let entry = entries.last();
        if entry.score != 0 {
            lemma_place_of(before, entry, 0);
        }
    }
}

/// The entries with a score other than 0, in order.
pub open spec fn matching(entries: Seq<ScoredView>) -> Seq<ScoredView> {
    entries.filter(|e: ScoredView| e.score != 0)
}

/// A ranking holds exactly the entries with a score other than 0, each as
/// often as the entries hold it.
pub proof fn lemma_ranked_is_permutation(entries: Seq<ScoredView>)
    ensures
        ranked(entries).to_multiset() == matching(entries).to_multiset(),
    decreases entries.len(),
{
    reveal(Seq::filter);
    if entries.len() > 0 {
        lemma_ranked_is_permutation(entries.drop_last());
        let before = ranked(entries.drop_last());
        let entry = entries.last();
        if entry.score != 0 {
            lemma_place_of(before, entry, 0);
            let at = place_of(before, entry, 0);
            let after = before.insert(at, entry);
            assert(after.remove(at) =~= before);
            vstd::seq_lib::to_multiset_remove(after, at);
            vstd::seq_lib::to_multiset_build(matching(entries.drop_last()), entry);
            after.to_multiset_ensures();
            assert(after[at] == entry);
            assert(after.contains(entry));
            assert(after.to_multiset() =~= before.to_multiset().insert(entry));
            assert(matching(entries) == matching(entries.drop_last()).push(entry));
            assert(ranked(entries) == after);
            assert(ranked(entries).to_multiset() == matching(entries).to_multiset());
        } else {
            assert(matching(entries) == matching(entries.drop_last()));
            assert(ranked(entries) == before);
        }
    } else {
        assert(matching(entries) =~= Seq::empty());
        assert(ranked(entries) =~= Seq::empty());
    }
}

/// `place_of` gives an index of the ranking or its length; what stands
/// before the place scores above the entry, and what stands at it does not.
pub proof fn lemma_place_of(ranking: Seq<ScoredView>, entry: ScoredView, from: int)
    requires
        0 <= from <= ranking.len(),
    ensures
        from <= place_of(ranking, entry, from) <= ranking.len(),
        forall|i: int|
            from <= i < place_of(ranking, entry, from) ==> (#[trigger] ranking[i]).score
                > entry.score,
        place_of(ranking, entry, from) < ranking.len() ==> ranking[place_of(
            ranking,
            entry,
            from,
        )].score <= entry.score,
    decreases ranking.len() - from,
{
    if from < ranking.len() && ranking[from].score > entry.score {
        lemma_place_of(ranking, entry, from + 1);
    }
}

/// Scores the stops whose number lies in `lo..=hi` against `search`.
pub fn score_stops(stops: &[StopEntry], search: &str, lo: i32, hi: i32) -> (r: Vec<Scored>)
    ensures
        scored_views(r@) == entries_of(stops@, search@, lo, hi),
{
    let mut out: Vec<Scored> = Vec::new();
    let mut i: usize = 0;
    assert(stops@.take(0) =~= Seq::empty());
    assert(scored_views(out@) =~= Seq::empty());
    while i < stops.len()
        invariant
            i <= stops.len(),
            scored_views(out@) == entries_of(stops@.take(i as int), search@, lo, hi),
        decreases stops.len() - i,
    {
        let ghost before = out@;
        assert(stops@.take(i + 1).drop_last() =~= stops@.take(i as int));
        assert(stops@.take(i + 1).last() == stops@[i as int]);
        let number: i32 = match parse_i32(stops[i].id.as_str()) {
            Some(n) => n,
            None => 0,
        };
        if lo <= number && number <= hi {
            let name = match &stops[i].name {
                Some(name) => name.clone(),
                None => String::new(),
            };
            let score: i64 = match fuzzy_score(name.as_str(), search) {
                Some(s) => s,
                None => 0,
            };
            out.push(Scored { name, score });
            assert(scored_views(out@) =~= scored_views(before).push(
                entry_of(stops@[i as int], skim_score(stops@[i as int].label(), search@)),
            ));
        }
        i += 1;
    }
    assert(stops@.take(stops.len() as int) =~= stops@);
    out
}

/// Drops each entry that has the name of the entry kept just before it.
pub fn dedup_names(entries: Vec<Scored>) -> (r: Vec<Scored>)
    ensures
        scored_views(r@) == deduped(scored_views(entries@)),
{
    let ghost all = scored_views(entries@);
    let mut entries = entries;
    let mut out: Vec<Scored> = Vec::new();
    let n: usize = entries.len();
    let mut i: usize = 0;
    assert(all.take(0) =~= Seq::empty());
    assert(scored_views(out@) =~= Seq::empty());
    while i < n
        invariant
            i <= n,
            n == entries.len(),
            all.len() == n,
            forall|j: int| i <= j < n ==> (#[trigger] entries@[j])@ == all[j],
            scored_views(out@) == deduped(all.take(i as int)),
        decreases n - i,
    {
        let ghost before = out@;
        assert(all.take(i + 1).drop_last() =~= all.take(i as int));
        assert(all.take(i + 1).last() == all[i as int]);
        let same = out.len() > 0 && out[out.len() - 1].name == entries[i].name;
        assert(out.len() > 0 ==> scored_views(out@).last() == out@[out.len() - 1]@);
        if !same {
            let mut name = String::new();
            std::mem::swap(&mut name, &mut entries[i].name);
            let score: i64 = entries[i].score;
            out.push(Scored { name, score });
            assert(scored_views(out@) =~= scored_views(before).push(all[i as int]));
        }
        i += 1;
    }
    assert(all.take(n as int) =~= all);
    out
}

/// Ranks the entries: those with a score other than 0, the highest first,
/// and of two with the same score the later one first.
pub fn rank(entries: Vec<Scored>) -> (r: Vec<Scored>)
    ensures
        scored_views(r@) == ranked(scored_views(entries@)),
{
    let ghost all = scored_views(entries@);
    let mut entries = entries;
    let mut out: Vec<Scored> = Vec::new();
    let n: usize = entries.len();
    let mut i: usize = 0;
    assert(all.take(0) =~= Seq::empty());
    assert(scored_views(out@) =~= Seq::empty());
    while i < n
        invariant
            i <= n,
            n == entries.len(),
            all.len() == n,
            forall|j: int| i <= j < n ==> (#[trigger] entries@[j])@ == all[j],
            scored_views(out@) == ranked(all.take(i as int)),
        decreases n - i,
    {
        let ghost before = out@;
        assert(all.take(i + 1).drop_last() =~= all.take(i as int));
        assert(all.take(i + 1).last() == all[i as int]);
        let score: i64 = entries[i].score;
        if score != 0 {
            let mut at: usize = 0;
            while at < out.len() && out[at].score > score
                invariant
                    at <= out.len(),
                    out@ == before,
                    place_of(scored_views(before), all[i as int], 0) == place_of(
                        scored_views(before),
                        all[i as int],
                        at as int,
                    ),
                    score == all[i as int].score,
                decreases out.len() - at,
            {
                assert(scored_views(before)[at as int] == before[at as int]@);
                at += 1;
            }
            assert(at < out.len() ==> scored_views(before)[at as int] == before[at as int]@);
            let mut name = String::new();
            std::mem::swap(&mut name, &mut entries[i].name);
            out.insert(at, Scored { name, score });
            assert(scored_views(out@) =~= scored_views(before).insert(at as int, all[i as int]));
        }
        i += 1;
    }
    assert(all.take(n as int) =~= all);
    out
}

/// The names of the first entries of a ranking, at most `MAX_CHOICES`.
pub fn first_names(ranking: &[Scored]) -> (r: Vec<String>)
    ensures
        texts_of(r@) == top_names(scored_views(ranking@)),
{
    let limit: usize = if ranking.len() < MAX_CHOICES {
        ranking.len()
    } else {
        MAX_CHOICES
    };
    let mut out: Vec<String> = Vec::new();
    let mut i: usize = 0;
    while i < limit
        invariant
            i <= limit,
            limit <= ranking.len(),
            out.len() == i,
            forall|j: int| 0 <= j < i ==> (#[trigger] out@[j])@ == ranking@[j].name@,
        decreases limit - i,
    {
        out.push(ranking[i].name.clone());
        i += 1;
    }
    assert(texts_of(out@) =~= top_names(scored_views(ranking@)));
    out
}

/// The names that are suggested for a rail station: those of the stops
/// numbered 40000 to 49999 that match `search`, the best match first.
pub open spec fn station_suggestions(stops: Seq<StopEntry>, search: Seq<char>) -> Seq<Seq<char>> {
    top_names(ranked(entries_of(stops, search, 40000, 49999)))
}

/// The names that are suggested for a bus stop: those of the stops
/// numbered 0 to 39999 that match `search`, the best match first, where a
/// run of stops with one name counts once.
pub open spec fn bus_stop_suggestions(stops: Seq<StopEntry>, search: Seq<char>) -> Seq<Seq<char>> {
    top_names(ranked(deduped(entries_of(stops, search, 0, 39999))))
}

/// Suggests rail stations for what was typed.
pub fn search_stations(stops: &[StopEntry], search: &str) -> (r: Vec<String>)
    ensures
        texts_of(r@) == station_suggestions(stops@, search@),
{
    let ranking = rank(score_stops(stops, search, 40000, 49999));
    first_names(ranking.as_slice())
}

/// Suggests bus stops for what was typed.
pub fn search_bus_stops(stops: &[StopEntry], search: &str) -> (r: Vec<String>)
    ensures
        texts_of(r@) == bus_stop_suggestions(stops@, search@),
{
    let ranking = rank(dedup_names(score_stops(stops, search, 0, 39999)));
    first_names(ranking.as_slice())
}

} // verus!
