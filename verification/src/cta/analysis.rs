//! Checks of what the rail tracker reports against what is known of the
//! lines.

use crate::cta::traintracker::{LRouteCode, TTPosition, TTRoute};
use vstd::prelude::*;

verus! {

/// What is odd about a train.
#[derive(Clone, Copy, Debug, PartialEq, Eq, Structural)]
pub enum AnomalyType {
    /// Its run number is none of its line's.
    RunNumber,
    /// Its next station is none that it can reach.
    NextStation,
}

/// A train that a check found odd.
#[derive(Debug)]
pub struct AnomalousTrain {
    anomaly_type: AnomalyType,
    position: TTPosition,
}

impl AnomalousTrain {
    /// What is odd about the train.
    pub closed spec fn spec_anomaly_type(&self) -> AnomalyType {
        self.anomaly_type
    }

    /// Where the train was reported.
    pub closed spec fn spec_position(&self) -> TTPosition {
        self.position
    }

    /// What is odd about the train.
    pub fn anomaly_type(&self) -> (r: AnomalyType)
        ensures
            r == self.spec_anomaly_type(),
    {
        self.anomaly_type
    }

    /// Where the train was reported.
    pub fn position(&self) -> (r: &TTPosition)
        ensures
            *r == self.spec_position(),
    {
        &self.position
    }
}

/// Whether `run` is a run number of the line `route`.
pub open spec fn run_number_fits(route: LRouteCode, run: i32) -> bool {
    match route {
        LRouteCode::Blue => 100 <= run <= 299,
        LRouteCode::Brn => 400 <= run <= 499,
        LRouteCode::G => 0 <= run <= 99 || 600 <= run <= 699,
        LRouteCode::Org => 700 <= run <= 799,
        LRouteCode::P => 500 <= run <= 589,
        LRouteCode::Pink => 300 <= run <= 399,
        LRouteCode::Red => 800 <= run <= 999,
        LRouteCode::Y => 590 <= run <= 599,
    }
}

/// Whether `run` is a run number of the line `route`.
pub fn fits_route(route: LRouteCode, run: i32) -> (r: bool)
    ensures
        r == run_number_fits(route, run),
{
    match route {
        LRouteCode::Blue => 100 <= run && run <= 299,
        LRouteCode::Brn => 400 <= run && run <= 499,
        LRouteCode::G => (0 <= run && run <= 99) || (600 <= run && run <= 699),
        LRouteCode::Org => 700 <= run && run <= 799,
        LRouteCode::P => 500 <= run && run <= 589,
        LRouteCode::Pink => 300 <= run && run <= 399,
        LRouteCode::Red => 800 <= run && run <= 999,
        LRouteCode::Y => 590 <= run && run <= 599,
    }
}

/// The trains of a line whose run number is none of the line's, in order.
pub open spec fn misnumbered(route: TTRoute) -> Seq<TTPosition> {
    route.trains@.filter(|t: TTPosition| !run_number_fits(route.name, t.run_number))
}

/// The trains that a list of findings names, in order.
pub open spec fn positions_of(found: Seq<AnomalousTrain>) -> Seq<TTPosition> {
    Seq::new(found.len(), |i: int| found[i].spec_position())
}

/// Whether every finding of a list is about a run number.
pub open spec fn all_run_numbers(found: Seq<AnomalousTrain>) -> bool {
    forall|i: int|
        0 <= i < found.len() ==> (#[trigger] found[i]).spec_anomaly_type()
            == AnomalyType::RunNumber
}

/// The misnumbered trains of some lines, line after line.
pub open spec fn misnumbered_all(routes: Seq<TTRoute>) -> Seq<TTPosition>
    decreases routes.len(),
{
    if routes.len() == 0 {
        Seq::empty()
    } else {
        misnumbered_all(routes.drop_last()) + misnumbered(routes.last())
    }
}

/// Finds the trains of a line whose run number is none of the line's.
pub fn check_run_numbers(route: &TTRoute) -> (r: Vec<AnomalousTrain>)
    ensures
        positions_of(r@) == misnumbered(*route),
        all_run_numbers(r@),
{
    let ghost odd = |t: TTPosition| !run_number_fits(route.name, t.run_number);
    let mut out: Vec<AnomalousTrain> = Vec::new();
    let mut i: usize = 0;
    proof {
        reveal(Seq::filter);
        assert(route.trains@.take(0) =~= Seq::empty());
        assert(positions_of(out@) =~= Seq::empty());
    }
    while i < route.trains.len()
        invariant
            i <= route.trains.len(),
            odd == |t: TTPosition| !run_number_fits(route.name, t.run_number),
            positions_of(out@) == route.trains@.take(i as int).filter(odd),
            all_run_numbers(out@),
        decreases route.trains.len() - i,
    {
        let ghost before = out@;
        proof {
            reveal(Seq::filter);
            assert(route.trains@.take(i + 1).drop_last() =~= route.trains@.take(i as int));
            assert(route.trains@.take(i + 1).last() == route.trains@[i as int]);
        }
        if !fits_route(route.name, route.trains[i].run_number) {
            out.push(
                AnomalousTrain {
                    anomaly_type: AnomalyType::RunNumber,
                    position: route.trains[i].duplicate(),
                },
            );
            assert(positions_of(out@) =~= positions_of(before).push(route.trains@[i as int]));
            assert forall|j: int| 0 <= j < out@.len() implies (
            #[trigger] out@[j]).spec_anomaly_type() == AnomalyType::RunNumber by {
                if j < before.len() {
                    assert(out@[j] == before[j]);
                }
            }
        }
        i += 1;
    }
    assert(route.trains@.take(route.trains.len() as int) =~= route.trains@);
    out
}

/// Checks every line, and gives the findings line after line.
pub fn check_route(routes: Vec<TTRoute>) -> (r: Vec<AnomalousTrain>)
    ensures
        positions_of(r@) == misnumbered_all(routes@),
        all_run_numbers(r@),
{
    let mut out: Vec<AnomalousTrain> = Vec::new();
    let mut i: usize = 0;
    assert(routes@.take(0) =~= Seq::empty());
    assert(positions_of(out@) =~= Seq::empty());
    while i < routes.len()
        invariant
            i <= routes.len(),
            positions_of(out@) == misnumbered_all(routes@.take(i as int)),
            all_run_numbers(out@),
        decreases routes.len() - i,
    {
        let ghost before = out@;
        assert(routes@.take(i + 1).drop_last() =~= routes@.take(i as int));
        assert(routes@.take(i + 1).last() == routes@[i as int]);
        let mut found = check_run_numbers(&routes[i]);
        let ghost added = found@;
        out.append(&mut found);
        assert(out@ =~= before + added);
        assert(positions_of(out@) =~= positions_of(before) + positions_of(added));
        assert forall|j: int| 0 <= j < out@.len() implies (#[trigger] out@[j]).spec_anomaly_type()
            == AnomalyType::RunNumber by {
            if j < before.len() {
                assert(out@[j] == before[j]);
            } else {
                assert(out@[j] == added[j - before.len()]);
            }
        }
        i += 1;
    }
    assert(routes@.take(routes.len() as int) =~= routes@);
    out
}

} // verus!
