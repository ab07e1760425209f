//! The broadcast of an operator's message to every subscriber.

use crate::text::{decimal, push_decimal};
use vstd::prelude::*;
use vstd::string::*;

verus! {

/// How a broadcast went so far.
#[derive(Clone, Copy, Debug, PartialEq, Eq, Structural)]
pub struct Tally {
    /// The sends that succeeded.
    pub success: i32,
    /// The sends that failed.
    pub fail: i32,
}

/// The tally after the sends with the outcomes `outcomes`, each count held
/// to the range of `i32`.
pub open spec fn tally_of(outcomes: Seq<bool>) -> Tally
    decreases outcomes.len(),
{
    if outcomes.len() == 0 {
        Tally { success: 0, fail: 0 }
    } else {
        tally_of(outcomes.drop_last()).counted(outcomes.last())
    }
}

impl Tally {
    /// The tally with one more send counted.
    pub open spec fn counted(self, ok: bool) -> Tally {
        if ok {
            Tally {
                success: if self.success < i32::MAX {
                    (self.success + 1) as i32
                } else {
                    self.success
                },
                fail: self.fail,
            }
        } else {
            Tally {
                success: self.success,
                fail: if self.fail < i32::MAX {
                    (self.fail + 1) as i32
                } else {
                    self.fail
                },
            }
        }
    }

    /// What the operator is told when the broadcast is over.
    pub open spec fn summary_of(self) -> Seq<char> {
        "Successfully broadcasted message to "@ + decimal(self.success as int) + " guilds ("@
            + decimal(self.fail as int) + " failures)"@
    }

    /// A tally of no sends.
    pub fn new() -> (r: Tally)
        ensures
            r == tally_of(Seq::empty()),
    {
        Tally { success: 0, fail: 0 }
    }

    /// Counts one send.
    pub fn record(&mut self, ok: bool)
        ensures
            *final(self) == old(self).counted(ok),
    {
        if ok {
            if self.success < i32::MAX {
                self.success = self.success + 1;
            }
        } else {
            if self.fail < i32::MAX {
                self.fail = self.fail + 1;
            }
        }
    }

    /// Writes what the operator is told when the broadcast is over.
    pub fn summary(&self) -> (r: String)
        ensures
            r@ == self.summary_of(),
    {
        let mut r = String::from_str("Successfully broadcasted message to ");
        push_decimal(&mut r, self.success as i64);
        r.append(" guilds (");
        push_decimal(&mut r, self.fail as i64);
        r.append(" failures)");
        assert(r@ =~= self.summary_of());
        r
    }
}

/// The channel that a broadcast goes to for a subscriber: the one it named,
/// or 0 where it named none.
pub fn broadcast_channel(alert_channel: Option<i64>) -> (r: i64)
    ensures
        r == match alert_channel {
            Some(c) => c,
            None => 0,
        },
{
    match alert_channel {
        Some(c) => c,
        None => 0,
    }
}

/// Tallies the outcomes of the sends of a broadcast.
pub fn broadcast(outcomes: &[bool]) -> (r: Tally)
    ensures
        r == tally_of(outcomes@),
{
    let mut tally = Tally::new();
    let mut i: usize = 0;
    assert(outcomes@.take(0) =~= Seq::empty());
    while i < outcomes.len()
        invariant
            i <= outcomes.len(),
            tally == tally_of(outcomes@.take(i as int)),
        decreases outcomes.len() - i,
    {
        assert(outcomes@.take(i + 1).drop_last() =~= outcomes@.take(i as int));
        assert(outcomes@.take(i + 1).last() == outcomes@[i as int]);
        tally.record(outcomes[i]);
        i += 1;
    }
    assert(outcomes@.take(outcomes.len() as int) =~= outcomes@);
    tally
}

} // verus!
