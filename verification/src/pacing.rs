//! How long the loop sleeps between two ticks.
//!
//! The pause follows the time that is left: it is the remaining time itself,
//! held between a shortest pause, which keeps the loop from spinning, and a
//! longest pause, which keeps the updates regular while the end is far away.

use vstd::prelude::*;

verus! {

/// The bounds, in seconds, between which every pause lies.
#[derive(Clone, Copy, Debug)]
pub struct Pacing {
    shortest: u64,
    longest: u64,
}

/// The pause, in seconds, after a tick that saw `remaining` seconds left:
/// `remaining` clamped to `shortest ..= longest`.
pub open spec fn pause_for(pacing: Pacing, remaining: int) -> int {
    if remaining < pacing.shortest_bound() {
        pacing.shortest_bound() as int
    } else if remaining > pacing.longest_bound() {
        pacing.longest_bound() as int
    } else {
        remaining
    }
}

impl Pacing {
    /// The shortest pause, in seconds.
    pub closed spec fn shortest_bound(self) -> u64 {
        self.shortest
    }

    /// The longest pause, in seconds.
    pub closed spec fn longest_bound(self) -> u64 {
        self.longest
    }

    /// A pacing is well formed when its shortest pause is at least one second
    /// and does not exceed its longest pause.
    #[verifier::type_invariant]
    pub open spec fn wf(self) -> bool {
        1 <= self.shortest_bound() <= self.longest_bound()
    }

    /// Makes a pacing from its two bounds, or `None` where they are not in
    /// order or the shortest pause is zero.
    pub fn new(shortest: u64, longest: u64) -> (pacing: Option<Pacing>)
        ensures
            pacing is Some <==> 1 <= shortest <= longest,
            pacing matches Some(p) ==> p.wf() && p.shortest_bound() == shortest
                && p.longest_bound() == longest,
    {
        if 1 <= shortest && shortest <= longest {
            Some(Pacing { shortest, longest })
        } else {
            None
        }
    }

    /// The shortest pause, in seconds.
    pub fn shortest(&self) -> (secs: u64)
        ensures
            secs == self.shortest_bound(),
            secs >= 1,
    {
        proof {
            use_type_invariant(self);
        }
        self.shortest
    }

    /// The longest pause, in seconds.
    pub fn longest(&self) -> (secs: u64)
        ensures
            secs == self.longest_bound(),
            secs >= self.shortest_bound(),
    {
        proof {
            use_type_invariant(self);
        }
        self.longest
    }

    /// The pause, in seconds, after a tick that saw `remaining` seconds left.
    pub fn pause(&self, remaining: u64) -> (secs: u64)
        ensures
            self.wf(),
            secs == pause_for(*self, remaining as int),
            self.shortest_bound() <= secs <= self.longest_bound(),
    {
        proof {
            use_type_invariant(self);
        }
        if remaining < self.shortest {
            self.shortest
        } else if remaining > self.longest {
            self.longest
        } else {
            remaining
        }
    }
}

impl Default for Pacing {
    /// Pauses of one second at least and one minute at most.
    fn default() -> (pacing: Pacing)
        ensures
            pacing.wf(),
            pacing.shortest_bound() == 1,
            pacing.longest_bound() == 60,
    {
        Pacing { shortest: 1, longest: 60 }
    }
}

/// The pause never shrinks as the remaining time grows: ticks come no less
/// often as the end comes nearer.
pub proof fn lemma_pause_monotonic(pacing: Pacing, nearer: int, farther: int)
    requires
        pacing.wf(),
        nearer <= farther,
    ensures
        pause_for(pacing, nearer) <= pause_for(pacing, farther),
{
}

/// A pause overshoots the end by less than the shortest pause: where at
/// least the shortest pause is left, the loop wakes at the end or before it.
pub proof fn lemma_pause_does_not_oversleep(pacing: Pacing, remaining: int)
    requires
        pacing.wf(),
        remaining >= 1,
    ensures
        pause_for(pacing, remaining) < remaining + pacing.shortest_bound(),
        remaining >= pacing.shortest_bound() ==> pause_for(pacing, remaining) <= remaining,
{
}

} // verus!
