//! What holds of every run of the loop.
//!
//! A run is a loop and the readings of its clock, one for each tick. Some
//! statements hold on every clock, some on every clock that advances, and
//! some on the exact clock, which advances between two ticks by just the
//! pause that was asked for.

use crate::message::remaining_secs;
use crate::pacing::{pause_for, Pacing};
use crate::timeloop::{observed, LoopState, Next, Plan, TimeLoopView};
use crate::topic::Topic;
use vstd::prelude::*;

verus! {

/// No transition leaves `Done`: once a loop is done after the first `k`
/// readings, the readings that follow change nothing and hand out nothing.
pub proof fn lemma_done_is_terminal(origin: TimeLoopView, readings: Seq<int>, k: int)
    requires
        0 <= k <= readings.len(),
        origin.run(readings.take(k)).state == LoopState::Done,
    ensures
        origin.run(readings) == origin.run(readings.take(k)),
        origin.emitted(readings) == origin.emitted(readings.take(k)),
    decreases readings.len(),
{
    if k == readings.len() {
        assert(readings.take(k) =~= readings);
    } else {
        assert(readings.drop_last().take(k) =~= readings.take(k));
        lemma_done_is_terminal(origin, readings.drop_last(), k);
    }
}

/// A run changes nothing of what the loop was set up with.
pub proof fn lemma_run_keeps_plan(origin: TimeLoopView, readings: Seq<int>)
    ensures
        origin.run(readings).plan == origin.plan,
    decreases readings.len(),
{
    if readings.len() > 0 {
        lemma_run_keeps_plan(origin, readings.drop_last());
    }
}

/// What a loop has published stays in order over every run: at any moment it
/// holds at most one `Arrived`, at its last place, and then the loop is done.
pub proof fn lemma_run_keeps_order(origin: TimeLoopView, readings: Seq<int>)
    requires
        origin.ordered(),
    ensures
        origin.run(readings).ordered(),
    decreases readings.len(),
{
    if readings.len() > 0 {
        lemma_run_keeps_order(origin, readings.drop_last());
    }
}

/// A loop whose clock reaches the end is done, wherever it began.
pub proof fn lemma_run_reaches_done(origin: TimeLoopView, readings: Seq<int>)
    requires
        exists|i: int| 0 <= i < readings.len() && readings[i] >= origin.plan.end,
    ensures
        origin.run(readings).state == LoopState::Done,
    decreases readings.len(),
{
    let i = choose|i: int| 0 <= i < readings.len() && readings[i] >= origin.plan.end;
    lemma_run_keeps_plan(origin, readings.drop_last());
    if i < readings.len() - 1 {
        assert(readings.drop_last()[i] == readings[i]);
        lemma_run_reaches_done(origin, readings.drop_last());
    }
}

/// A fresh loop that runs until its clock has reached the end publishes
/// exactly one `Arrived`, and it is the last message that it publishes.
pub proof fn lemma_one_arrival_and_it_is_last(fresh: TimeLoopView, readings: Seq<int>)
    requires
        fresh.is_fresh(),
        exists|i: int| 0 <= i < readings.len() && readings[i] >= fresh.plan.end,
    ensures
        ({
            let published = fresh.run(readings).published;
            &&& fresh.run(readings).state == LoopState::Done
            &&& published.len() >= 1
            &&& published.last() == Topic::Arrived
            &&& forall|i: int|
                0 <= i < published.len() ==> (published[i] == Topic::Arrived <==> i
                    == published.len() - 1)
        }),
{
    lemma_run_keeps_order(fresh, readings);
    lemma_run_reaches_done(fresh, readings);
}

/// A fresh loop whose clock has not reached the end has published `Counting`
/// at every reading, is still running, and has handed out one tick for each.
pub proof fn lemma_counting_until_the_end(fresh: TimeLoopView, readings: Seq<int>)
    requires
        fresh.is_fresh(),
        forall|i: int| 0 <= i < readings.len() ==> readings[i] < fresh.plan.end,
    ensures
        fresh.run(readings).state == LoopState::Running,
        fresh.run(readings).published.len() == readings.len(),
        forall|i: int|
            0 <= i < readings.len() ==> fresh.run(readings).published[i] == Topic::Counting,
        fresh.emitted(readings).len() == readings.len(),
    decreases readings.len(),
{
    if readings.len() > 0 {
        lemma_run_keeps_plan(fresh, readings.drop_last());
        lemma_counting_until_the_end(fresh, readings.drop_last());
    }
}

/// The remaining time falls from one tick to the next: after a tick that saw
/// the end ahead, a clock that has advanced by the pause or more shows less
/// remaining time, by the pause at least.
pub proof fn lemma_remaining_decreases(plan: Plan, now: int, later: int)
    requires
        plan.pacing.wf(),
        now < plan.end,
        observed(plan, now).next matches Next::Sleep(pause) && later >= now + pause,
    ensures
        plan.end - later < plan.end - now,
        observed(plan, later).remaining < observed(plan, now).remaining,
        later < plan.end ==> observed(plan, later).remaining + pause_for(
            plan.pacing,
            plan.end - now,
        ) <= observed(plan, now).remaining,
{
}

/// On any clock that advances from one reading to the next, a loop is done
/// once it has ticked more often than seconds were left at its first tick.
pub proof fn lemma_advancing_clock_terminates(origin: TimeLoopView, readings: Seq<int>)
    requires
        readings.len() > 0,
        forall|i: int| 0 <= i < readings.len() - 1 ==> readings[i] < #[trigger] readings[i + 1],
        readings.len() > origin.plan.end - readings[0],
    ensures
        origin.run(readings).state == LoopState::Done,
{
    lemma_advancing_readings(readings, readings.len() - 1);
    assert(readings.last() >= origin.plan.end);
    lemma_run_reaches_done(origin, readings);
}

proof fn lemma_advancing_readings(readings: Seq<int>, k: int)
    requires
        0 <= k < readings.len(),
        forall|i: int| 0 <= i < readings.len() - 1 ==> readings[i] < #[trigger] readings[i + 1],
    ensures
        readings[k] >= readings[0] + k,
    decreases k,
{
    if k > 0 {
        lemma_advancing_readings(readings, k - 1);
        assert(readings[k - 1] < readings[k - 1 + 1]);
    }
}

/// The readings of the exact clock, from the first tick at `now` to the tick
/// that sees the arrival: each tick before the arrival is followed by one
/// that reads the time later by just the pause.
pub open spec fn exact_readings(pacing: Pacing, now: int, end: int) -> Seq<int>
    decreases remaining_secs(now, end),
{
    if now < end && pacing.wf() {
        seq![now] + exact_readings(pacing, now + pause_for(pacing, end - now), end)
    } else {
        seq![now]
    }
}

/// On the exact clock a loop ends after finitely many ticks, no more than one
/// for each second that was left and one for the arrival. Every tick but the
/// last reads a time before the end, each later than the one before it by its
/// pause. The last reads the end or less than one shortest pause after it: the
/// time that the loop takes is the time that was left, to within that pause.
pub proof fn lemma_exact_clock_arrives_near_end(pacing: Pacing, now: int, end: int)
    requires
        pacing.wf(),
    ensures
        ({
            let readings = exact_readings(pacing, now, end);
            &&& 1 <= readings.len() <= remaining_secs(now, end) + 1
            &&& readings[0] == now
            &&& forall|i: int| 0 <= i < readings.len() - 1 ==> #[trigger] readings[i] < end
            &&& forall|i: int|
                0 <= i < readings.len() - 1 ==> #[trigger] readings[i + 1] == readings[i]
                    + pause_for(pacing, end - readings[i])
            &&& readings.last() >= end
            &&& now >= end ==> readings.last() == now
            &&& now < end ==> readings.last() - now < (end - now) + pacing.shortest_bound()
            &&& now < end && pacing.shortest_bound() == 1 ==> readings.last() == end
        }),
    decreases remaining_secs(now, end),
{
    if now < end {
        let next = now + pause_for(pacing, end - now);
        let rest = exact_readings(pacing, next, end);
        let readings = exact_readings(pacing, now, end);
        lemma_exact_clock_arrives_near_end(pacing, next, end);
        assert(readings =~= seq![now] + rest);
        assert forall|i: int| 0 <= i < readings.len() - 1 implies #[trigger] readings[i] < end by {
            if i > 0 {
                assert(readings[i] == rest[i - 1]);
            }
        }
        assert forall|i: int| 0 <= i < readings.len() - 1 implies #[trigger] readings[i + 1]
            == readings[i] + pause_for(pacing, end - readings[i]) by {
            if i > 0 {
                assert(readings[i] == rest[i - 1]);
                assert(readings[i + 1] == rest[i - 1 + 1]);
            }
        }
    }
}

/// On the exact clock a fresh loop publishes `Counting` at every tick but the
/// last and `Arrived` at the last, and is then done: exactly one arrival, and
/// nothing after it.
pub proof fn lemma_exact_clock_one_arrival(fresh: TimeLoopView, now: int)
    requires
        fresh.is_fresh(),
        fresh.plan.pacing.wf(),
    ensures
        ({
            let readings = exact_readings(fresh.plan.pacing, now, fresh.plan.end);
            let published = fresh.run(readings).published;
            &&& fresh.run(readings).state == LoopState::Done
            &&& published.len() == readings.len()
            &&& fresh.emitted(readings).len() == readings.len()
            &&& forall|i: int|
                0 <= i < published.len() ==> published[i] == (if i == published.len() - 1 {
                    Topic::Arrived
                } else {
                    Topic::Counting
                })
        }),
{
    let readings = exact_readings(fresh.plan.pacing, now, fresh.plan.end);
    lemma_exact_clock_arrives_near_end(fresh.plan.pacing, now, fresh.plan.end);
    assert forall|i: int| 0 <= i < readings.drop_last().len() implies readings.drop_last()[i]
        < fresh.plan.end by {
        assert(readings.drop_last()[i] == readings[i]);
    }
    lemma_counting_until_the_end(fresh, readings.drop_last());
    lemma_run_keeps_plan(fresh, readings.drop_last());
}

/// Verbosity changes the text of the messages and nothing else: two loops
/// that differ in it alone go, over the same readings, through the same
/// states, publish the same topics, and hand out as many ticks, each with the
/// same reading, topic, remaining time and pause.
pub proof fn lemma_verbosity_changes_text_only(
    one: TimeLoopView,
    other: TimeLoopView,
    readings: Seq<int>,
)
    requires
        one.plan.start == other.plan.start,
        one.plan.end == other.plan.end,
        one.plan.end_text == other.plan.end_text,
        one.plan.pacing == other.plan.pacing,
        one.state == other.state,
        one.published == other.published,
    ensures
        one.run(readings).state == other.run(readings).state,
        one.run(readings).published == other.run(readings).published,
        one.emitted(readings).len() == other.emitted(readings).len(),
        forall|i: int|
            0 <= i < one.emitted(readings).len() ==> {
                &&& (#[trigger] one.emitted(readings)[i]).now == other.emitted(readings)[i].now
                &&& one.emitted(readings)[i].topic == other.emitted(readings)[i].topic
                &&& one.emitted(readings)[i].remaining == other.emitted(readings)[i].remaining
                &&& one.emitted(readings)[i].next == other.emitted(readings)[i].next
            },
    decreases readings.len(),
{
    if readings.len() > 0 {
        lemma_verbosity_changes_text_only(one, other, readings.drop_last());
        lemma_run_keeps_plan(one, readings.drop_last());
        lemma_run_keeps_plan(other, readings.drop_last());
    }
}

} // verus!
