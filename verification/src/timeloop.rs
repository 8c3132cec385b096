//! The time loop engine.
//!
//! One tick reads the time, selects the topic, formats the message and says
//! how long to sleep before the next tick, or that the loop is over. The
//! engine decides; the caller delivers the message and sleeps.
//!
//! A loop is `Running` until a tick sees the end reached. That tick publishes
//! `Arrived` and leaves the loop `Done`, and a loop that is `Done` publishes
//! nothing more.

use crate::message::{elapsed_secs, format_message, message_text, remaining_secs};
use crate::pacing::{pause_for, Pacing};
use crate::runs::lemma_done_is_terminal;
use crate::topic::{select_topic, topic_for, Topic};
use vstd::prelude::*;

verus! {

/// The two states of a loop.
#[derive(Clone, Copy, Debug, PartialEq, Eq, Structural)]
pub enum LoopState {
    /// The end has not been seen yet.
    Running,
    /// The arrival has been published; no tick follows.
    Done,
}

/// What the caller does after it has delivered the message of a tick.
#[derive(Clone, Copy, Debug, PartialEq, Eq, Structural)]
pub enum Next {
    /// Sleep for this many seconds, then tick again.
    Sleep(u64),
    /// Stop: the arrival has been published.
    Stop,
}

/// What one tick hands to the caller.
#[derive(Debug)]
pub struct Tick {
    /// The time that the tick read, in seconds since the epoch.
    pub now: i64,
    /// The category of the message.
    pub topic: Topic,
    /// The message for the sink.
    pub message: String,
    /// The seconds left until the end, zero on arrival.
    pub remaining: u64,
    /// What to do after the message has been delivered.
    pub next: Next,
}

/// A tick as a mathematical value.
pub struct TickView {
    pub now: int,
    pub topic: Topic,
    pub message: Seq<char>,
    pub remaining: nat,
    pub next: Next,
}

impl View for Tick {
    type V = TickView;

    open spec fn view(&self) -> TickView {
        TickView {
            now: self.now as int,
            topic: self.topic,
            message: self.message@,
            remaining: self.remaining as nat,
            next: self.next,
        }
    }
}

/// What a loop is set up with. It does not change while the loop runs.
pub struct Plan {
    /// The start, in seconds since the epoch.
    pub start: int,
    /// The end, in seconds since the epoch.
    pub end: int,
    /// The label of the end event.
    pub end_text: Seq<char>,
    /// Whether the messages carry the detailed counts.
    pub verbose: bool,
    /// The bounds of the pauses.
    pub pacing: Pacing,
}

/// What follows a tick at `now`: a pause that follows the remaining time, or
/// the stop once the end is reached.
pub open spec fn next_for(pacing: Pacing, now: int, end: int) -> Next {
    if now < end {
        Next::Sleep(pause_for(pacing, end - now) as u64)
    } else {
        Next::Stop
    }
}

/// The tick of a running loop that reads the time `now`.
pub open spec fn observed(plan: Plan, now: int) -> TickView {
    TickView {
        now,
        topic: topic_for(now, plan.end),
        message: message_text(
            topic_for(now, plan.end),
            plan.end_text,
            remaining_secs(now, plan.end),
            elapsed_secs(plan.start, now),
            plan.verbose,
        ),
        remaining: remaining_secs(now, plan.end),
        next: next_for(plan.pacing, now, plan.end),
    }
}

/// Computes the tick of a running loop from the time `now`.
pub fn observe(
    start: i64,
    end: i64,
    end_text: &str,
    verbose: bool,
    pacing: &Pacing,
    now: i64,
) -> (tick: Tick)
    ensures
        tick@ == observed(
            (Plan {
                start: start as int,
                end: end as int,
                end_text: end_text@,
                verbose,
                pacing: *pacing,
            }),
            now as int,
        ),
{
    let topic = select_topic(now, end);
    let remaining: u64 = if now < end {
        (end as i128 - now as i128) as u64
    } else {
        0
    };
    let elapsed: u64 = if now > start {
        (now as i128 - start as i128) as u64
    } else {
        0
    };
    let message = format_message(topic, end_text, remaining, elapsed, verbose);
    let next = match topic {
        Topic::Counting => Next::Sleep(pacing.pause(remaining)),
        Topic::Arrived => Next::Stop,
    };
    Tick { now, topic, message, remaining, next }
}

/// A loop as a mathematical value: its plan, its state, and the topics that
/// it has published so far, oldest first.
pub struct TimeLoopView {
    pub plan: Plan,
    pub state: LoopState,
    pub published: Seq<Topic>,
}

impl TimeLoopView {
    /// A loop that has not ticked yet.
    pub open spec fn is_fresh(self) -> bool {
        self.state == LoopState::Running && self.published.len() == 0
    }

    /// The order of what a loop has published: `Arrived` stands at the last
    /// place of a loop that is `Done`, and nowhere else.
    pub open spec fn ordered(self) -> bool {
        &&& self.state == LoopState::Done ==> self.published.len() > 0
        &&& forall|i: int|
            0 <= i < self.published.len() ==> ((#[trigger] self.published[i]) == Topic::Arrived
                <==> self.state == LoopState::Done && i == self.published.len() - 1)
    }

    /// A loop is well formed when its pacing is and what it has published is
    /// in order.
    pub open spec fn wf(self) -> bool {
        self.plan.pacing.wf() && self.ordered()
    }

    /// What a tick at `now` hands out: the observed tick while the loop is
    /// running, nothing once it is done.
    pub open spec fn emits(self, now: int) -> Option<TickView> {
        match self.state {
            LoopState::Running => Some(observed(self.plan, now)),
            LoopState::Done => None,
        }
    }

    /// The loop after a tick at `now`. A running loop publishes the topic of
    /// `now` and is done once the end is reached; a loop that is done stays
    /// as it is.
    pub open spec fn step(self, now: int) -> TimeLoopView {
        match self.state {
            LoopState::Running => TimeLoopView {
                plan: self.plan,
                state: if now < self.plan.end {
                    LoopState::Running
                } else {
                    LoopState::Done
                },
                published: self.published.push(topic_for(now, self.plan.end)),
            },
            LoopState::Done => self,
        }
    }

    /// The loop after one tick at each of `readings`, in their order.
    pub open spec fn run(self, readings: Seq<int>) -> TimeLoopView
        decreases readings.len(),
    {
        if readings.len() == 0 {
            self
        } else {
            self.run(readings.drop_last()).step(readings.last())
        }
    }

    /// The ticks that the loop hands out over `readings`, in their order.
    pub open spec fn emitted(self, readings: Seq<int>) -> Seq<TickView>
        decreases readings.len(),
    {
        if readings.len() == 0 {
            Seq::empty()
        } else {
            match self.run(readings.drop_last()).emits(readings.last()) {
                Some(tick) => self.emitted(readings.drop_last()).push(tick),
                None => self.emitted(readings.drop_last()),
            }
        }
    }
}

/// The view of what a tick handed out.
pub open spec fn tick_view(tick: Option<Tick>) -> Option<TickView> {
    match tick {
        Some(t) => Some(t@),
        None => None,
    }
}

/// The views of a sequence of ticks.
pub open spec fn tick_views(ticks: Seq<Tick>) -> Seq<TickView> {
    ticks.map_values(|t: Tick| t@)
}

/// Recorded readings of a clock as mathematical integers.
pub open spec fn instants(readings: Seq<i64>) -> Seq<int> {
    readings.map_values(|reading: i64| reading as int)
}

/// How far a loop has come: its state, and the topics that it has published.
/// The two change together.
struct Progress {
    state: LoopState,
    published: Ghost<Seq<Topic>>,
}

/// Reads the system clock with `chrono::Utc::now` and converts the instant
/// with `DateTime::timestamp` to whole seconds since the UNIX epoch.
///
/// Nothing is claimed of the value. chrono does not return where the system
/// clock stands before the epoch: a host without a usable time source is
/// fatal.
#[verifier::external_body]
fn clock_seconds() -> (now: i64) {
    chrono::Utc::now().timestamp()
}

/// The engine of one loop.
pub struct TimeLoop {
    start: i64,
    end: i64,
    end_text: String,
    verbose: bool,
    pacing: Pacing,
    progress: Progress,
}

impl View for TimeLoop {
    type V = TimeLoopView;

    closed spec fn view(&self) -> TimeLoopView {
        TimeLoopView {
            plan: Plan {
                start: self.start as int,
                end: self.end as int,
                end_text: self.end_text@,
                verbose: self.verbose,
                pacing: self.pacing,
            },
            state: self.progress.state,
            published: self.progress.published@,
        }
    }
}

impl TimeLoop {
    /// Every engine is well formed.
    #[verifier::type_invariant]
    pub closed spec fn wf(&self) -> bool {
        self@.wf()
    }

    /// Sets up a loop with the default pacing. The order of `start` and
    /// `end` is the caller's concern: a loop whose end has passed arrives at
    /// its first tick.
    pub fn new(start: i64, end: i64, end_text: &str, verbose: bool) -> (engine: TimeLoop)
        ensures
            engine@.wf(),
            engine@.is_fresh(),
            engine@.plan.start == start,
            engine@.plan.end == end,
            engine@.plan.end_text == end_text@,
            engine@.plan.verbose == verbose,
            engine@.plan.pacing.shortest_bound() == 1,
            engine@.plan.pacing.longest_bound() == 60,
    {
        TimeLoop::with_pacing(start, end, end_text, verbose, Pacing::default())
    }

    /// Sets up a loop with a pacing of the caller's choice.
    pub fn with_pacing(
        start: i64,
        end: i64,
        end_text: &str,
        verbose: bool,
        pacing: Pacing,
    ) -> (engine: TimeLoop)
        ensures
            engine@.wf(),
            engine@.is_fresh(),
            engine@.plan == (Plan {
                start: start as int,
                end: end as int,
                end_text: end_text@,
                verbose,
                pacing,
            }),
    {
        proof {
            use_type_invariant(&pacing);
        }
        TimeLoop {
            start,
            end,
            end_text: end_text.to_owned(),
            verbose,
            pacing,
            progress: Progress { state: LoopState::Running, published: Ghost(Seq::empty()) },
        }
    }

    /// The state of the loop.
    pub fn state(&self) -> (state: LoopState)
        ensures
            state == self@.state,
    {
        self.progress.state
    }

    /// Whether the loop has published its arrival.
    pub fn is_done(&self) -> (done: bool)
        ensures
            done == (self@.state == LoopState::Done),
    {
        match self.progress.state {
            LoopState::Running => false,
            LoopState::Done => true,
        }
    }

    /// One tick at the time `now`.
    ///
    /// A running loop hands out the tick observed at `now`, records its
    /// topic, and is done if the end is reached. A loop that is done hands
    /// out nothing and stays as it is.
    pub fn tick_at(&mut self, now: i64) -> (tick: Option<Tick>)
        ensures
            tick_view(tick) == old(self)@.emits(now as int),
            final(self)@ == old(self)@.step(now as int),
            final(self)@.wf(),
    {
        proof {
            use_type_invariant(&*self);
        }
        match self.progress.state {
            LoopState::Done => None,
            LoopState::Running => {
                let tick = observe(
                    self.start,
                    self.end,
                    self.end_text.as_str(),
                    self.verbose,
                    &self.pacing,
                    now,
                );
                let state = match tick.topic {
                    Topic::Counting => LoopState::Running,
                    Topic::Arrived => LoopState::Done,
                };
                let ghost published = self.progress.published@.push(tick.topic);
                self.progress = Progress { state, published: Ghost(published) };
                Some(tick)
            },
        }
    }

    /// One tick at the current time of the system clock.
    ///
    /// Whatever the clock says, the loop does what `tick_at` does at that
    /// reading: a loop that is done hands out nothing, a running loop hands
    /// out one tick and records its topic.
    pub fn tick(&mut self) -> (tick: Option<Tick>)
        ensures
            exists|now: i64|
                tick_view(tick) == old(self)@.emits(now as int) && final(self)@ == old(
                    self,
                )@.step(now as int),
            tick is Some <==> old(self)@.state == LoopState::Running,
            final(self)@.wf(),
    {
        let now = clock_seconds();
        self.tick_at(now)
    }

    /// One tick at each of `readings`, in their order, for as long as the loop
    /// is running. Returns the ticks that were handed out.
    ///
    /// This is the loop itself on a recorded clock: it stops at the first
    /// reading that has reached the end, and uses up all readings if none has.
    pub fn replay(&mut self, readings: &Vec<i64>) -> (ticks: Vec<Tick>)
        ensures
            tick_views(ticks@) == old(self)@.emitted(instants(readings@)),
            final(self)@ == old(self)@.run(instants(readings@)),
            final(self)@.wf(),
    {
        let mut ticks: Vec<Tick> = Vec::new();
        let mut i: usize = 0;
        let mut running = !self.is_done();
        let ghost clock = instants(readings@);
        proof {
            use_type_invariant(&*self);
        }
        while i < readings.len() && running
            invariant
                i <= readings.len(),
                clock == instants(readings@),
                running == (self@.state == LoopState::Running),
                self@.wf(),
                self@ == old(self)@.run(clock.take(i as int)),
                tick_views(ticks@) == old(self)@.emitted(clock.take(i as int)),
            decreases readings.len() - i,
        {
            proof {
                assert(clock.take(i + 1).drop_last() =~= clock.take(i as int));
                assert(clock.take(i + 1).last() == readings[i as int]);
            }
            if let Some(tick) = self.tick_at(readings[i]) {
                ticks.push(tick);
            }
            running = !self.is_done();
            i = i + 1;
        }
        proof {
            if i < readings.len() {
                lemma_done_is_terminal(old(self)@, clock, i as int);
            } else {
                assert(clock.take(i as int) =~= clock);
            }
        }
        ticks
    }
}

} // verus!
