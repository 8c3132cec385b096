//! The closed set of message categories and their display verbs.

use vstd::prelude::*;

verus! {

/// The category of an emitted message.
#[derive(Clone, Copy, Debug, PartialEq, Eq, Structural)]
pub enum Topic {
    /// Time remains before the end.
    Counting,
    /// The end has been reached or passed.
    Arrived,
}

/// The display verb of a topic, as a sequence of characters.
pub open spec fn verb_text(topic: Topic) -> Seq<char> {
    match topic {
        Topic::Counting => "counting down to"@,
        Topic::Arrived => "arrived at"@,
    }
}

/// The topic that is active at `now` for a loop that ends at `end`.
pub open spec fn topic_for(now: int, end: int) -> Topic {
    if now < end {
        Topic::Counting
    } else {
        Topic::Arrived
    }
}

/// Returns the display verb of `topic`.
pub fn get_verb(topic: &Topic) -> (verb: &'static str)
    ensures
        verb@ == verb_text(*topic),
{
    match topic {
        Topic::Counting => "counting down to",
        Topic::Arrived => "arrived at",
    }
}

/// Selects the topic from the current time and the end: `Counting` while
/// `now` lies before `end`, `Arrived` from `end` on.
pub fn select_topic(now: i64, end: i64) -> (topic: Topic)
    ensures
        topic == topic_for(now as int, end as int),
        now < end ==> topic == Topic::Counting,
        now >= end ==> topic == Topic::Arrived,
{
    if now < end {
        Topic::Counting
    } else {
        Topic::Arrived
    }
}

} // verus!
