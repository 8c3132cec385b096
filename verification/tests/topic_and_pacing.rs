use countdown::pacing::Pacing;
use countdown::topic::{get_verb, select_topic, Topic};

#[test]
fn verb_of_counting() {
    assert_eq!(get_verb(&Topic::Counting), "counting down to");
}

#[test]
fn verb_of_arrived() {
    assert_eq!(get_verb(&Topic::Arrived), "arrived at");
}

#[test]
fn topic_is_counting_before_the_end() {
    assert_eq!(select_topic(99, 100), Topic::Counting);
    assert_eq!(select_topic(i64::MIN, i64::MAX), Topic::Counting);
    assert_eq!(select_topic(-5, -4), Topic::Counting);
}

#[test]
fn topic_is_arrived_at_the_end() {
    assert_eq!(select_topic(100, 100), Topic::Arrived);
}

#[test]
fn topic_is_arrived_after_the_end() {
    assert_eq!(select_topic(101, 100), Topic::Arrived);
    assert_eq!(select_topic(i64::MAX, i64::MIN), Topic::Arrived);
}

#[test]
fn topic_depends_on_now_and_end_alone() {
    for now in -3i64..=3 {
        for end in -3i64..=3 {
            let expected = if now < end { Topic::Counting } else { Topic::Arrived };
            assert_eq!(select_topic(now, end), expected);
            assert_eq!(select_topic(now, end), select_topic(now, end));
        }
    }
}

#[test]
fn pacing_rejects_a_zero_shortest_pause() {
    assert!(Pacing::new(0, 10).is_none());
    assert!(Pacing::new(0, 0).is_none());
}

#[test]
fn pacing_rejects_bounds_out_of_order() {
    assert!(Pacing::new(11, 10).is_none());
    assert!(Pacing::new(u64::MAX, 1).is_none());
}

#[test]
fn pacing_accepts_bounds_in_order() {
    let pacing = Pacing::new(2, 10).expect("2 <= 10");
    assert_eq!(pacing.shortest(), 2);
    assert_eq!(pacing.longest(), 10);
    let single = Pacing::new(3, 3).expect("3 <= 3");
    assert_eq!(single.shortest(), 3);
    assert_eq!(single.longest(), 3);
    let widest = Pacing::new(1, u64::MAX).expect("1 <= max");
    assert_eq!(widest.longest(), u64::MAX);
}

#[test]
fn default_pacing_is_one_second_to_one_minute() {
    let pacing = Pacing::default();
    assert_eq!(pacing.shortest(), 1);
    assert_eq!(pacing.longest(), 60);
}

#[test]
fn pause_is_the_remaining_time_between_the_bounds() {
    let pacing = Pacing::new(2, 10).expect("2 <= 10");
    assert_eq!(pacing.pause(2), 2);
    assert_eq!(pacing.pause(5), 5);
    assert_eq!(pacing.pause(10), 10);
}

#[test]
fn pause_is_never_shorter_than_the_shortest() {
    let pacing = Pacing::new(2, 10).expect("2 <= 10");
    assert_eq!(pacing.pause(0), 2);
    assert_eq!(pacing.pause(1), 2);
}

#[test]
fn pause_is_never_longer_than_the_longest() {
    let pacing = Pacing::new(2, 10).expect("2 <= 10");
    assert_eq!(pacing.pause(11), 10);
    assert_eq!(pacing.pause(u64::MAX), 10);
}

#[test]
fn pause_does_not_grow_as_the_end_comes_nearer() {
    let pacing = Pacing::new(3, 20).expect("3 <= 20");
    let mut previous = pacing.pause(0);
    for remaining in 1u64..=40 {
        let pause = pacing.pause(remaining);
        assert!(previous <= pause);
        assert!(3 <= pause && pause <= 20);
        if remaining >= 3 {
            assert!(pause <= remaining);
        }
        previous = pause;
    }
}
