use fsrs_rs_c::{fsrs_item_free, fsrs_item_new, fsrs_review_free, fsrs_review_new, FsrsReviews};

fn bits_of(states: &fsrs::NextStates) -> Vec<u32> {
    [&states.again, &states.hard, &states.good, &states.easy]
        .iter()
        .flat_map(|state| {
            [
                state.memory.stability.to_bits(),
                state.memory.difficulty.to_bits(),
                state.interval.to_bits(),
            ]
        })
        .collect()
}

#[test]
fn good_interval_is_not_below_again_for_a_fresh_item() {
    let engine = fsrs::FSRS::new(&[]).unwrap();
    let review = fsrs_review_new(3, 0);
    let item = fsrs_item_new(&FsrsReviews { reviews: vec![*review], len: 1 });
    assert_eq!(item.len, 1);
    let next = engine.next_states(None, 0.9, 0).unwrap();
    assert!(next.good.interval >= next.again.interval);
    fsrs_item_free(Some(item));
    fsrs_review_free(Some(review));
}

#[test]
fn fresh_item_gets_four_intervals_that_are_not_negative() {
    let engine = fsrs::FSRS::new(&[]).unwrap();
    for days in [0u32, 1, 30] {
        let next = engine.next_states(None, 0.9, days).unwrap();
        for state in [&next.again, &next.hard, &next.good, &next.easy] {
            assert!(state.interval >= 0.0);
            assert!(state.memory.stability.is_finite());
            assert!(state.memory.difficulty.is_finite());
        }
    }
}

#[test]
fn next_states_are_the_same_bits_on_every_call() {
    let engine = fsrs::FSRS::new(&[]).unwrap();
    let prior = fsrs::MemoryState { stability: 5.0, difficulty: 5.0 };
    let first = engine.next_states(Some(prior), 0.9, 3).unwrap();
    let second = engine.next_states(Some(prior), 0.9, 3).unwrap();
    assert_eq!(bits_of(&first), bits_of(&second));
    let fresh_first = engine.next_states(None, 0.85, 0).unwrap();
    let fresh_second = engine.next_states(None, 0.85, 0).unwrap();
    assert_eq!(bits_of(&fresh_first), bits_of(&fresh_second));
}
