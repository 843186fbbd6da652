use blue_gacha::random::{RandomSource, ScriptedSource, ThreadSource};

#[test]
fn scripted_source_answers_in_order() {
    let mut source = ScriptedSource::new(vec![4, 9, 2]);
    assert_eq!(source.index_below(10), 4);
    assert_eq!(source.index_below(10), 9);
    assert_eq!(source.index_below(10), 2);
}

#[test]
fn scripted_source_answers_zero_when_used_up() {
    let mut source = ScriptedSource::new(vec![3]);
    assert_eq!(source.index_below(5), 3);
    assert_eq!(source.index_below(5), 0);
    assert_eq!(source.weighted_index(&vec![0, 0, 6]), 2);
    let mut empty = ScriptedSource::new(Vec::new());
    assert_eq!(empty.index_below(1), 0);
    assert_eq!(empty.weighted_index(&vec![7, 1]), 0);
}

#[test]
fn scripted_index_below_wraps_around_the_bound() {
    let mut source = ScriptedSource::new(vec![7, 12, 5, usize::MAX]);
    assert_eq!(source.index_below(5), 2);
    assert_eq!(source.index_below(12), 0);
    assert_eq!(source.index_below(6), 5);
    assert_eq!(source.index_below(1), 0);
}

#[test]
fn scripted_weighted_index_takes_a_place_with_weight() {
    let weights = vec![790, 185, 25];
    let mut source = ScriptedSource::new(vec![2, 0, 1, 1]);
    assert_eq!(source.weighted_index(&weights), 2);
    assert_eq!(source.weighted_index(&weights), 0);
    assert_eq!(source.weighted_index(&weights), 1);
    assert_eq!(source.weighted_index(&weights), 1);
}

#[test]
fn scripted_weighted_index_falls_back_to_the_first_place_with_weight() {
    let weights = vec![0, 0, 25, 0, 7];
    // a place without weight, a place beyond the list, then two good ones
    let mut source = ScriptedSource::new(vec![1, 5, 4, 2, 3, usize::MAX]);
    assert_eq!(source.weighted_index(&weights), 2);
    assert_eq!(source.weighted_index(&weights), 2);
    assert_eq!(source.weighted_index(&weights), 4);
    assert_eq!(source.weighted_index(&weights), 2);
    assert_eq!(source.weighted_index(&weights), 2);
    assert_eq!(source.weighted_index(&weights), 2);
}

#[test]
fn scripted_sources_with_the_same_numbers_agree() {
    let numbers = vec![5, 1, 0, 22, 3, 8];
    let mut first = ScriptedSource::new(numbers.clone());
    let mut second = ScriptedSource::new(numbers);
    let weights = vec![3, 0, 4];
    for _ in 0..4 {
        assert_eq!(first.weighted_index(&weights), second.weighted_index(&weights));
        assert_eq!(first.index_below(7), second.index_below(7));
    }
}

#[test]
fn thread_index_below_stays_below_the_bound() {
    let mut source = ThreadSource::new();
    for bound in [1usize, 2, 3, 10, 1000] {
        for _ in 0..200 {
            assert!(source.index_below(bound) < bound);
        }
    }
    assert_eq!(source.index_below(1), 0);
}

#[test]
fn thread_index_below_reaches_every_number() {
    let mut source = ThreadSource::new();
    let mut seen = [false; 4];
    for _ in 0..2000 {
        seen[source.index_below(4)] = true;
    }
    assert_eq!(seen, [true; 4]);
}

#[test]
fn thread_weighted_index_never_takes_a_place_without_weight() {
    let mut source = ThreadSource::new();
    let weights = vec![0, 5, 0, 3, 0];
    let mut seen = [0usize; 5];
    for _ in 0..2000 {
        let index = source.weighted_index(&weights);
        assert!(index < weights.len());
        assert!(weights[index] > 0);
        seen[index] += 1;
    }
    assert!(seen[1] > 0);
    assert!(seen[3] > 0);
    assert_eq!(seen[0] + seen[2] + seen[4], 0);
}

#[test]
fn thread_weighted_index_with_one_weight_takes_it() {
    let mut source = ThreadSource::new();
    for _ in 0..100 {
        assert_eq!(source.weighted_index(&vec![1000]), 0);
        assert_eq!(source.weighted_index(&vec![0, 0, 1]), 2);
        assert_eq!(source.weighted_index(&vec![0, usize::MAX, 0]), 1);
    }
}

#[test]
fn thread_weighted_index_follows_the_weights() {
    let mut source = ThreadSource::new();
    let weights = vec![790, 185, 25];
    let mut seen = [0usize; 3];
    let draws = 100_000;
    for _ in 0..draws {
        seen[source.weighted_index(&weights)] += 1;
    }
    for (count, weight) in seen.iter().zip(weights.iter()) {
        let share = *count as f64 / draws as f64;
        let rate = *weight as f64 / 1000.0;
        assert!((share - rate).abs() < 0.01);
    }
}
