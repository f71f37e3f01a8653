use std::collections::HashSet;
use survey_gen::sampling::sample;
use survey_gen::SurveyError;

#[test]
fn sample_returns_five_distinct_items_from_ten() {
    for _ in 0..200 {
        let picked = sample(10, 5).expect("5 <= 10");
        assert_eq!(picked.len(), 5);
        let distinct: HashSet<usize> = picked.iter().copied().collect();
        assert_eq!(distinct.len(), 5, "duplicates in {:?}", picked);
        for v in picked {
            assert!((1..=10).contains(&v), "item out of domain: {}", v);
        }
    }
}

#[test]
fn full_sample_is_the_whole_domain_each_once() {
    for _ in 0..50 {
        let mut picked = sample(10, 10).expect("10 <= 10");
        picked.sort();
        assert_eq!(picked, vec![1, 2, 3, 4, 5, 6, 7, 8, 9, 10]);
    }
}

#[test]
fn empty_sample_is_empty() {
    let picked = sample(10, 0).expect("0 <= 10");
    assert!(picked.is_empty());
}

#[test]
fn oversized_sample_is_rejected() {
    assert_eq!(sample(10, 11), Err(SurveyError::InvalidSampleSize));
    assert_eq!(sample(0, 1), Err(SurveyError::InvalidSampleSize));
}

#[test]
fn sample_frequencies_are_close_to_uniform() {
    let trials = 3000;
    let mut counts = [0usize; 11];
    for _ in 0..trials {
        for v in sample(10, 5).expect("5 <= 10") {
            counts[v] += 1;
        }
    }
    // Each item is expected in half the samples: 1500 of 3000, with a
    // standard deviation near 27. A band of +/- 300 leaves flakiness
    // far outside reach while still catching any biased selection.
    for v in 1..=10 {
        assert!(
            (1200..=1800).contains(&counts[v]),
            "item {} appeared {} times in {} trials",
            v,
            counts[v],
            trials
        );
    }
}
