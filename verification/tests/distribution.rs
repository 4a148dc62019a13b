use std::collections::{BTreeMap, BTreeSet, HashMap};
use std::hash::Hash;

use rand_indices::sampling::{sample_fast, sample_uniform};
use rand_indices::source::StdRandomSource;

struct TestCase {
    name: &'static str,
    input_len: usize,
    deny: (usize, usize),
    expected_dist: BTreeMap<(usize, usize), usize>,
}

fn dist(entries: &[((usize, usize), usize)]) -> BTreeMap<(usize, usize), usize> {
    let mut m = BTreeMap::new();
    for (pair, share) in entries {
        m.insert(*pair, *share);
    }
    m
}

fn cases() -> Vec<TestCase> {
    vec![
        TestCase {
            name: "three elems, start&end denied",
            input_len: 3,
            deny: (0, 2),
            expected_dist: dist(&[((0, 1), 50), ((1, 2), 50)]),
        },
        TestCase {
            name: "four elems, start&end denied",
            input_len: 4,
            deny: (0, 3),
            expected_dist: dist(&[
                ((0, 1), 20),
                ((0, 2), 20),
                ((1, 2), 20),
                ((1, 3), 20),
                ((2, 3), 20),
            ]),
        },
        TestCase {
            name: "four elems, two non-adjacent denied",
            input_len: 4,
            deny: (0, 2),
            expected_dist: dist(&[
                ((0, 1), 20),
                ((0, 3), 20),
                ((1, 2), 20),
                ((1, 3), 20),
                ((2, 3), 20),
            ]),
        },
        TestCase {
            name: "five elems, two adjacent denied",
            input_len: 5,
            deny: (1, 2),
            expected_dist: dist(&[
                ((0, 1), 11),
                ((0, 2), 11),
                ((0, 3), 11),
                ((0, 4), 11),
                ((1, 3), 11),
                ((1, 4), 11),
                ((2, 3), 11),
                ((2, 4), 11),
                ((3, 4), 11),
            ]),
        },
    ]
}

/// Retry until a round of draws yields an accepted pair, as a caller of the
/// uniform variant would.
fn draw_uniform(rng: &mut StdRandomSource, len: usize, deny: (usize, usize)) -> (usize, usize) {
    loop {
        if let Some(pair) = sample_uniform(rng, len, deny, 16) {
            return pair;
        }
    }
}

fn repeat_and_collect<T, F>(mut function: F) -> BTreeMap<T, usize>
where
    T: Eq + Hash + Ord,
    F: FnMut() -> T,
{
    let mut counters = HashMap::new();
    for _ in 0..100_000 {
        let selected = function();
        counters
            .entry(selected)
            .and_modify(|count| {
                *count += 1;
            })
            .or_insert(1);
    }
    counters
        .into_iter()
        .map(|(value, count)| (value, ((count as f32 / 1000.0).round()) as usize))
        .collect()
}

#[test]
fn random_distinct_index_tuple_ordered_except_good_ok_cases() {
    let mut rng = StdRandomSource::from_seed(1);
    let tests = cases();
    for i in 0..tests.len() {
        let test = &tests[i];
        let actual_dist =
            repeat_and_collect(|| draw_uniform(&mut rng, test.input_len, test.deny));
        assert_eq!(
            test.expected_dist.keys().collect::<BTreeSet<_>>(),
            actual_dist.keys().collect::<BTreeSet<_>>(),
            "test {} failed",
            test.name,
        );
    }
    for i in 0..tests.len() {
        let test = &tests[i];
        let actual_dist =
            repeat_and_collect(|| draw_uniform(&mut rng, test.input_len, test.deny));
        assert_eq!(test.expected_dist, actual_dist, "test {} failed", test.name);
    }
}

#[test]
fn random_distinct_index_tuple_ordered_except_fast_ok_cases() {
    let mut rng = StdRandomSource::from_seed(1);
    let tests = cases();
    // The fast variant promises the same support as the uniform one, but its
    // joint distribution is biased, so only the reachable set is checked.
    for i in 0..tests.len() {
        let test = &tests[i];
        let actual_dist =
            repeat_and_collect(|| sample_fast(&mut rng, test.input_len, test.deny));
        assert_eq!(
            test.expected_dist.keys().collect::<BTreeSet<_>>(),
            actual_dist.keys().collect::<BTreeSet<_>>(),
            "test {} failed",
            test.name,
        );
    }
}
