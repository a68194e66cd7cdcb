use solar_tracker::quadrature::{encode_levels, quad_table, QuadratureDecoder};

const REFERENCE_TABLE: [i8; 16] = [0, -1, 1, 0, 1, 0, 0, -1, -1, 0, 0, 1, 0, 1, -1, 0];

fn levels(ab: u8) -> (bool, bool) {
    (ab & 2 != 0, ab & 1 != 0)
}

#[test]
fn table_has_the_sixteen_reference_entries() {
    for idx in 0u8..16 {
        assert_eq!(quad_table(idx), REFERENCE_TABLE[idx as usize], "entry {}", idx);
    }
}

#[test]
fn table_is_zero_when_nothing_or_both_lines_change() {
    for last in 0u8..4 {
        assert_eq!(quad_table(last * 4 + last), 0);
        assert_eq!(quad_table(last * 4 + (3 - last)), 0);
    }
}

#[test]
fn encode_levels_puts_a_in_bit_one() {
    assert_eq!(encode_levels(false, false), 0);
    assert_eq!(encode_levels(false, true), 1);
    assert_eq!(encode_levels(true, false), 2);
    assert_eq!(encode_levels(true, true), 3);
}

#[test]
fn clockwise_cycle_counts_four() {
    let mut decoder = QuadratureDecoder::new(false, false);
    for ab in [2u8, 3, 1, 0] {
        let (a, b) = levels(ab);
        assert!(decoder.sample(a, b));
    }
    assert_eq!(decoder.count(), 4);
    assert_eq!(decoder.last_ab(), 0);
}

#[test]
fn counter_clockwise_cycle_counts_minus_four() {
    let mut decoder = QuadratureDecoder::new(false, false);
    for ab in [1u8, 3, 2, 0] {
        let (a, b) = levels(ab);
        assert!(decoder.sample(a, b));
    }
    assert_eq!(decoder.count(), -4);
}

#[test]
fn invalid_transition_counts_nothing_but_is_remembered() {
    let mut decoder = QuadratureDecoder::new(false, false);
    assert!(!decoder.sample(true, true));
    assert_eq!(decoder.count(), 0);
    assert_eq!(decoder.last_ab(), 3);
}

#[test]
fn repeated_sample_counts_nothing() {
    let mut decoder = QuadratureDecoder::new(true, false);
    assert!(!decoder.sample(true, false));
    assert_eq!(decoder.count(), 0);
}

#[test]
fn feed_gives_net_of_turns() {
    let mut decoder = QuadratureDecoder::new(false, false);
    // three clockwise ticks, one repeat, two counter-clockwise ticks, one invalid
    let run: Vec<(bool, bool)> =
        [2u8, 3, 1, 1, 3, 2, 1].iter().map(|ab| levels(*ab)).collect();
    decoder.feed(&run);
    assert_eq!(decoder.count(), 3 - 2);
    assert_eq!(decoder.last_ab(), 1);
}

#[test]
fn feed_agrees_with_single_samples() {
    let run: Vec<(bool, bool)> =
        [2u8, 0, 1, 3, 2, 0, 2, 3, 1, 0, 0, 3].iter().map(|ab| levels(*ab)).collect();
    let mut fed = QuadratureDecoder::new(false, true);
    fed.feed(&run);
    let mut single = QuadratureDecoder::new(false, true);
    for (a, b) in run.iter() {
        single.sample(*a, *b);
    }
    assert_eq!(fed.count(), single.count());
    assert_eq!(fed.last_ab(), single.last_ab());
}

#[test]
fn reset_and_set_count() {
    let mut decoder = QuadratureDecoder::new(false, false);
    decoder.sample(true, false);
    decoder.set_count(1000);
    assert_eq!(decoder.count(), 1000);
    assert_eq!(decoder.last_ab(), 2);
    decoder.reset(true, true);
    assert_eq!(decoder.count(), 0);
    assert_eq!(decoder.last_ab(), 3);
}
