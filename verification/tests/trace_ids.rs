use trace_boot::trace_id::advance;
use trace_boot::trace_id::entropy;
use trace_boot::trace_id::fit;
use trace_boot::trace_id::shard;
use trace_boot::trace_id::tick;
use trace_boot::trace_id::ENTROPY_SPAN;
use trace_boot::trace_id::STEP;
use trace_boot::trace_id::TICK_UNIT;

fn compose(tick: u64, entropy: u128, shard: u16) -> u128 {
    ((tick as u128) << 86) | (entropy << 10) | (shard as u128)
}

#[test]
fn constants_match_the_field_widths() {
    assert_eq!(STEP, 1u128 << 10);
    assert_eq!(ENTROPY_SPAN, 1u128 << 76);
    assert_eq!(TICK_UNIT, 1u128 << 86);
    assert_eq!(STEP * ENTROPY_SPAN, TICK_UNIT);
}

#[test]
fn fields_are_read_back() {
    let id = compose(1_700_000_000_000, 0xABC_DEF0_1234_5678_9ABC, 0x155);
    assert_eq!(tick(id), 1_700_000_000_000);
    assert_eq!(entropy(id), 0xABC_DEF0_1234_5678_9ABC);
    assert_eq!(shard(id), 0x155);
}

#[test]
fn fields_of_the_extremes() {
    assert_eq!(tick(0), 0);
    assert_eq!(entropy(0), 0);
    assert_eq!(shard(0), 0);
    assert_eq!(tick(u128::MAX), (1u64 << 42) - 1);
    assert_eq!(entropy(u128::MAX), (1u128 << 76) - 1);
    assert_eq!(shard(u128::MAX), 1023);
}

#[test]
fn greater_candidate_is_handed_out_as_it_is() {
    assert_eq!(advance(0, 5), 5);
    assert_eq!(advance(1_000, 1_001), 1_001);
    assert_eq!(advance(7, u128::MAX), u128::MAX);
}

#[test]
fn equal_candidate_is_replaced_by_the_successor() {
    assert_eq!(advance(10, 10), 10 + 1024);
    assert_eq!(advance(0, 0), 1024);
}

#[test]
fn smaller_candidate_is_replaced_by_the_successor() {
    assert_eq!(advance(10, 5), 1034);
    let last = compose(1_700_000_000_500, 77, 33);
    let stale = compose(1_700_000_000_100, 1u128 << 70, 33);
    assert_eq!(advance(last, stale), compose(1_700_000_000_500, 78, 33));
}

#[test]
fn successor_carries_into_the_tick_when_entropy_is_full() {
    let last = compose(41, (1u128 << 76) - 1, 9);
    assert_eq!(advance(last, 0), compose(42, 0, 9));
}

#[test]
fn last_id_before_the_ceiling_still_has_a_successor() {
    assert_eq!(advance(u128::MAX - 1024, 0), u128::MAX);
    assert_eq!(advance(u128::MAX - 1025, 17), u128::MAX - 1);
}

#[test]
fn spent_generator_repeats_its_last_id() {
    assert_eq!(advance(u128::MAX, 3), u128::MAX);
    assert_eq!(advance(u128::MAX, u128::MAX), u128::MAX);
    assert_eq!(advance(u128::MAX - 1023, 12), u128::MAX - 1023);
    assert_eq!(advance(u128::MAX - 1, u128::MAX - 1), u128::MAX - 1);
}

#[test]
fn spent_generator_still_takes_a_greater_candidate() {
    assert_eq!(advance(u128::MAX - 1023, u128::MAX - 1022), u128::MAX - 1022);
}

#[test]
fn zero_is_never_handed_out() {
    for last in [0u128, 1, 1023, 1024, u128::MAX - 1024, u128::MAX] {
        for candidate in [0u128, 1, 1024, u128::MAX] {
            assert_ne!(advance(last, candidate), 0);
        }
    }
}

#[test]
fn later_tick_is_the_greater_id() {
    let early = compose(100, (1u128 << 76) - 1, 1023);
    let late = compose(101, 0, 0);
    assert!(tick(early) < tick(late));
    assert!(early < late);
    assert_eq!(advance(early, late), late);
}

#[test]
fn run_with_a_backward_clock_jump_stays_ascending() {
    let candidates = [
        compose(500, 9, 3),
        compose(501, 2, 3),
        compose(200, 8, 3),
        compose(200, 1, 3),
        compose(501, 2, 3),
        compose(501, 1 << 40, 3),
        compose(502, 0, 3),
    ];
    let expected = [
        compose(500, 9, 3),
        compose(501, 2, 3),
        compose(501, 3, 3),
        compose(501, 4, 3),
        compose(501, 5, 3),
        compose(501, 1 << 40, 3),
        compose(502, 0, 3),
    ];
    let mut last = 0u128;
    let mut ids = Vec::new();
    for candidate in candidates {
        last = advance(last, candidate);
        ids.push(last);
    }
    assert_eq!(ids, expected.to_vec());
    let mut sorted = ids.clone();
    sorted.sort();
    sorted.dedup();
    assert_eq!(sorted, ids);
}

#[test]
fn run_on_a_frozen_clock_has_no_repeats() {
    let frozen = compose(1_000, 0, 0);
    let mut last = 0u128;
    let mut ids = Vec::new();
    for _ in 0..10_000 {
        let id = advance(last, frozen);
        assert!(id > last);
        last = id;
        ids.push(id);
    }
    assert_eq!(ids[0], frozen);
    assert_eq!(ids[9_999], frozen + 9_999 * 1024);
    for id in &ids {
        assert_eq!(tick(*id), 1_000);
        assert_eq!(shard(*id), 0);
    }
}

#[test]
fn fit_replaces_the_shard_and_nothing_else() {
    let candidate = compose(1_700_000_000_000, 0x1234_5678, 0x3FF);
    assert_eq!(fit(candidate, 0), compose(1_700_000_000_000, 0x1234_5678, 0));
    assert_eq!(fit(candidate, 0x155), compose(1_700_000_000_000, 0x1234_5678, 0x155));
    assert_eq!(fit(candidate, 0x3FF), candidate);
    assert_eq!(fit(5_000, 100), 4_196);
    assert_eq!(fit(0, 7), 7);
    assert_eq!(fit(u128::MAX, 0), u128::MAX - 1023);
}

#[test]
fn fit_reduces_a_shard_wider_than_the_field() {
    assert_eq!(fit(0, 1024), 0);
    assert_eq!(fit(2048, 1025), 2049);
    assert_eq!(fit(compose(3, 4, 5), u16::MAX), compose(3, 4, 1023));
}
