use chain_watch::log::{Protocol, RawLog};
use chain_watch::swaps_handler::{get_amounts2, get_amounts3, Amount, Swap, SwapsHandler};

fn word(v: u64) -> [u8; 32] {
    let mut w = [0u8; 32];
    w[24..].copy_from_slice(&v.to_be_bytes());
    w
}

fn negative_word(v: u64) -> [u8; 32] {
    // two's complement of -v
    let mut w = [0xffu8; 32];
    w[24..].copy_from_slice(&(v.wrapping_neg()).to_be_bytes());
    w
}

fn pos(v: u64) -> Amount {
    Amount { negative: false, magnitude: word(v) }
}

fn neg(v: u64) -> Amount {
    Amount { negative: true, magnitude: word(v) }
}

fn topic(b: u8) -> [u8; 32] {
    [b; 32]
}

fn swap_log(selector: [u8; 32], words: &[[u8; 32]]) -> RawLog {
    let mut data = Vec::new();
    for w in words {
        data.extend_from_slice(w);
    }
    RawLog { address: [7u8; 20], topics: vec![selector, topic(1), topic(2)], data }
}

#[test]
fn v2_nothing_of_token0_in() {
    let (a0, a1) = get_amounts2(&word(0), &word(500), &word(250), &word(0));
    assert_eq!(a0, neg(250));
    assert_eq!(a1, pos(500));
}

#[test]
fn v2_token0_in() {
    let (a0, a1) = get_amounts2(&word(100), &word(0), &word(0), &word(40));
    assert_eq!(a0, pos(100));
    assert_eq!(a1, neg(40));
}

#[test]
fn v2_zero_out_stays_non_negative() {
    let (a0, a1) = get_amounts2(&word(0), &word(9), &word(0), &word(3));
    assert_eq!(a0, pos(0));
    assert_eq!(a1, pos(9));
}

#[test]
fn v2_largest_amount_out_is_negated() {
    let (a0, _) = get_amounts2(&word(0), &word(1), &[0xffu8; 32], &word(0));
    assert_eq!(a0, Amount { negative: true, magnitude: [0xffu8; 32] });
}

#[test]
fn v3_amounts_pass_through() {
    let (a0, a1) = get_amounts3(&negative_word(300), &word(120));
    assert_eq!(a0, neg(300));
    assert_eq!(a1, pos(120));
}

#[test]
fn v3_most_negative_amount() {
    let mut min = [0u8; 32];
    min[0] = 0x80;
    let (a0, _) = get_amounts3(&min, &word(0));
    assert_eq!(a0, Amount { negative: true, magnitude: min });
    let (m1, _) = get_amounts3(&[0xffu8; 32], &word(0));
    assert_eq!(m1, neg(1));
}

#[test]
fn handle_decodes_both_versions() {
    let handler = SwapsHandler::new(topic(0xa2), topic(0xa3));
    let logs = vec![
        swap_log(topic(0xa2), &[word(0), word(500), word(250), word(0)]),
        swap_log(topic(0xa3), &[negative_word(300), word(120), word(1), word(2), word(3)]),
        swap_log(topic(0xee), &[word(1), word(2), word(3), word(4)]),
        swap_log(topic(0xa2), &[word(1), word(2), word(3)]),
    ];
    let swaps = handler.handle(&logs);
    assert_eq!(
        swaps,
        vec![
            Swap { protocol: Protocol::V2, address: [7u8; 20], amount0: neg(250), amount1: pos(500) },
            Swap { protocol: Protocol::V3, address: [7u8; 20], amount0: neg(300), amount1: pos(120) },
        ]
    );
}

#[test]
fn v3_short_payload_is_dropped() {
    let handler = SwapsHandler::new(topic(0xa2), topic(0xa3));
    let log = swap_log(topic(0xa3), &[word(1), word(2), word(3), word(4)]);
    assert_eq!(handler.handle3(&log), None);
    assert_eq!(handler.get_swap3(&log), None);
}
