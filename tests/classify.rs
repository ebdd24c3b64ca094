use chain_watch::events::{parse_topic, DomainEvent, EventTopicSet};
use chain_watch::log::{Protocol, RawLog};
use chain_watch::pools_handler::{Pool, PoolsHandler};
use chain_watch::swaps_handler::Amount;
use chain_watch::transfers_handler::{Transfer, TransfersHandler};

fn word(v: u64) -> [u8; 32] {
    let mut w = [0u8; 32];
    w[24..].copy_from_slice(&v.to_be_bytes());
    w
}

fn address_word(b: u8) -> [u8; 32] {
    let mut w = [0u8; 32];
    for x in w[12..].iter_mut() {
        *x = b;
    }
    w
}

fn topics() -> EventTopicSet {
    EventTopicSet::new([0x11; 32], [0x22; 32], [0x33; 32], [0x44; 32], [0x55; 32])
}

fn log(topics: Vec<[u8; 32]>, words: &[[u8; 32]]) -> RawLog {
    let mut data = Vec::new();
    for w in words {
        data.extend_from_slice(w);
    }
    RawLog { address: [9u8; 20], topics, data }
}

#[test]
fn transfer_is_decoded() {
    let set = topics();
    let l = log(vec![[0x11; 32], address_word(1), address_word(2)], &[word(1000)]);
    let events = set.classify(&l);
    assert_eq!(
        events,
        vec![DomainEvent::Transfer(Transfer { address: [9u8; 20], from: [1u8; 20], to: [2u8; 20], value: word(1000) })]
    );
}

#[test]
fn pools_of_both_versions_are_decoded() {
    let handler = PoolsHandler::new([0x22; 32], [0x33; 32]);
    let logs = vec![
        log(vec![[0x22; 32], address_word(1), address_word(2)], &[address_word(3), word(17)]),
        log(vec![[0x33; 32], address_word(4), address_word(5), word(3000)], &[word(60), address_word(6)]),
        log(vec![[0x33; 32], address_word(4), address_word(5)], &[word(60), address_word(6)]),
    ];
    let pools = handler.handle(&logs);
    assert_eq!(
        pools,
        vec![
            Pool { protocol: Protocol::V2, address: [3u8; 20], token0: [1u8; 20], token1: [2u8; 20] },
            Pool { protocol: Protocol::V3, address: [6u8; 20], token0: [4u8; 20], token1: [5u8; 20] },
        ]
    );
}

#[test]
fn unknown_topic_yields_no_event() {
    let set = topics();
    let l = log(vec![[0x99; 32], address_word(1), address_word(2), word(1)], &[word(1), word(2), word(3), word(4), word(5)]);
    assert!(set.classify(&l).is_empty());
    let empty = log(vec![], &[word(1)]);
    assert!(set.classify(&empty).is_empty());
}

#[test]
fn malformed_payload_yields_no_event() {
    let set = topics();
    let short_transfer = log(vec![[0x11; 32], address_word(1), address_word(2)], &[]);
    assert!(set.classify(&short_transfer).is_empty());
    let few_topics = log(vec![[0x11; 32], address_word(1)], &[word(5)]);
    assert!(set.classify(&few_topics).is_empty());
    let short_swap = log(vec![[0x44; 32], address_word(1), address_word(2)], &[word(1), word(2)]);
    assert!(set.classify(&short_swap).is_empty());
    let transfers = TransfersHandler::new([0x11; 32]);
    assert!(transfers.handle(&vec![short_transfer, few_topics]).is_empty());
}

#[test]
fn classification_is_repeatable() {
    let set = topics();
    let l = log(vec![[0x44; 32], address_word(1), address_word(2)], &[word(0), word(500), word(250), word(0)]);
    let first = set.classify(&l);
    let second = set.classify(&l.clone());
    assert_eq!(first, second);
    assert_eq!(first.len(), 1);
    match first[0] {
        DomainEvent::Swap(s) => {
            assert_eq!(s.amount0, Amount { negative: true, magnitude: word(250) });
        }
        _ => panic!("expected a swap"),
    }
}

#[test]
fn shared_topic_is_checked_by_each_table() {
    let set = EventTopicSet::new([0x11; 32], [0x11; 32], [0x33; 32], [0x44; 32], [0x55; 32]);
    let l = log(vec![[0x11; 32], address_word(1), address_word(2)], &[address_word(3), word(0)]);
    let events = set.classify(&l);
    assert_eq!(events.len(), 2);
    assert!(matches!(events[0], DomainEvent::Transfer(_)));
    assert!(matches!(events[1], DomainEvent::Pool(_)));
}

#[test]
fn topic_text_is_parsed() {
    let hex = "ddf252ad1be2c89b69c2b068fc378daa952ba7f163c4a11628f55a4df523b3ef";
    let w = parse_topic(&format!("0x{}", hex)).unwrap();
    assert_eq!(w[0], 0xdd);
    assert_eq!(w[1], 0xf2);
    assert_eq!(w[31], 0xef);
    assert_eq!(parse_topic(hex), Some(w));
    assert_eq!(parse_topic(&hex.to_uppercase()), Some(w));
    assert_eq!(parse_topic(&hex[2..]), None);
    assert_eq!(parse_topic(&format!("{}zz", &hex[2..])), None);
    assert_eq!(parse_topic(""), None);
    assert_eq!(parse_topic(&format!("0X{}", hex)), None);
}

#[test]
fn topic_set_needs_all_five() {
    let good = "0x1111111111111111111111111111111111111111111111111111111111111111";
    let set = EventTopicSet::from_hex(good, good, good, good, good).unwrap();
    assert_eq!(set.transfers.topic, [0x11; 32]);
    assert!(EventTopicSet::from_hex(good, good, "0x12", good, good).is_none());
}
