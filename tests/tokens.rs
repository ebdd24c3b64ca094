use chain_watch::tokens_handler::{Token, TokenProbe, TokensHandler, TraceEntry, TraceOutput};

fn word(v: u64) -> [u8; 32] {
    let mut w = [0u8; 32];
    w[24..].copy_from_slice(&v.to_be_bytes());
    w
}

fn complete(address: [u8; 20], name: &str) -> TokenProbe {
    TokenProbe {
        address,
        name: Some(name.to_string()),
        symbol: Some(name.to_uppercase()),
        decimals: Some(18),
        total_supply: Some(word(1_000_000)),
    }
}

#[test]
fn creations_are_found_in_order() {
    let handler = TokensHandler::new();
    let entries = vec![
        TraceEntry { result: Some(TraceOutput::Call) },
        TraceEntry { result: Some(TraceOutput::Create([1u8; 20])) },
        TraceEntry { result: None },
        TraceEntry { result: Some(TraceOutput::Create([2u8; 20])) },
    ];
    assert_eq!(handler.get_contract_addresses(&entries), vec![[1u8; 20], [2u8; 20]]);
    assert_eq!(handler.get_contract_address(&entries[0]), None);
}

#[test]
fn two_of_three_candidates_become_tokens() {
    let handler = TokensHandler::new();
    let entries = vec![
        TraceEntry { result: Some(TraceOutput::Create([1u8; 20])) },
        TraceEntry { result: Some(TraceOutput::Create([2u8; 20])) },
        TraceEntry { result: Some(TraceOutput::Create([3u8; 20])) },
    ];
    let addresses = handler.get_contract_addresses(&entries);
    assert_eq!(addresses.len(), 3);
    let mut failing = complete(addresses[1], "bad");
    failing.decimals = None;
    let probes = vec![complete(addresses[0], "one"), failing, complete(addresses[2], "three")];
    let tokens = handler.get_tokens([9u8; 20], &probes);
    assert_eq!(
        tokens,
        vec![
            Token {
                author: [9u8; 20],
                address: [1u8; 20],
                name: "one".to_string(),
                symbol: "ONE".to_string(),
                decimals: 18,
                total_supply: word(1_000_000),
            },
            Token {
                author: [9u8; 20],
                address: [3u8; 20],
                name: "three".to_string(),
                symbol: "THREE".to_string(),
                decimals: 18,
                total_supply: word(1_000_000),
            },
        ]
    );
}

#[test]
fn no_creation_yields_no_token() {
    let handler = TokensHandler::new();
    let entries = vec![TraceEntry { result: Some(TraceOutput::Call) }, TraceEntry { result: None }];
    let addresses = handler.get_contract_addresses(&entries);
    assert!(addresses.is_empty());
    assert!(handler.get_tokens([9u8; 20], &Vec::new()).is_empty());
}

#[test]
fn any_single_failed_query_discards_the_candidate() {
    let handler = TokensHandler::new();
    let mut a = complete([1u8; 20], "a");
    a.name = None;
    let mut b = complete([1u8; 20], "b");
    b.symbol = None;
    let mut c = complete([1u8; 20], "c");
    c.total_supply = None;
    for p in [a, b, c] {
        assert_eq!(handler.get_token([0u8; 20], &p), None);
    }
    let ok = handler.get_token([0u8; 20], &complete([1u8; 20], "d")).unwrap();
    assert_eq!(ok.name, "d");
    assert_eq!(ok.address, [1u8; 20]);
}

#[test]
fn discovery_is_repeatable() {
    let handler = TokensHandler::new();
    let entries = vec![
        TraceEntry { result: Some(TraceOutput::Create([4u8; 20])) },
        TraceEntry { result: Some(TraceOutput::Call) },
    ];
    let first = handler.get_contract_addresses(&entries);
    let second = handler.get_contract_addresses(&entries.clone());
    assert_eq!(first, second);
    let probes = vec![complete([4u8; 20], "four")];
    assert_eq!(handler.get_tokens([1u8; 20], &probes), handler.get_tokens([1u8; 20], &probes.clone()));
}
