use propchain_security_tests::bridge::BridgeState;

#[test]
fn new_ledger_is_empty() {
    let state = BridgeState::new();
    assert_eq!(state.get_request_count(), 0);
    assert!(state.get_bridged_tokens().is_empty());
    assert!(!state.is_token_bridged(1));
}

#[test]
fn bridging_records_requests_in_order() {
    let mut state = BridgeState::new();
    state.bridge_token(10, 5, vec![1u8; 32]);
    state.bridge_token(11, 999, vec![2u8; 32]);
    assert_eq!(state.get_request_count(), 2);
    let tokens = state.get_bridged_tokens();
    assert_eq!(tokens.len(), 2);
    assert_eq!((tokens[0].token_id, tokens[0].chain_id, tokens[0].timestamp), (10, 5, 0));
    assert_eq!((tokens[1].token_id, tokens[1].chain_id, tokens[1].timestamp), (11, 999, 1));
    assert_eq!(tokens[1].recipient, vec![2u8; 32]);
    assert!(state.is_token_bridged(10));
    assert!(state.is_token_bridged(11));
    assert!(!state.is_token_bridged(12));
}

#[test]
fn guarded_bridging_never_duplicates() {
    let mut state = BridgeState::new();
    let mut bridged = 0u64;
    for (token_id, chain_id) in [(1u64, 2u64), (1, 3), (2, 4), (2, 5), (3, 6)] {
        if !state.is_token_bridged(token_id) {
            state.bridge_token(token_id, chain_id, vec![0u8; 32]);
            bridged += 1;
        }
    }
    assert_eq!(bridged, 3);
    assert_eq!(state.get_request_count(), bridged);
    assert_eq!(state.get_bridged_tokens().len(), 3);
}
