use gmp_relay::errors::Failure;
use gmp_relay::errors::failure_message;
use gmp_relay::inbound::WORMHOLE_TRANSFER_ERC20_SELECTOR;
use gmp_relay::inbound::accept_call;

fn inbound_word32(n: u64) -> Vec<u8> {
    let mut w = vec![0u8; 24];
    w.extend_from_slice(&n.to_be_bytes());
    w
}

fn inbound_calldata(selector: u32, payload: &[u8]) -> Vec<u8> {
    let mut data = selector.to_be_bytes().to_vec();
    data.extend_from_slice(&inbound_word32(32));
    data.extend_from_slice(&inbound_word32(payload.len() as u64));
    data.extend_from_slice(payload);
    let pad = (32 - payload.len() % 32) % 32;
    data.extend_from_slice(&vec![0u8; pad]);
    data
}

#[test]
fn test_selector_less_than_four_bytes_reverts() {
    let r = accept_call(&vec![1u8, 2, 3]);
    assert_eq!(r, Err(Failure::SelectorTooShort));
    assert_eq!(
        failure_message(&Failure::SelectorTooShort),
        Some("tried to parse selector out of bounds")
    );
}

#[test]
fn test_unimplemented_selector_reverts() {
    let r = accept_call(&vec![1u8, 2, 3, 4]);
    assert_eq!(r, Err(Failure::UnknownSelector));
    assert_eq!(failure_message(&Failure::UnknownSelector), Some("unknown selector"));
}

#[test]
fn test_accept_call_decodes_argument() {
    let calldata = inbound_calldata(WORMHOLE_TRANSFER_ERC20_SELECTOR, &[9u8, 8, 7]);
    assert_eq!(accept_call(&calldata), Ok(vec![9u8, 8, 7]));
}

#[test]
fn test_accept_call_empty_argument() {
    let calldata = inbound_calldata(WORMHOLE_TRANSFER_ERC20_SELECTOR, &[]);
    assert_eq!(accept_call(&calldata), Ok(vec![]));
}

#[test]
fn test_accept_call_rejects_truncated_argument() {
    let mut calldata = WORMHOLE_TRANSFER_ERC20_SELECTOR.to_be_bytes().to_vec();
    calldata.extend_from_slice(&[0u8; 16]);
    assert_eq!(accept_call(&calldata), Err(Failure::MalformedCallData));
}

#[test]
fn test_accept_call_rejects_length_beyond_data() {
    let mut calldata = WORMHOLE_TRANSFER_ERC20_SELECTOR.to_be_bytes().to_vec();
    calldata.extend_from_slice(&inbound_word32(32));
    calldata.extend_from_slice(&inbound_word32(64));
    calldata.extend_from_slice(&[0u8; 32]);
    assert_eq!(accept_call(&calldata), Err(Failure::MalformedCallData));
}

#[test]
fn test_accept_call_rejects_oversized_message() {
    let payload = vec![5u8; 65537];
    let calldata = inbound_calldata(WORMHOLE_TRANSFER_ERC20_SELECTOR, &payload);
    assert_eq!(accept_call(&calldata), Err(Failure::MalformedCallData));
}

#[test]
fn test_accept_call_takes_message_at_bound() {
    let payload = vec![5u8; 65536];
    let calldata = inbound_calldata(WORMHOLE_TRANSFER_ERC20_SELECTOR, &payload);
    assert_eq!(accept_call(&calldata), Ok(payload));
}
