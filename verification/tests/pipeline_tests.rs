use gmp_relay::action::Junction;
use gmp_relay::action::Junctions;
use gmp_relay::errors::ExitReason;
use gmp_relay::errors::Failure;
use gmp_relay::errors::classify_exit;
use gmp_relay::inbound::WORMHOLE_TRANSFER_ERC20_SELECTOR;
use gmp_relay::pipeline::Action;
use gmp_relay::resolve::AssetRegistry;
use gmp_relay::pipeline::COMPLETE_TRANSFER_WITH_PAYLOAD_SELECTOR;
use gmp_relay::pipeline::Config;
use gmp_relay::pipeline::DEST_WEIGHT_LIMIT;
use gmp_relay::pipeline::DispatchOutcome;
use gmp_relay::pipeline::PARSE_TRANSFER_WITH_PAYLOAD_SELECTOR;
use gmp_relay::pipeline::PARSE_VM_SELECTOR;
use gmp_relay::pipeline::Stage;
use gmp_relay::pipeline::WeightLimit;
use gmp_relay::pipeline::build_config;
use gmp_relay::pipeline::next_action;
use gmp_relay::pipeline::on_dispatch_outcome;
use gmp_relay::pipeline::on_subcall_outcome;
use gmp_relay::pipeline::start_call;
use gmp_relay::resolve::AssetEntry;
use gmp_relay::resolve::CurrencyId;

fn run_word32(n: u64) -> Vec<u8> {
    let mut w = vec![0u8; 24];
    w.extend_from_slice(&n.to_be_bytes());
    w
}

fn run_abi_bytes(payload: &[u8]) -> Vec<u8> {
    let mut out = run_word32(32);
    out.extend_from_slice(&run_word32(payload.len() as u64));
    out.extend_from_slice(payload);
    let pad = (32 - payload.len() % 32) % 32;
    out.extend_from_slice(&vec![0u8; pad]);
    out
}

fn run_call_input(selector: u32, payload: &[u8]) -> Vec<u8> {
    let mut data = selector.to_be_bytes().to_vec();
    data.extend_from_slice(&run_abi_bytes(payload));
    data
}

fn run_config() -> Config {
    Config {
        verifier: vec![0x11u8; 20],
        bridge: vec![0x22u8; 20],
        self_address: vec![0x33u8; 20],
        registry: AssetRegistry {
            entries: vec![
                AssetEntry { account: vec![0xaau8; 20], currency: CurrencyId(7) },
            ],
        },
    }
}

/// The verifier's returned encoding of a verified message with this payload.
fn run_vm_output(vm_payload: &[u8]) -> Vec<u8> {
    run_abi_bytes(vm_payload)
}

/// The bridge's returned encoding of a transfer record.
fn run_transfer_output(token_byte: u8, amount: u64, payload: &[u8]) -> Vec<u8> {
    let mut out = vec![0u8; 12];
    out.extend_from_slice(&[token_byte; 20]);
    out.extend_from_slice(&run_word32(amount));
    out.extend_from_slice(&run_word32(96));
    out.extend_from_slice(&run_word32(payload.len() as u64));
    out.extend_from_slice(payload);
    let pad = (32 - payload.len() % 32) % 32;
    out.extend_from_slice(&vec![0u8; pad]);
    out
}

/// A user action sending the funds to parachain 42.
fn run_user_payload() -> Vec<u8> {
    let mut payload = vec![0u8, 1u8, 1u8, 0u8];
    payload.extend_from_slice(&42u32.to_be_bytes());
    payload
}

#[test]
fn test_classify_exit_all_reasons() {
    assert_eq!(classify_exit(ExitReason::Succeed, &vec![1u8]), Ok(()));
    assert_eq!(
        classify_exit(ExitReason::Revert, &vec![1u8, 2]),
        Err(Failure::SubRevert { output: vec![1u8, 2] })
    );
    assert_eq!(classify_exit(ExitReason::Error, &vec![]), Err(Failure::SubError));
    assert_eq!(classify_exit(ExitReason::Fatal, &vec![]), Err(Failure::SubFatal));
}

#[test]
fn test_build_config_parses_addresses() {
    let c = build_config(
        "0x5cc307268a1393ab9a764a20dace848ab8275c46",
        "0x7d4567b7257cf869b01a47e8cf0edb3814bdb963",
        vec![0x33u8; 20],
        AssetRegistry { entries: vec![] },
    )
    .unwrap();
    assert_eq!(c.verifier[0], 0x5c);
    assert_eq!(c.bridge[19], 0x63);
}

#[test]
fn test_build_config_rejects_bad_verifier() {
    let r = build_config("0xnope", "0x7d4567b7257cf869b01a47e8cf0edb3814bdb963", vec![
        0x33u8;
        20
    ], AssetRegistry { entries: vec![] });
    assert_eq!(r, Err(Failure::InvalidVerifierAddress));
}

#[test]
fn test_build_config_rejects_bad_bridge() {
    let r = build_config("0x5cc307268a1393ab9a764a20dace848ab8275c46", "bridge", vec![
        0x33u8;
        20
    ], AssetRegistry { entries: vec![] });
    assert_eq!(r, Err(Failure::InvalidBridgeAddress));
}

#[test]
fn test_end_to_end_success() {
    let cfg = run_config();
    let vaa = vec![0xf0u8, 0xf1, 0xf2];
    let calldata = run_call_input(WORMHOLE_TRANSFER_ERC20_SELECTOR, &vaa);

    let s0 = start_call(&calldata);
    assert_eq!(s0, Stage::AwaitVerify { vaa: vaa.clone() });
    match next_action(&cfg, &s0).unwrap() {
        Action::SubCall { target, input } => {
            assert_eq!(target, cfg.verifier);
            assert_eq!(input, run_call_input(PARSE_VM_SELECTOR, &vaa));
        },
        other => panic!("expected a sub-call, found {:?}", other),
    }

    let vm_payload = vec![0x55u8; 40];
    let s1 = on_subcall_outcome(&cfg, s0, ExitReason::Succeed, run_vm_output(&vm_payload));
    assert_eq!(s1, Stage::AwaitExtract { vaa: vaa.clone(), vm_payload: vm_payload.clone() });
    match next_action(&cfg, &s1).unwrap() {
        Action::SubCall { target, input } => {
            assert_eq!(target, cfg.bridge);
            assert_eq!(input, run_call_input(PARSE_TRANSFER_WITH_PAYLOAD_SELECTOR, &vm_payload));
        },
        other => panic!("expected a sub-call, found {:?}", other),
    }

    let extract_output = run_transfer_output(0xaa, 1000, &run_user_payload());
    let s2 = on_subcall_outcome(&cfg, s1, ExitReason::Succeed, extract_output);
    let mut completion_calls = 0;
    match next_action(&cfg, &s2).unwrap() {
        Action::SubCall { target, input } => {
            assert_eq!(target, cfg.bridge);
            assert_eq!(input, run_call_input(COMPLETE_TRANSFER_WITH_PAYLOAD_SELECTOR, &vaa));
            completion_calls += 1;
        },
        other => panic!("expected the completion sub-call, found {:?}", other),
    }
    assert_eq!(completion_calls, 1);

    let s3 = on_subcall_outcome(&cfg, s2, ExitReason::Succeed, vec![]);
    let mut dispatch_calls = 0;
    match next_action(&cfg, &s3).unwrap() {
        Action::Dispatch { transfer } => {
            assert_eq!(transfer.currency, CurrencyId(7));
            assert_eq!(transfer.amount, 1000);
            assert_eq!(transfer.destination.parents, 1);
            match &transfer.destination.junctions {
                Junctions::More { head, tail } => {
                    assert_eq!(*head, Junction::Parachain(42));
                    assert_eq!(**tail, Junctions::Here);
                },
                Junctions::Here => panic!("expected the decoded destination"),
            }
            assert_eq!(transfer.weight_limit, WeightLimit::Limited(DEST_WEIGHT_LIMIT));
            assert_eq!(transfer.origin, cfg.self_address);
            dispatch_calls += 1;
        },
        other => panic!("expected the dispatch, found {:?}", other),
    }
    assert_eq!(dispatch_calls, 1);

    let s4 = on_dispatch_outcome(s3, DispatchOutcome::Succeeded);
    assert_eq!(s4, Stage::Done);
    assert_eq!(next_action(&cfg, &s4), None);
}

#[test]
fn test_completion_revert_carries_bytes() {
    let cfg = run_config();
    let vaa = vec![0xf0u8, 0xf1, 0xf2];
    let calldata = run_call_input(WORMHOLE_TRANSFER_ERC20_SELECTOR, &vaa);
    let s0 = start_call(&calldata);
    let s1 = on_subcall_outcome(&cfg, s0, ExitReason::Succeed, run_vm_output(&[0x55u8; 40]));
    let extract_output = run_transfer_output(0xaa, 1000, &run_user_payload());
    let s2 = on_subcall_outcome(&cfg, s1, ExitReason::Succeed, extract_output);
    let s3 = on_subcall_outcome(
        &cfg,
        s2,
        ExitReason::Revert,
        b"insufficient custody".to_vec(),
    );
    assert_eq!(
        s3,
        Stage::Failed {
            failure: Failure::SubRevert { output: b"insufficient custody".to_vec() }
        }
    );
    assert_eq!(next_action(&cfg, &s3), None);
}

#[test]
fn test_verifier_revert_carries_bytes() {
    let cfg = run_config();
    let calldata = run_call_input(WORMHOLE_TRANSFER_ERC20_SELECTOR, &[1u8]);
    let s0 = start_call(&calldata);
    let s1 = on_subcall_outcome(&cfg, s0, ExitReason::Revert, b"bad signatures".to_vec());
    assert_eq!(
        s1,
        Stage::Failed { failure: Failure::SubRevert { output: b"bad signatures".to_vec() } }
    );
    assert_eq!(next_action(&cfg, &s1), None);
}

#[test]
fn test_replayed_message_rejection_propagates() {
    let cfg = run_config();
    let vaa = vec![0xf0u8, 0xf1, 0xf2];
    let calldata = run_call_input(WORMHOLE_TRANSFER_ERC20_SELECTOR, &vaa);

    let s0 = start_call(&calldata);
    let s1 = on_subcall_outcome(&cfg, s0, ExitReason::Succeed, run_vm_output(&[0x55u8; 40]));
    let s2 = on_subcall_outcome(
        &cfg,
        s1,
        ExitReason::Succeed,
        run_transfer_output(0xaa, 1000, &run_user_payload()),
    );
    let s3 = on_subcall_outcome(&cfg, s2, ExitReason::Succeed, vec![]);
    let s4 = on_dispatch_outcome(s3, DispatchOutcome::Succeeded);
    assert_eq!(s4, Stage::Done);

    // The same message a second time: the external verifier refuses the
    // replay, and the pipeline hands its rejection on as a classified
    // failure.
    let r0 = start_call(&calldata);
    let r1 = on_subcall_outcome(&cfg, r0, ExitReason::Revert, b"vaa already executed".to_vec());
    assert_eq!(
        r1,
        Stage::Failed {
            failure: Failure::SubRevert { output: b"vaa already executed".to_vec() }
        }
    );
}

#[test]
fn test_unsupported_asset_stops_pipeline() {
    let cfg = run_config();
    let vaa = vec![0xf0u8];
    let calldata = run_call_input(WORMHOLE_TRANSFER_ERC20_SELECTOR, &vaa);
    let s0 = start_call(&calldata);
    let s1 = on_subcall_outcome(&cfg, s0, ExitReason::Succeed, run_vm_output(&[0x55u8; 40]));
    let extract_output = run_transfer_output(0xbb, 1000, &run_user_payload());
    let s2 = on_subcall_outcome(&cfg, s1, ExitReason::Succeed, extract_output);
    assert_eq!(s2, Stage::Failed { failure: Failure::UnsupportedAsset });
    assert_eq!(next_action(&cfg, &s2), None);
}

#[test]
fn test_wide_token_address_stops_pipeline() {
    let cfg = run_config();
    let calldata = run_call_input(WORMHOLE_TRANSFER_ERC20_SELECTOR, &[1u8]);
    let s0 = start_call(&calldata);
    let s1 = on_subcall_outcome(&cfg, s0, ExitReason::Succeed, run_vm_output(&[0x55u8; 40]));
    let mut extract_output = run_transfer_output(0xaa, 1000, &run_user_payload());
    extract_output[3] = 1;
    let s2 = on_subcall_outcome(&cfg, s1, ExitReason::Succeed, extract_output);
    assert_eq!(s2, Stage::Failed { failure: Failure::TokenAddressTooWide });
}

#[test]
fn test_amount_overflow_stops_pipeline() {
    let cfg = run_config();
    let calldata = run_call_input(WORMHOLE_TRANSFER_ERC20_SELECTOR, &[1u8]);
    let s0 = start_call(&calldata);
    let s1 = on_subcall_outcome(&cfg, s0, ExitReason::Succeed, run_vm_output(&[0x55u8; 40]));
    let mut extract_output = run_transfer_output(0xaa, 1000, &run_user_payload());
    extract_output[40] = 1;
    let s2 = on_subcall_outcome(&cfg, s1, ExitReason::Succeed, extract_output);
    assert_eq!(s2, Stage::Failed { failure: Failure::AmountOverflow });
}

#[test]
fn test_invalid_user_payload_stops_pipeline() {
    let cfg = run_config();
    let calldata = run_call_input(WORMHOLE_TRANSFER_ERC20_SELECTOR, &[1u8]);
    let s0 = start_call(&calldata);
    let s1 = on_subcall_outcome(&cfg, s0, ExitReason::Succeed, run_vm_output(&[0x55u8; 40]));
    let extract_output = run_transfer_output(0xaa, 1000, &[0xffu8, 0xee]);
    let s2 = on_subcall_outcome(&cfg, s1, ExitReason::Succeed, extract_output);
    assert_eq!(s2, Stage::Failed { failure: Failure::InvalidPayload });
}

#[test]
fn test_malformed_verifier_output_stops_pipeline() {
    let cfg = run_config();
    let calldata = run_call_input(WORMHOLE_TRANSFER_ERC20_SELECTOR, &[1u8]);
    let s0 = start_call(&calldata);
    let s1 = on_subcall_outcome(&cfg, s0, ExitReason::Succeed, vec![0u8; 16]);
    assert_eq!(s1, Stage::Failed { failure: Failure::MalformedVerifierOutput });
}

#[test]
fn test_malformed_transfer_output_stops_pipeline() {
    let cfg = run_config();
    let calldata = run_call_input(WORMHOLE_TRANSFER_ERC20_SELECTOR, &[1u8]);
    let s0 = start_call(&calldata);
    let s1 = on_subcall_outcome(&cfg, s0, ExitReason::Succeed, run_vm_output(&[0x55u8; 40]));
    let s2 = on_subcall_outcome(&cfg, s1, ExitReason::Succeed, vec![0u8; 64]);
    assert_eq!(s2, Stage::Failed { failure: Failure::MalformedTransferOutput });
}

#[test]
fn test_sub_error_and_fatal_classified() {
    let cfg = run_config();
    let calldata = run_call_input(WORMHOLE_TRANSFER_ERC20_SELECTOR, &[1u8]);
    let s0 = start_call(&calldata);
    let s1 = on_subcall_outcome(&cfg, s0, ExitReason::Error, vec![]);
    assert_eq!(s1, Stage::Failed { failure: Failure::SubError });
    let t0 = start_call(&calldata);
    let t1 = on_subcall_outcome(&cfg, t0, ExitReason::Fatal, vec![]);
    assert_eq!(t1, Stage::Failed { failure: Failure::SubFatal });
}

#[test]
fn test_dispatch_failure_propagates() {
    let cfg = run_config();
    let vaa = vec![0xf0u8];
    let calldata = run_call_input(WORMHOLE_TRANSFER_ERC20_SELECTOR, &vaa);
    let s0 = start_call(&calldata);
    let s1 = on_subcall_outcome(&cfg, s0, ExitReason::Succeed, run_vm_output(&[0x55u8; 40]));
    let s2 = on_subcall_outcome(
        &cfg,
        s1,
        ExitReason::Succeed,
        run_transfer_output(0xaa, 1000, &run_user_payload()),
    );
    let s3 = on_subcall_outcome(&cfg, s2, ExitReason::Succeed, vec![]);
    let s4 = on_dispatch_outcome(s3, DispatchOutcome::Failed { output: b"no route".to_vec() });
    assert_eq!(
        s4,
        Stage::Failed { failure: Failure::DispatchFailed { output: b"no route".to_vec() } }
    );
    assert_eq!(next_action(&cfg, &s4), None);
}

#[test]
fn test_rejected_calldata_never_calls_out() {
    let cfg = run_config();
    let s = start_call(&vec![1u8, 2]);
    assert_eq!(s, Stage::Failed { failure: Failure::SelectorTooShort });
    assert_eq!(next_action(&cfg, &s), None);
}
