//! The relay pipeline as a verified state machine.
//!
//! Control flow is strictly sequential and single-shot per invocation:
//! verify, extract, decode and resolve, complete, dispatch.  Each waiting
//! stage names the external work the host must perform next
//! ([`next_action`]); each host outcome drives one verified transition
//! ([`on_subcall_outcome`], [`on_dispatch_outcome`]).  `Done` and `Failed`
//! are the only terminal stages; any stage failing makes the whole
//! invocation fail, and the host's atomicity rolls back partial work.
//!
//! Every sub-call the machine requests is synchronous, carries zero native
//! value, forwards the caller's full remaining gas budget, and is made with
//! the pipeline's own address as caller.  The library holds no state across
//! invocations: a replayed message is re-verified by the external
//! collaborators, whose rejection comes back as an ordinary classified
//! failure.

use vstd::prelude::*;
use vstd::string::StringSliceAdditionalSpecFns;
use crate::MAX_MESSAGE_BYTES;
use crate::abi::{
    TransferRecordV, decode_transfer_return, decode_vm_return, encode_bytes_call,
    spec_decode_transfer_return, spec_decode_vm_return, spec_encode_bytes_call,
};
use crate::action::{
    Location, LocationV, UserAction, UserActionV, copy_location, decode_user_action,
    location_view, spec_decode_user_action,
};
use crate::bytes::copy_bytes;
use crate::errors::{ExitReason, Failure, FailureV, classify_exit, spec_classify};
use crate::inbound::{accept_call, spec_accept_call};
use crate::resolve::{AssetEntry, AssetRegistry, ResolvedTransfer, resolve_transfer,
    spec_account_of_address, spec_resolve, account_of_address};

verus! {

/// Selector of the verifier's parse entry point, "parseVM(bytes)".
pub const PARSE_VM_SELECTOR: u32 = 0xa9e11893;

/// Selector of the bridge's parse entry point,
/// "parseTransferWithPayload(bytes)".
pub const PARSE_TRANSFER_WITH_PAYLOAD_SELECTOR: u32 = 0xea63738d;

/// Selector of the bridge's completion entry point,
/// "completeTransferWithPayload(bytes)".
pub const COMPLETE_TRANSFER_WITH_PAYLOAD_SELECTOR: u32 = 0xc0fd8bde;

/// The fixed weight ceiling attached to every outbound transfer instruction.
pub const DEST_WEIGHT_LIMIT: u64 = 1000000000000;

/// The resource ceiling the destination chain may spend on an instruction.
#[derive(Debug, Clone, Copy, PartialEq, Eq, Structural)]
pub enum WeightLimit {
    /// No ceiling.
    Unlimited,
    /// At most this much weight.
    Limited(u64),
}

/// The pipeline's configuration: the external contract addresses, the
/// pipeline's own address, and the injected currency registry.
#[derive(Debug, PartialEq, Eq)]
pub struct Config {
    /// The external verifier contract's 20-byte address.
    pub verifier: Vec<u8>,
    /// The external bridge contract's 20-byte address.
    pub bridge: Vec<u8>,
    /// This pipeline's own 20-byte address.
    pub self_address: Vec<u8>,
    /// The account-to-currency lookup table.
    pub registry: AssetRegistry,
}

/// Mathematical mirror of [`Config`].
pub struct ConfigV {
    pub verifier: Seq<u8>,
    pub bridge: Seq<u8>,
    pub self_address: Seq<u8>,
    pub registry: Seq<AssetEntry>,
}

impl View for Config {
    type V = ConfigV;

    open spec fn view(&self) -> ConfigV {
        ConfigV {
            verifier: self.verifier@,
            bridge: self.bridge@,
            self_address: self.self_address@,
            registry: self.registry.entries@,
        }
    }
}

/// A configuration's addresses are 20 bytes each.
pub open spec fn wf_config(c: ConfigV) -> bool {
    c.verifier.len() == 20 && c.bridge.len() == 20 && c.self_address.len() == 20
}

/// The outbound cross-chain transfer instruction handed to the dispatch
/// layer: so much of this currency to that destination, under the fixed
/// weight ceiling, originated by the pipeline's own canonical account.
#[derive(Debug, PartialEq, Eq)]
pub struct TransferInstruction {
    pub currency: crate::resolve::CurrencyId,
    pub amount: u128,
    pub destination: Location,
    pub weight_limit: WeightLimit,
    /// The canonical account the transfer originates from.
    pub origin: Vec<u8>,
}

/// Mathematical mirror of [`TransferInstruction`].
pub struct TransferInstructionV {
    pub currency: crate::resolve::CurrencyId,
    pub amount: u128,
    pub destination: LocationV,
    pub weight_limit: WeightLimit,
    pub origin: Seq<u8>,
}

impl View for TransferInstruction {
    type V = TransferInstructionV;

    open spec fn view(&self) -> TransferInstructionV {
        TransferInstructionV {
            currency: self.currency,
            amount: self.amount,
            destination: location_view(self.destination),
            weight_limit: self.weight_limit,
            origin: self.origin@,
        }
    }
}

/// The outcome the host reports for an outbound dispatch.
#[derive(Debug, PartialEq, Eq)]
pub enum DispatchOutcome {
    /// The dispatch layer accepted the instruction.
    Succeeded,
    /// The dispatch layer rejected it; `output` is its reason.
    Failed { output: Vec<u8> },
}

/// Mathematical mirror of [`DispatchOutcome`].
pub enum DispatchOutcomeV {
    Succeeded,
    Failed { output: Seq<u8> },
}

impl View for DispatchOutcome {
    type V = DispatchOutcomeV;

    open spec fn view(&self) -> DispatchOutcomeV {
        match self {
            DispatchOutcome::Succeeded => DispatchOutcomeV::Succeeded,
            DispatchOutcome::Failed { output } => DispatchOutcomeV::Failed { output: output@ },
        }
    }
}

/// The pipeline's stage.  The three waiting stages carry exactly what the
/// remaining work needs; no partially parsed value crosses a stage boundary.
#[derive(Debug, PartialEq, Eq)]
pub enum Stage {
    /// Waiting for the verifier's parse of the raw message.
    AwaitVerify { vaa: Vec<u8> },
    /// Waiting for the bridge's parse of the verified message's payload.
    AwaitExtract { vaa: Vec<u8>, vm_payload: Vec<u8> },
    /// Waiting for the bridge to complete the custody transfer.
    AwaitComplete { vaa: Vec<u8>, resolved: ResolvedTransfer, destination: Location },
    /// Waiting for the dispatch layer's verdict on the outbound transfer.
    AwaitDispatch { resolved: ResolvedTransfer, destination: Location },
    /// The invocation succeeded with empty output.
    Done,
    /// The invocation failed; nothing further happens.
    Failed { failure: Failure },
}

/// Mathematical mirror of [`Stage`].
pub enum StageV {
    AwaitVerify { vaa: Seq<u8> },
    AwaitExtract { vaa: Seq<u8>, vm_payload: Seq<u8> },
    AwaitComplete { vaa: Seq<u8>, resolved: ResolvedTransfer, destination: LocationV },
    AwaitDispatch { resolved: ResolvedTransfer, destination: LocationV },
    Done,
    Failed { failure: FailureV },
}

impl View for Stage {
    type V = StageV;

    open spec fn view(&self) -> StageV {
        match self {
            Stage::AwaitVerify { vaa } => StageV::AwaitVerify { vaa: vaa@ },
            Stage::AwaitExtract { vaa, vm_payload } => StageV::AwaitExtract {
                vaa: vaa@,
                vm_payload: vm_payload@,
            },
            Stage::AwaitComplete { vaa, resolved, destination } => StageV::AwaitComplete {
                vaa: vaa@,
                resolved: *resolved,
                destination: location_view(*destination),
            },
            Stage::AwaitDispatch { resolved, destination } => StageV::AwaitDispatch {
                resolved: *resolved,
                destination: location_view(*destination),
            },
            Stage::Done => StageV::Done,
            Stage::Failed { failure } => StageV::Failed { failure: failure@ },
        }
    }
}

/// The byte payloads a stage carries stay within the message bound, so the
/// sub-call encodings it induces exist.
pub open spec fn wf_stage(st: StageV) -> bool {
    match st {
        StageV::AwaitVerify { vaa } => vaa.len() <= MAX_MESSAGE_BYTES,
        StageV::AwaitExtract { vaa, vm_payload } => vaa.len() <= MAX_MESSAGE_BYTES
            && vm_payload.len() <= MAX_MESSAGE_BYTES,
        StageV::AwaitComplete { vaa, resolved, destination } => vaa.len() <= MAX_MESSAGE_BYTES,
        _ => true,
    }
}

/// The external work a stage asks of the host.
///
/// A `SubCall` is synchronous, with this pipeline's own address as caller,
/// zero native value, and the full remaining gas budget forwarded.
#[derive(Debug, PartialEq, Eq)]
pub enum Action {
    /// Call the contract at `target` with `input` as call data.
    SubCall { target: Vec<u8>, input: Vec<u8> },
    /// Hand the outbound transfer instruction to the dispatch layer.
    Dispatch { transfer: TransferInstruction },
}

/// Mathematical mirror of [`Action`].
pub enum ActionV {
    SubCall { target: Seq<u8>, input: Seq<u8> },
    Dispatch { transfer: TransferInstructionV },
}

impl View for Action {
    type V = ActionV;

    open spec fn view(&self) -> ActionV {
        match self {
            Action::SubCall { target, input } => ActionV::SubCall {
                target: target@,
                input: input@,
            },
            Action::Dispatch { transfer } => ActionV::Dispatch { transfer: transfer@ },
        }
    }
}

/// The first stage of an accepted inbound call: the raw message, or the
/// failure that rejected the call data.
pub open spec fn spec_start_call(calldata: Seq<u8>) -> StageV {
    match spec_accept_call(calldata) {
        Ok(message) => StageV::AwaitVerify { vaa: message },
        Err(f) => StageV::Failed { failure: f },
    }
}

/// The external work each stage requires: the verifier parse, the bridge
/// parse, the bridge completion (re-submitting the original raw message),
/// or the outbound dispatch.  Terminal stages require none.
pub open spec fn spec_next_action(cfg: ConfigV, st: StageV) -> Option<ActionV> {
    match st {
        StageV::AwaitVerify { vaa } => Some(
            ActionV::SubCall {
                target: cfg.verifier,
                input: spec_encode_bytes_call(PARSE_VM_SELECTOR, vaa),
            },
        ),
        StageV::AwaitExtract { vaa, vm_payload } => Some(
            ActionV::SubCall {
                target: cfg.bridge,
                input: spec_encode_bytes_call(PARSE_TRANSFER_WITH_PAYLOAD_SELECTOR, vm_payload),
            },
        ),
        StageV::AwaitComplete { vaa, resolved, destination } => Some(
            ActionV::SubCall {
                target: cfg.bridge,
                input: spec_encode_bytes_call(COMPLETE_TRANSFER_WITH_PAYLOAD_SELECTOR, vaa),
            },
        ),
        StageV::AwaitDispatch { resolved, destination } => Some(
            ActionV::Dispatch {
                transfer: TransferInstructionV {
                    currency: resolved.currency,
                    amount: resolved.amount,
                    destination,
                    weight_limit: WeightLimit::Limited(DEST_WEIGHT_LIMIT),
                    origin: spec_account_of_address(cfg.self_address),
                },
            },
        ),
        StageV::Done => None,
        StageV::Failed { failure } => None,
    }
}

/// The stage that follows a sub-call's outcome: a classified failure aborts;
/// otherwise the callee's output is decoded and the pipeline advances.  At
/// the extract stage the user action is decoded and the asset resolved
/// before any custody transfer is requested.
pub open spec fn spec_step_subcall(cfg: ConfigV, st: StageV, reason: ExitReason, output: Seq<u8>)
    -> StageV {
    match st {
        StageV::AwaitVerify { vaa } => match spec_classify(reason, output) {
            Err(f) => StageV::Failed { failure: f },
            Ok(u) => match spec_decode_vm_return(output) {
                None => StageV::Failed { failure: FailureV::MalformedVerifierOutput },
                Some(vm) => StageV::AwaitExtract { vaa, vm_payload: vm.payload },
            },
        },
        StageV::AwaitExtract { vaa, vm_payload } => match spec_classify(reason, output) {
            Err(f) => StageV::Failed { failure: f },
            Ok(u) => match spec_decode_transfer_return(output) {
                None => StageV::Failed { failure: FailureV::MalformedTransferOutput },
                Some(record) => match spec_decode_user_action(record.payload) {
                    None => StageV::Failed { failure: FailureV::InvalidPayload },
                    Some(action) => match action {
                        UserActionV::V1 { destination } => match spec_resolve(
                            record,
                            cfg.registry,
                        ) {
                            Err(f) => StageV::Failed { failure: f },
                            Ok(resolved) => StageV::AwaitComplete { vaa, resolved, destination },
                        },
                    },
                },
            },
        },
        StageV::AwaitComplete { vaa, resolved, destination } => match spec_classify(
            reason,
            output,
        ) {
            Err(f) => StageV::Failed { failure: f },
            Ok(u) => StageV::AwaitDispatch { resolved, destination },
        },
        _ => st,
    }
}

/// The stage that follows the dispatch layer's verdict.
pub open spec fn spec_step_dispatch(st: StageV, outcome: DispatchOutcomeV) -> StageV {
    match st {
        StageV::AwaitDispatch { resolved, destination } => match outcome {
            DispatchOutcomeV::Succeeded => StageV::Done,
            DispatchOutcomeV::Failed { output } => StageV::Failed {
                failure: FailureV::DispatchFailed { output },
            },
        },
        _ => st,
    }
}

/// Builds a configuration from the external contracts' textual addresses,
/// the pipeline's own address, and the injected registry.
///
/// The contract addresses are deployment placeholders supplied as text; a
/// malformed one is rejected with its own failure before any message is
/// handled.
pub fn build_config(
    verifier_hex: &str,
    bridge_hex: &str,
    self_address: Vec<u8>,
    registry: AssetRegistry,
) -> (r: Result<Config, Failure>)
    requires
        self_address@.len() == 20,
    ensures
        match r {
            Ok(c) => crate::hex::spec_parse_hex_address(verifier_hex.spec_bytes()) == Some(
                c@.verifier,
            ) && crate::hex::spec_parse_hex_address(bridge_hex.spec_bytes()) == Some(c@.bridge)
                && c@.self_address == self_address@ && c@.registry == registry.entries@
                && wf_config(c@),
            Err(f) => match f@ {
                FailureV::InvalidVerifierAddress => crate::hex::spec_parse_hex_address(
                    verifier_hex.spec_bytes(),
                ) is None,
                FailureV::InvalidBridgeAddress => crate::hex::spec_parse_hex_address(
                    bridge_hex.spec_bytes(),
                ) is None,
                _ => false,
            },
        },
{
    let verifier: Vec<u8> = match crate::hex::parse_hex_address(verifier_hex) {
        Some(a) => a,
        None => {
            return Err(Failure::InvalidVerifierAddress);
        },
    };
    let bridge: Vec<u8> = match crate::hex::parse_hex_address(bridge_hex) {
        Some(a) => a,
        None => {
            return Err(Failure::InvalidBridgeAddress);
        },
    };
    Ok(Config { verifier, bridge, self_address, registry })
}

/// Accepts an inbound call and enters the pipeline.
pub fn start_call(calldata: &Vec<u8>) -> (s: Stage)
    ensures
        s@ == spec_start_call(calldata@),
        wf_stage(s@),
{
    match accept_call(calldata) {
        Ok(message) => Stage::AwaitVerify { vaa: message },
        Err(f) => Stage::Failed { failure: f },
    }
}

/// The external work the given stage asks of the host, if any.
pub fn next_action(cfg: &Config, stage: &Stage) -> (r: Option<Action>)
    requires
        wf_config(cfg@),
        wf_stage(stage@),
    ensures
        match r {
            Some(a) => spec_next_action(cfg@, stage@) == Some(a@),
            None => spec_next_action(cfg@, stage@) is None,
        },
{
    match stage {
        Stage::AwaitVerify { vaa } => Some(
            Action::SubCall {
                target: copy_bytes(&cfg.verifier),
                input: encode_bytes_call(PARSE_VM_SELECTOR, vaa),
            },
        ),
        Stage::AwaitExtract { vaa, vm_payload } => Some(
            Action::SubCall {
                target: copy_bytes(&cfg.bridge),
                input: encode_bytes_call(PARSE_TRANSFER_WITH_PAYLOAD_SELECTOR, vm_payload),
            },
        ),
        Stage::AwaitComplete { vaa, resolved, destination } => Some(
            Action::SubCall {
                target: copy_bytes(&cfg.bridge),
                input: encode_bytes_call(COMPLETE_TRANSFER_WITH_PAYLOAD_SELECTOR, vaa),
            },
        ),
        Stage::AwaitDispatch { resolved, destination } => Some(
            Action::Dispatch {
                transfer: TransferInstruction {
                    currency: resolved.currency,
                    amount: resolved.amount,
                    destination: copy_location(destination),
                    weight_limit: WeightLimit::Limited(DEST_WEIGHT_LIMIT),
                    origin: account_of_address(&cfg.self_address),
                },
            },
        ),
        Stage::Done => None,
        Stage::Failed { failure } => None,
    }
}

/// Advances a waiting sub-call stage on the host's reported outcome.
pub fn on_subcall_outcome(cfg: &Config, stage: Stage, reason: ExitReason, output: Vec<u8>) -> (next:
    Stage)
    requires
        stage@ is AwaitVerify || stage@ is AwaitExtract || stage@ is AwaitComplete,
        wf_stage(stage@),
    ensures
        next@ == spec_step_subcall(cfg@, stage@, reason, output@),
        wf_stage(next@),
{
    match stage {
        Stage::AwaitVerify { vaa } => match classify_exit(reason, &output) {
            Err(f) => Stage::Failed { failure: f },
            Ok(u) => match decode_vm_return(&output) {
                None => Stage::Failed { failure: Failure::MalformedVerifierOutput },
                Some(vm) => Stage::AwaitExtract { vaa, vm_payload: vm.payload },
            },
        },
        Stage::AwaitExtract { vaa, vm_payload } => match classify_exit(reason, &output) {
            Err(f) => Stage::Failed { failure: f },
            Ok(u) => match decode_transfer_return(&output) {
                None => Stage::Failed { failure: Failure::MalformedTransferOutput },
                Some(record) => match decode_user_action(&record.payload) {
                    None => Stage::Failed { failure: Failure::InvalidPayload },
                    Some(action) => match action {
                        UserAction::V1 { destination } => match resolve_transfer(
                            &record,
                            &cfg.registry,
                        ) {
                            Err(f) => Stage::Failed { failure: f },
                            Ok(resolved) => Stage::AwaitComplete { vaa, resolved, destination },
                        },
                    },
                },
            },
        },
        Stage::AwaitComplete { vaa, resolved, destination } => match classify_exit(
            reason,
            &output,
        ) {
            Err(f) => Stage::Failed { failure: f },
            Ok(u) => Stage::AwaitDispatch { resolved, destination },
        },
        s => s,
    }
}

/// Advances the dispatch stage on the dispatch layer's verdict.
pub fn on_dispatch_outcome(stage: Stage, outcome: DispatchOutcome) -> (next: Stage)
    requires
        stage@ is AwaitDispatch,
    ensures
        next@ == spec_step_dispatch(stage@, outcome@),
{
    match stage {
        Stage::AwaitDispatch { resolved, destination } => match outcome {
            DispatchOutcome::Succeeded => Stage::Done,
            DispatchOutcome::Failed { output } => Stage::Failed {
                failure: Failure::DispatchFailed { output },
            },
        },
        s => s,
    }
}

/// The stage a whole invocation ends in, given the inbound call data and
/// the host's outcome for each piece of external work, in pipeline order.
/// Later outcomes are ignored as soon as a stage fails.
pub open spec fn spec_run(
    cfg: ConfigV,
    calldata: Seq<u8>,
    verify: (ExitReason, Seq<u8>),
    extract: (ExitReason, Seq<u8>),
    complete: (ExitReason, Seq<u8>),
    dispatch: DispatchOutcomeV,
) -> StageV {
    let s0 = spec_start_call(calldata);
    if !(s0 is AwaitVerify) {
        s0
    } else {
        let s1 = spec_step_subcall(cfg, s0, verify.0, verify.1);
        if !(s1 is AwaitExtract) {
            s1
        } else {
            let s2 = spec_step_subcall(cfg, s1, extract.0, extract.1);
            if !(s2 is AwaitComplete) {
                s2
            } else {
                let s3 = spec_step_subcall(cfg, s2, complete.0, complete.1);
                if !(s3 is AwaitDispatch) {
                    s3
                } else {
                    spec_step_dispatch(s3, dispatch)
                }
            }
        }
    }
}

/// `Done` and `Failed` are the only terminal stages: exactly they ask no
/// further work of the host.
pub proof fn lemma_terminal_stages_ask_nothing(cfg: ConfigV, st: StageV)
    ensures
        (spec_next_action(cfg, st) is None) <==> (st is Done || st is Failed),
{
}

/// A revert reported for any waiting sub-call aborts the pipeline with a
/// failure that carries exactly the callee's output bytes, unmodified.
pub proof fn lemma_subcall_revert_carries_output(cfg: ConfigV, st: StageV, output: Seq<u8>)
    requires
        st is AwaitVerify || st is AwaitExtract || st is AwaitComplete,
    ensures
        spec_step_subcall(cfg, st, ExitReason::Revert, output) == (StageV::Failed {
            failure: FailureV::SubRevert { output },
        }),
{
}

/// When the verifier rejects the raw message — on a first submission or on
/// a replay, which the external collaborators are responsible for refusing
/// — the whole invocation fails with exactly the verifier's output bytes,
/// whatever the later outcomes would have been.
pub proof fn lemma_verifier_revert_run(
    cfg: ConfigV,
    calldata: Seq<u8>,
    revert_output: Seq<u8>,
    extract: (ExitReason, Seq<u8>),
    complete: (ExitReason, Seq<u8>),
    dispatch: DispatchOutcomeV,
)
    requires
        spec_start_call(calldata) is AwaitVerify,
    ensures
        spec_run(cfg, calldata, (ExitReason::Revert, revert_output), extract, complete, dispatch)
            == (StageV::Failed { failure: FailureV::SubRevert { output: revert_output } }),
{
}

/// A token that maps to no registered currency aborts the pipeline at the
/// extract stage with the unsupported-asset reason, and the failed pipeline
/// asks for no completion sub-call and no dispatch.
pub proof fn lemma_unsupported_asset_aborts(
    cfg: ConfigV,
    st: StageV,
    output: Seq<u8>,
    record: TransferRecordV,
    address: Seq<u8>,
)
    requires
        (st is AwaitExtract),
        spec_decode_transfer_return(output) == Some(record),
        (spec_decode_user_action(record.payload) is Some),
        crate::resolve::spec_narrow_address(record.token_address) == Some(address),
        (crate::resolve::spec_lookup(cfg.registry, spec_account_of_address(address)) is None),
    ensures
        spec_step_subcall(cfg, st, ExitReason::Succeed, output) == (StageV::Failed {
            failure: FailureV::UnsupportedAsset,
        }),
        (spec_next_action(
            cfg,
            spec_step_subcall(cfg, st, ExitReason::Succeed, output),
        ) is None),
{
    match spec_decode_user_action(record.payload) {
        Some(action) => {
            match action {
                UserActionV::V1 { destination } => {
                    assert(spec_resolve(record, cfg.registry) == Err::<
                        ResolvedTransfer,
                        FailureV,
                    >(FailureV::UnsupportedAsset));
                },
            }
        },
        None => {
        },
    }
}

/// A well-formed invocation runs the whole pipeline: when the call data is
/// accepted, the verifier's parse succeeds and decodes, the bridge's parse
/// succeeds and yields a transfer whose action decodes and whose asset
/// resolves, the completion sub-call succeeds, and the dispatch layer
/// accepts, the invocation ends in `Done` — having asked for exactly one
/// completion sub-call, re-submitting the original raw message to the
/// bridge, and then exactly one dispatch of the resolved transfer to the
/// decoded destination.
pub proof fn lemma_successful_run(
    cfg: ConfigV,
    calldata: Seq<u8>,
    vaa: Seq<u8>,
    verify_output: Seq<u8>,
    vm_payload: Seq<u8>,
    extract_output: Seq<u8>,
    record: TransferRecordV,
    destination: LocationV,
    resolved: ResolvedTransfer,
    complete_output: Seq<u8>,
)
    requires
        spec_accept_call(calldata) == Ok::<Seq<u8>, FailureV>(vaa),
        spec_decode_vm_return(verify_output) == Some(
            crate::abi::VerifiedMessageV { payload: vm_payload },
        ),
        spec_decode_transfer_return(extract_output) == Some(record),
        spec_decode_user_action(record.payload) == Some(UserActionV::V1 { destination }),
        spec_resolve(record, cfg.registry) == Ok::<ResolvedTransfer, FailureV>(resolved),
    ensures
        spec_run(
            cfg,
            calldata,
            (ExitReason::Succeed, verify_output),
            (ExitReason::Succeed, extract_output),
            (ExitReason::Succeed, complete_output),
            DispatchOutcomeV::Succeeded,
        ) == StageV::Done,
        spec_next_action(cfg, StageV::AwaitComplete { vaa, resolved, destination }) == Some(
            ActionV::SubCall {
                target: cfg.bridge,
                input: spec_encode_bytes_call(COMPLETE_TRANSFER_WITH_PAYLOAD_SELECTOR, vaa),
            },
        ),
        spec_next_action(cfg, StageV::AwaitDispatch { resolved, destination }) == Some(
            ActionV::Dispatch {
                transfer: TransferInstructionV {
                    currency: resolved.currency,
                    amount: resolved.amount,
                    destination,
                    weight_limit: WeightLimit::Limited(DEST_WEIGHT_LIMIT),
                    origin: spec_account_of_address(cfg.self_address),
                },
            },
        ),
{
}

/// The same well-formed invocation, but the completion sub-call reverts:
/// the invocation fails carrying exactly the completion callee's output
/// bytes, whatever the dispatch layer would have answered — the dispatcher
/// is never reached, a failed stage asking no further work.
pub proof fn lemma_completion_revert_run(
    cfg: ConfigV,
    calldata: Seq<u8>,
    vaa: Seq<u8>,
    verify_output: Seq<u8>,
    vm_payload: Seq<u8>,
    extract_output: Seq<u8>,
    record: TransferRecordV,
    destination: LocationV,
    resolved: ResolvedTransfer,
    revert_output: Seq<u8>,
    dispatch: DispatchOutcomeV,
)
    requires
        spec_accept_call(calldata) == Ok::<Seq<u8>, FailureV>(vaa),
        spec_decode_vm_return(verify_output) == Some(
            crate::abi::VerifiedMessageV { payload: vm_payload },
        ),
        spec_decode_transfer_return(extract_output) == Some(record),
        spec_decode_user_action(record.payload) == Some(UserActionV::V1 { destination }),
        spec_resolve(record, cfg.registry) == Ok::<ResolvedTransfer, FailureV>(resolved),
    ensures
        spec_run(
            cfg,
            calldata,
            (ExitReason::Succeed, verify_output),
            (ExitReason::Succeed, extract_output),
            (ExitReason::Revert, revert_output),
            dispatch,
        ) == (StageV::Failed { failure: FailureV::SubRevert { output: revert_output } }),
        (spec_next_action(
            cfg,
            (StageV::Failed { failure: FailureV::SubRevert { output: revert_output } }),
        ) is None),
{
}

} // verus!
