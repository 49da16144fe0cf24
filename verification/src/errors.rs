//! The pipeline's error taxonomy, and the classifier that maps a sub-call's
//! raw outcome into it.
//!
//! Every failure of the pipeline is one of three families: malformed-input
//! decoding errors, classified sub-call failures (fatal, revert with the
//! callee's raw output preserved, or error), and domain-validation failures.
//! No stage recovers from a failure of an earlier stage; a failure aborts the
//! remaining pipeline and reaches the caller unmodified in kind.

use vstd::prelude::*;

verus! {

/// The raw outcome tag of a synchronous sub-call, as reported by the hosting
/// execution environment.
#[derive(Debug, Clone, Copy, PartialEq, Eq, Structural)]
pub enum ExitReason {
    /// The callee ran to completion.
    Succeed,
    /// The callee reverted; its output bytes carry the revert reason.
    Revert,
    /// The callee failed with an execution error.
    Error,
    /// The callee failed in a non-recoverable way.
    Fatal,
}

/// Why the pipeline aborted.
#[derive(Debug, Clone, PartialEq, Eq)]
pub enum Failure {
    /// The configured verifier contract address is not a valid hex address.
    InvalidVerifierAddress,
    /// The configured bridge contract address is not a valid hex address.
    InvalidBridgeAddress,
    /// The inbound call data holds fewer than four selector bytes.
    SelectorTooShort,
    /// The inbound selector matches no recognized operation.
    UnknownSelector,
    /// The inbound call data does not hold a well-formed byte-sequence argument.
    MalformedCallData,
    /// The verifier's returned bytes do not decode as a verified message.
    MalformedVerifierOutput,
    /// The bridge's returned bytes do not decode as a transfer record.
    MalformedTransferOutput,
    /// The transfer's inner payload does not decode as a known user action.
    InvalidPayload,
    /// The transfer's token field does not narrow to a 20-byte address.
    TokenAddressTooWide,
    /// The token maps to no known destination-chain currency.
    UnsupportedAsset,
    /// The transfer amount does not fit the destination balance type.
    AmountOverflow,
    /// A sub-call reverted; `output` is the callee's raw output, unmodified.
    SubRevert { output: Vec<u8> },
    /// A sub-call failed with an execution error.
    SubError,
    /// A sub-call failed fatally.
    SubFatal,
    /// The outbound dispatch layer rejected the transfer; `output` is its
    /// reason, unmodified.
    DispatchFailed { output: Vec<u8> },
}

/// Mathematical mirror of [`Failure`], with byte payloads as sequences.
pub enum FailureV {
    InvalidVerifierAddress,
    InvalidBridgeAddress,
    SelectorTooShort,
    UnknownSelector,
    MalformedCallData,
    MalformedVerifierOutput,
    MalformedTransferOutput,
    InvalidPayload,
    TokenAddressTooWide,
    UnsupportedAsset,
    AmountOverflow,
    SubRevert { output: Seq<u8> },
    SubError,
    SubFatal,
    DispatchFailed { output: Seq<u8> },
}

impl View for Failure {
    type V = FailureV;

    open spec fn view(&self) -> FailureV {
        match self {
            Failure::InvalidVerifierAddress => FailureV::InvalidVerifierAddress,
            Failure::InvalidBridgeAddress => FailureV::InvalidBridgeAddress,
            Failure::SelectorTooShort => FailureV::SelectorTooShort,
            Failure::UnknownSelector => FailureV::UnknownSelector,
            Failure::MalformedCallData => FailureV::MalformedCallData,
            Failure::MalformedVerifierOutput => FailureV::MalformedVerifierOutput,
            Failure::MalformedTransferOutput => FailureV::MalformedTransferOutput,
            Failure::InvalidPayload => FailureV::InvalidPayload,
            Failure::TokenAddressTooWide => FailureV::TokenAddressTooWide,
            Failure::UnsupportedAsset => FailureV::UnsupportedAsset,
            Failure::AmountOverflow => FailureV::AmountOverflow,
            Failure::SubRevert { output } => FailureV::SubRevert { output: output@ },
            Failure::SubError => FailureV::SubError,
            Failure::SubFatal => FailureV::SubFatal,
            Failure::DispatchFailed { output } => FailureV::DispatchFailed { output: output@ },
        }
    }
}

/// What classifying a sub-call outcome must yield: success for `Succeed`, and
/// for each failing tag the matching failure class, with the callee's raw
/// output preserved exactly on `Revert`.
pub open spec fn spec_classify(reason: ExitReason, output: Seq<u8>) -> Result<(), FailureV> {
    match reason {
        ExitReason::Succeed => Ok(()),
        ExitReason::Revert => Err(FailureV::SubRevert { output: output }),
        ExitReason::Error => Err(FailureV::SubError),
        ExitReason::Fatal => Err(FailureV::SubFatal),
    }
}

/// Maps a sub-call's raw outcome into success or a classified failure.
///
/// This is the single point translating low-level execution outcomes into the
/// pipeline's error taxonomy; it is applied after every external sub-call.
/// On `Revert` the callee's output bytes are carried through unmodified.
pub fn classify_exit(reason: ExitReason, output: &Vec<u8>) -> (r: Result<(), Failure>)
    ensures
        match r {
            Ok(()) => spec_classify(reason, output@) == Ok::<(), FailureV>(()),
            Err(f) => spec_classify(reason, output@) == Err::<(), FailureV>(f@),
        },
{
    match reason {
        ExitReason::Succeed => Ok(()),
        ExitReason::Revert => Err(Failure::SubRevert { output: crate::bytes::copy_bytes(output) }),
        ExitReason::Error => Err(Failure::SubError),
        ExitReason::Fatal => Err(Failure::SubFatal),
    }
}

/// The descriptive text of a failure, where one exists.
///
/// Sub-call and dispatch failures carry the callee's own output (or only its
/// class) instead of a text of this library's, so they have none.
pub open spec fn spec_failure_message(f: FailureV) -> Option<Seq<char>> {
    match f {
        FailureV::InvalidVerifierAddress => Some("invalid wormhole contract address"@),
        FailureV::InvalidBridgeAddress => Some("invalid wormhole bridge contract address"@),
        FailureV::SelectorTooShort => Some("tried to parse selector out of bounds"@),
        FailureV::UnknownSelector => Some("unknown selector"@),
        FailureV::MalformedCallData => Some("malformed call data"@),
        FailureV::MalformedVerifierOutput => Some("malformed verifier output"@),
        FailureV::MalformedTransferOutput => Some("malformed transfer output"@),
        FailureV::InvalidPayload => Some("Invalid GMP Payload"@),
        FailureV::TokenAddressTooWide => Some("Asset address is not a H160"@),
        FailureV::UnsupportedAsset => Some("Unsupported asset, not a valid currency id"@),
        FailureV::AmountOverflow => Some("Amount overflows balance"@),
        FailureV::SubRevert { output } => None,
        FailureV::SubError => None,
        FailureV::SubFatal => None,
        FailureV::DispatchFailed { output } => None,
    }
}

/// Returns the descriptive text of a failure, where one exists.
pub fn failure_message(f: &Failure) -> (r: Option<&'static str>)
    ensures
        match r {
            Some(s) => spec_failure_message(f@) == Some(s@),
            None => spec_failure_message(f@) is None,
        },
{
    match f {
        Failure::InvalidVerifierAddress => Some("invalid wormhole contract address"),
        Failure::InvalidBridgeAddress => Some("invalid wormhole bridge contract address"),
        Failure::SelectorTooShort => Some("tried to parse selector out of bounds"),
        Failure::UnknownSelector => Some("unknown selector"),
        Failure::MalformedCallData => Some("malformed call data"),
        Failure::MalformedVerifierOutput => Some("malformed verifier output"),
        Failure::MalformedTransferOutput => Some("malformed transfer output"),
        Failure::InvalidPayload => Some("Invalid GMP Payload"),
        Failure::TokenAddressTooWide => Some("Asset address is not a H160"),
        Failure::UnsupportedAsset => Some("Unsupported asset, not a valid currency id"),
        Failure::AmountOverflow => Some("Amount overflows balance"),
        Failure::SubRevert { output: _ } => None,
        Failure::SubError => None,
        Failure::SubFatal => None,
        Failure::DispatchFailed { output: _ } => None,
    }
}

} // verus!
