//! A verified cross-chain message relay pipeline.
//!
//! The library receives an attested message (a signed byte blob produced by an
//! external guardian network), delegates its cryptographic verification to an
//! external verifier contract, extracts a token transfer with an embedded user
//! intent, resolves the transferred token to a locally known currency, triggers
//! completion of the custody transfer, and finally builds an outbound
//! cross-chain transfer instruction to the user's requested destination.
//!
//! All external work (the synchronous sub-calls into the verifier and bridge
//! contracts, and the dispatch of the outbound instruction) is performed by the
//! hosting execution environment.  The library is a pure state machine: each
//! state names the sub-call or dispatch the host must perform next, and each
//! host outcome drives one verified transition.  The host loop itself lives
//! outside the library.

use vstd::prelude::*;

pub mod abi;
pub mod action;
pub mod bytes;
pub mod errors;
pub mod hex;
pub mod inbound;
pub mod pipeline;
pub mod resolve;

verus! {

/// Upper bound, in bytes, on the raw message accepted by the inbound call.
pub const MAX_MESSAGE_BYTES: usize = 65536;

} // verus!
