//! The call-data wire format shared with the external verifier and bridge
//! contracts: a 4-byte operation selector followed by one dynamic
//! byte-sequence argument, and the two returned shapes the pipeline reads
//! back (a verified message, and a transfer record).
//!
//! All integers on the wire are 32-byte big-endian words.  A dynamic byte
//! sequence is encoded as an offset word, then at that offset a length word
//! followed by the data; encoded arguments are zero-padded to a word
//! boundary.  Byte sequences longer than the message bound are rejected.

use vstd::prelude::*;
use crate::MAX_MESSAGE_BYTES;
use crate::bytes::{
    be_val, be_bytes, pow256, read_be_u128, range_is_zero, copy_range, push_be_bytes,
    lemma_be_val_zero_prefix, lemma_be_val_lower, lemma_pow256_mono, lemma_be_val_bound,
    lemma_be_val_split,
};

verus! {

/// A 256-bit unsigned integer, as two 128-bit big-endian halves.
#[derive(Debug, Clone, Copy, PartialEq, Eq, Structural)]
pub struct Uint256 {
    /// The most significant 128 bits.
    pub hi: u128,
    /// The least significant 128 bits.
    pub lo: u128,
}

/// The number a [`Uint256`] stands for.
pub open spec fn uint256_val(a: Uint256) -> nat {
    (a.hi * 0x100000000000000000000000000000000 + a.lo) as nat
}

/// The result of verifying a raw message: the verifier's structural parse.
/// The pipeline reads only its payload byte sequence.
#[derive(Debug, Clone, PartialEq, Eq)]
pub struct VerifiedMessage {
    /// The verified message's inner payload.
    pub payload: Vec<u8>,
}

/// Mathematical mirror of [`VerifiedMessage`].
pub struct VerifiedMessageV {
    pub payload: Seq<u8>,
}

impl View for VerifiedMessage {
    type V = VerifiedMessageV;

    open spec fn view(&self) -> VerifiedMessageV {
        VerifiedMessageV { payload: self.payload@ }
    }
}

/// The result of parsing a verified message's payload as a token transfer
/// with an embedded user payload.
#[derive(Debug, Clone, PartialEq, Eq)]
pub struct TransferRecord {
    /// The transferred token's address, as a full 32-byte word; it must
    /// narrow to a 20-byte address before use.
    pub token_address: Vec<u8>,
    /// The raw transfer amount.
    pub amount: Uint256,
    /// The user-intent payload embedded in the transfer.
    pub payload: Vec<u8>,
}

/// Mathematical mirror of [`TransferRecord`].
pub struct TransferRecordV {
    pub token_address: Seq<u8>,
    pub amount: Uint256,
    pub payload: Seq<u8>,
}

impl View for TransferRecord {
    type V = TransferRecordV;

    open spec fn view(&self) -> TransferRecordV {
        TransferRecordV {
            token_address: self.token_address@,
            amount: self.amount,
            payload: self.payload@,
        }
    }
}

/// The dynamic byte sequence held in a returned encoding: an offset word,
/// whose target holds a length word and then the data.  `head` is the
/// position of the offset word.  `None` when the encoding is not well formed
/// or the sequence exceeds the message bound.
pub open spec fn spec_read_dynamic_bytes(s: Seq<u8>, head: int) -> Option<Seq<u8>> {
    let o = be_val(s.subrange(head, head + 32)) as int;
    if o + 32 > s.len() {
        None
    } else {
        let l = be_val(s.subrange(o, o + 32)) as int;
        if l > MAX_MESSAGE_BYTES || o + 32 + l > s.len() {
            None
        } else {
            Some(s.subrange(o + 32, o + 32 + l))
        }
    }
}

/// Decoding of a returned byte-sequence value: one offset word at the start.
pub open spec fn spec_decode_bytes_return(s: Seq<u8>) -> Option<Seq<u8>> {
    if s.len() < 32 {
        None
    } else {
        spec_read_dynamic_bytes(s, 0)
    }
}

/// Decoding of the verifier's return: a verified message whose payload is a
/// dynamic byte sequence.
pub open spec fn spec_decode_vm_return(s: Seq<u8>) -> Option<VerifiedMessageV> {
    match spec_decode_bytes_return(s) {
        Some(p) => Some(VerifiedMessageV { payload: p }),
        None => None,
    }
}

/// Decoding of the bridge's parse return: a token word, an amount word, and
/// a dynamic payload.
pub open spec fn spec_decode_transfer_return(s: Seq<u8>) -> Option<TransferRecordV> {
    if s.len() < 96 {
        None
    } else {
        match spec_read_dynamic_bytes(s, 64) {
            Some(p) => Some(
                TransferRecordV {
                    token_address: s.subrange(0, 32),
                    amount: Uint256 {
                        hi: be_val(s.subrange(32, 48)) as u128,
                        lo: be_val(s.subrange(48, 64)) as u128,
                    },
                    payload: p,
                },
            ),
            None => None,
        }
    }
}

/// Zero-padding that brings `l` bytes up to a word boundary.
pub open spec fn spec_pad_len(l: nat) -> nat {
    ((32 - (l % 32)) % 32) as nat
}

/// The call data of a sub-call carrying one byte-sequence argument: the
/// selector, an offset word, a length word, the data, and padding.
pub open spec fn spec_encode_bytes_call(selector: u32, p: Seq<u8>) -> Seq<u8> {
    be_bytes(selector as nat, 4) + be_bytes(32, 32) + be_bytes(p.len(), 32) + p + Seq::new(
        spec_pad_len(p.len()),
        |i: int| 0u8,
    )
}

/// The two 128-bit halves a transfer record's amount is decoded into stand
/// for the amount word's own big-endian value: the wide amount is carried
/// whole, never truncated.
pub proof fn lemma_uint256_of_word(s: Seq<u8>)
    requires
        s.len() == 32,
    ensures
        uint256_val(
            Uint256 {
                hi: be_val(s.subrange(0, 16)) as u128,
                lo: be_val(s.subrange(16, 32)) as u128,
            },
        ) == be_val(s),
{
    lemma_be_val_split(s, 16);
    assert(s.take(16) =~= s.subrange(0, 16));
    assert(s.skip(16) =~= s.subrange(16, 32));
    lemma_be_val_bound(s.subrange(0, 16));
    lemma_be_val_bound(s.subrange(16, 32));
    assert(pow256(16) == 0x100000000000000000000000000000000) by {
        reveal_with_fuel(pow256, 17);
    }
}

/// Reads the 32-byte word at `pos` when its value fits the machine's word.
pub fn read_word_usize(data: &Vec<u8>, pos: usize) -> (r: Option<usize>)
    requires
        pos + 32 <= data@.len(),
    ensures
        match r {
            Some(w) => w == be_val(data@.subrange(pos as int, pos as int + 32)),
            None => be_val(data@.subrange(pos as int, pos as int + 32)) > usize::MAX,
        },
{
    let ghost w: Seq<u8> = data@.subrange(pos as int, pos as int + 32);
    let n: usize = data.len();
    if !range_is_zero(data, pos, pos + 16) {
        proof {
            let i = choose|i: int| pos <= i < pos + 16 && data@[i] != 0;
            assert(w[i - pos] == data@[i]);
            lemma_be_val_lower(w, i - pos);
            reveal_with_fuel(pow256, 17);
            lemma_pow256_mono(16, (32 - 1 - (i - pos)) as nat);
            assert(w[i - pos] * pow256((32 - 1 - (i - pos)) as nat) >= pow256(
                (32 - 1 - (i - pos)) as nat,
            )) by (nonlinear_arith)
                requires w[i - pos] >= 1,
            ;
            assert(pow256(16) == 0x100000000000000000000000000000000);
            assert(be_val(w) > usize::MAX);
        }
        return None;
    }
    proof {
        lemma_be_val_zero_prefix(w, 16);
        assert(w.skip(16) =~= data@.subrange(pos + 16, pos as int + 32));
    }
    let v: u128 = read_be_u128(data, pos + 16);
    if v <= usize::MAX as u128 {
        Some(v as usize)
    } else {
        None
    }
}

/// Reads the dynamic byte sequence whose offset word sits at `head`.
pub fn read_dynamic_bytes(data: &Vec<u8>, head: usize) -> (r: Option<Vec<u8>>)
    requires
        head + 32 <= data@.len(),
    ensures
        match r {
            Some(p) => spec_read_dynamic_bytes(data@, head as int) == Some(p@),
            None => spec_read_dynamic_bytes(data@, head as int) is None,
        },
{
    let n: usize = data.len();
    let o: usize = match read_word_usize(data, head) {
        Some(v) => v,
        None => {
            return None;
        },
    };
    if o > n - 32 {
        return None;
    }
    let l: usize = match read_word_usize(data, o) {
        Some(v) => v,
        None => {
            return None;
        },
    };
    if l > MAX_MESSAGE_BYTES {
        return None;
    }
    if l > n - (o + 32) {
        return None;
    }
    Some(copy_range(data, o + 32, o + 32 + l))
}

/// Decodes a returned byte-sequence value.
pub fn decode_bytes_return(output: &Vec<u8>) -> (r: Option<Vec<u8>>)
    ensures
        match r {
            Some(p) => spec_decode_bytes_return(output@) == Some(p@),
            None => spec_decode_bytes_return(output@) is None,
        },
{
    if output.len() < 32 {
        return None;
    }
    read_dynamic_bytes(output, 0)
}

/// Decodes the verifier's returned bytes into a verified message.
pub fn decode_vm_return(output: &Vec<u8>) -> (r: Option<VerifiedMessage>)
    ensures
        match r {
            Some(m) => spec_decode_vm_return(output@) == Some(m@),
            None => spec_decode_vm_return(output@) is None,
        },
{
    match decode_bytes_return(output) {
        Some(p) => Some(VerifiedMessage { payload: p }),
        None => None,
    }
}

/// Decodes the bridge's returned bytes into a transfer record.
pub fn decode_transfer_return(output: &Vec<u8>) -> (r: Option<TransferRecord>)
    ensures
        match r {
            Some(t) => spec_decode_transfer_return(output@) == Some(t@) && uint256_val(t.amount)
                == be_val(output@.subrange(32, 64)),
            None => spec_decode_transfer_return(output@) is None,
        },
{
    if output.len() < 96 {
        return None;
    }
    let payload: Vec<u8> = match read_dynamic_bytes(output, 64) {
        Some(p) => p,
        None => {
            return None;
        },
    };
    let token_address: Vec<u8> = copy_range(output, 0, 32);
    let hi: u128 = read_be_u128(output, 32);
    let lo: u128 = read_be_u128(output, 48);
    proof {
        reveal_with_fuel(pow256, 17);
        lemma_be_val_bound(output@.subrange(32, 48));
        lemma_be_val_bound(output@.subrange(48, 64));
        let word = output@.subrange(32, 64);
        assert(word.subrange(0, 16) =~= output@.subrange(32, 48));
        assert(word.subrange(16, 32) =~= output@.subrange(48, 64));
        lemma_uint256_of_word(word);
    }
    Some(TransferRecord { token_address, amount: Uint256 { hi, lo }, payload })
}

/// Builds the call data of a sub-call carrying one byte-sequence argument.
pub fn encode_bytes_call(selector: u32, payload: &Vec<u8>) -> (r: Vec<u8>)
    requires
        payload@.len() <= MAX_MESSAGE_BYTES,
    ensures
        r@ == spec_encode_bytes_call(selector, payload@),
{
    let mut out: Vec<u8> = Vec::new();
    push_be_bytes(&mut out, selector as u64, 4);
    push_be_bytes(&mut out, 32u64, 32);
    push_be_bytes(&mut out, payload.len() as u64, 32);
    let ghost head: Seq<u8> = out@;
    let mut i: usize = 0;
    while i < payload.len()
        invariant
            i <= payload@.len(),
            out@ == head + payload@.subrange(0, i as int),
        decreases payload@.len() - i,
    {
        out.push(payload[i]);
        proof {
            assert(head + payload@.subrange(0, i as int) + seq![payload@[i as int]] =~= head
                + payload@.subrange(0, i + 1));
        }
        i = i + 1;
    }
    proof {
        assert(out@ =~= head + payload@);
    }
    let ghost mid: Seq<u8> = out@;
    let pad: usize = (32 - (payload.len() % 32)) % 32;
    let mut j: usize = 0;
    while j < pad
        invariant
            j <= pad,
            out@ == mid + Seq::new(j as nat, |k: int| 0u8),
        decreases pad - j,
    {
        out.push(0u8);
        proof {
            assert(mid + Seq::new(j as nat, |k: int| 0u8) + seq![0u8] =~= mid + Seq::new(
                (j + 1) as nat,
                |k: int| 0u8,
            ));
        }
        j = j + 1;
    }
    proof {
        assert(out@ =~= spec_encode_bytes_call(selector, payload@));
    }
    out
}

} // verus!
