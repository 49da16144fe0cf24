//! The versioned user-intent structure embedded in a transfer's payload, and
//! its bounded decoder.
//!
//! The payload is the only place where attacker-controlled, arbitrary-format
//! bytes are interpreted as structured intent.  The decoder never reads out
//! of bounds, rejects every unknown tag, and bounds the nesting of location
//! descriptors by [`MAX_ACTION_DEPTH`]; malformed input is always a typed
//! failure.
//!
//! Wire format (all integers big-endian):
//! - user action: a version tag byte (`0` for the only defined version),
//!   then a location;
//! - location: a parents byte, a junction count byte (at most 8), then that
//!   many junctions;
//! - junction: a tag byte, then its argument — `0` a 4-byte parachain index,
//!   `1` a 32-byte account identifier, `2` a 20-byte account key, `3` a
//!   pallet instance byte, `4` nothing, `5` a nested location.

use vstd::prelude::*;
use crate::bytes::be_val;
use crate::bytes::be_bytes;
use crate::bytes::copy_bytes;
use crate::bytes::copy_range;
use crate::bytes::lemma_be_val_of_be_bytes;
use crate::bytes::pow256;
use crate::bytes::read_be_u32;

verus! {

/// Nesting bound on location descriptors inside a user action.
pub const MAX_ACTION_DEPTH: u32 = 32;

/// One step of a chain-location path.
#[derive(Debug, PartialEq, Eq)]
pub enum Junction {
    /// A parachain, by index.
    Parachain(u32),
    /// A 32-byte account identifier.
    AccountId32 { id: Vec<u8> },
    /// A 20-byte account key.
    AccountKey20 { key: Vec<u8> },
    /// A pallet, by instance index.
    PalletInstance(u8),
    /// The unique child of the current location.
    OnlyChild,
    /// A nested location descriptor.
    Interior { inner: Box<Location> },
}

/// A junction path, innermost first.
#[derive(Debug, PartialEq, Eq)]
pub enum Junctions {
    /// The empty path.
    Here,
    /// A junction followed by the rest of the path.
    More { head: Junction, tail: Box<Junctions> },
}

/// A chain-location descriptor: how many levels to ascend, then a junction
/// path to descend.
#[derive(Debug, PartialEq, Eq)]
pub struct Location {
    /// Levels of ancestry to ascend first.
    pub parents: u8,
    /// The path to descend afterwards.
    pub junctions: Junctions,
}

/// A versioned user intent decoded from a transfer's payload.  Unknown
/// version tags fail decoding rather than being ignored.
#[derive(Debug, PartialEq, Eq)]
pub enum UserAction {
    /// The only defined version: transfer the funds onward to this
    /// destination.
    V1 { destination: Location },
}

/// Mathematical mirror of [`Junction`].
pub enum JunctionV {
    Parachain(u32),
    AccountId32 { id: Seq<u8> },
    AccountKey20 { key: Seq<u8> },
    PalletInstance(u8),
    OnlyChild,
    Interior { inner: Box<LocationV> },
}

/// Mathematical mirror of [`Location`], with the junction path as a sequence.
pub struct LocationV {
    pub parents: u8,
    pub junctions: Seq<JunctionV>,
}

/// Mathematical mirror of [`UserAction`].
pub enum UserActionV {
    V1 { destination: LocationV },
}

/// The mirror of one junction.
pub open spec fn junction_view(j: Junction) -> JunctionV
    decreases j,
{
    match j {
        Junction::Parachain(index) => JunctionV::Parachain(index),
        Junction::AccountId32 { id } => JunctionV::AccountId32 { id: id@ },
        Junction::AccountKey20 { key } => JunctionV::AccountKey20 { key: key@ },
        Junction::PalletInstance(index) => JunctionV::PalletInstance(index),
        Junction::OnlyChild => JunctionV::OnlyChild,
        Junction::Interior { inner } => JunctionV::Interior {
            inner: Box::new(location_view(*inner)),
        },
    }
}

/// The mirror of a junction path.
pub open spec fn junctions_view(js: Junctions) -> Seq<JunctionV>
    decreases js,
{
    match js {
        Junctions::Here => Seq::empty(),
        Junctions::More { head, tail } => seq![junction_view(head)] + junctions_view(*tail),
    }
}

/// The mirror of a location.
pub open spec fn location_view(l: Location) -> LocationV
    decreases l,
{
    LocationV { parents: l.parents, junctions: junctions_view(l.junctions) }
}

/// The mirror of a user action.
pub open spec fn user_action_view(a: UserAction) -> UserActionV {
    match a {
        UserAction::V1 { destination } => UserActionV::V1 {
            destination: location_view(destination),
        },
    }
}

impl View for Location {
    type V = LocationV;

    open spec fn view(&self) -> LocationV {
        location_view(*self)
    }
}

impl View for UserAction {
    type V = UserActionV;

    open spec fn view(&self) -> UserActionV {
        user_action_view(*self)
    }
}

/// Decoding of one junction at `pos`, allowed to nest `depth` further
/// location levels; `None` on a malformed or too deeply nested junction,
/// otherwise the junction and the position after it.
pub open spec fn spec_decode_junction(s: Seq<u8>, pos: int, depth: nat) -> Option<
    (JunctionV, int),
>
    decreases depth, 0int, 2int,
{
    if pos + 1 > s.len() {
        None
    } else {
        let tag = s[pos];
        if tag == 0 {
            if pos + 5 <= s.len() {
                Some((JunctionV::Parachain(be_val(s.subrange(pos + 1, pos + 5)) as u32), pos + 5))
            } else {
                None
            }
        } else if tag == 1 {
            if pos + 33 <= s.len() {
                Some((JunctionV::AccountId32 { id: s.subrange(pos + 1, pos + 33) }, pos + 33))
            } else {
                None
            }
        } else if tag == 2 {
            if pos + 21 <= s.len() {
                Some((JunctionV::AccountKey20 { key: s.subrange(pos + 1, pos + 21) }, pos + 21))
            } else {
                None
            }
        } else if tag == 3 {
            if pos + 2 <= s.len() {
                Some((JunctionV::PalletInstance(s[pos + 1]), pos + 2))
            } else {
                None
            }
        } else if tag == 4 {
            Some((JunctionV::OnlyChild, pos + 1))
        } else if tag == 5 {
            if depth == 0 {
                None
            } else {
                match spec_decode_location(s, pos + 1, (depth - 1) as nat) {
                    Some((inner, end)) => Some(
                        (JunctionV::Interior { inner: Box::new(inner) }, end),
                    ),
                    None => None,
                }
            }
        } else {
            None
        }
    }
}

/// Decoding of `n` junctions starting at `pos`.
pub open spec fn spec_decode_junctions(s: Seq<u8>, pos: int, n: nat, depth: nat) -> Option<
    (Seq<JunctionV>, int),
>
    decreases depth, n, 1int,
{
    if n == 0 {
        Some((Seq::empty(), pos))
    } else {
        match spec_decode_junction(s, pos, depth) {
            Some((j, mid)) => match spec_decode_junctions(s, mid, (n - 1) as nat, depth) {
                Some((rest, end)) => Some((seq![j] + rest, end)),
                None => None,
            },
            None => None,
        }
    }
}

/// Decoding of a location at `pos`: a parents byte, a junction count of at
/// most 8, then the junctions.  `depth` counts the location levels still
/// allowed, this one included; it fails when exhausted.
pub open spec fn spec_decode_location(s: Seq<u8>, pos: int, depth: nat) -> Option<(LocationV, int)>
    decreases depth, 9int, 0int,
{
    if depth == 0 {
        None
    } else if pos + 2 > s.len() {
        None
    } else {
        let count = s[pos + 1];
        if count > 8 {
            None
        } else {
            match spec_decode_junctions(s, pos + 2, count as nat, depth) {
                Some((js, end)) => Some((LocationV { parents: s[pos], junctions: js }, end)),
                None => None,
            }
        }
    }
}

/// Decoding of a full user-action payload: a version tag, a location bounded
/// by [`MAX_ACTION_DEPTH`], and nothing after it.
pub open spec fn spec_decode_user_action(s: Seq<u8>) -> Option<UserActionV> {
    if s.len() < 1 || s[0] != 0 {
        None
    } else {
        match spec_decode_location(s, 1, MAX_ACTION_DEPTH as nat) {
            Some((destination, end)) => if end == s.len() {
                Some(UserActionV::V1 { destination })
            } else {
                None
            },
            None => None,
        }
    }
}

/// Decodes one junction at `pos`.
pub fn decode_junction(data: &Vec<u8>, pos: usize, depth: u32) -> (r: Option<(Junction, usize)>)
    requires
        pos <= data@.len(),
    ensures
        match r {
            Some((j, end)) => spec_decode_junction(data@, pos as int, depth as nat) == Some(
                (junction_view(j), end as int),
            ) && pos <= end <= data@.len(),
            None => spec_decode_junction(data@, pos as int, depth as nat) is None,
        },
    decreases depth, 0int, 2int,
{
    let n: usize = data.len();
    if n - pos < 1 {
        return None;
    }
    let tag: u8 = data[pos];
    if tag == 0 {
        if n - pos < 5 {
            return None;
        }
        let index: u32 = read_be_u32(data, pos + 1);
        Some((Junction::Parachain(index), pos + 5))
    } else if tag == 1 {
        if n - pos < 33 {
            return None;
        }
        Some((Junction::AccountId32 { id: copy_range(data, pos + 1, pos + 33) }, pos + 33))
    } else if tag == 2 {
        if n - pos < 21 {
            return None;
        }
        Some((Junction::AccountKey20 { key: copy_range(data, pos + 1, pos + 21) }, pos + 21))
    } else if tag == 3 {
        if n - pos < 2 {
            return None;
        }
        Some((Junction::PalletInstance(data[pos + 1]), pos + 2))
    } else if tag == 4 {
        Some((Junction::OnlyChild, pos + 1))
    } else if tag == 5 {
        if depth == 0 {
            return None;
        }
        match decode_location(data, pos + 1, depth - 1) {
            Some((inner, end)) => Some((Junction::Interior { inner: Box::new(inner) }, end)),
            None => None,
        }
    } else {
        None
    }
}

/// Decodes `n` junctions starting at `pos`.
pub fn decode_junctions(data: &Vec<u8>, pos: usize, n: u8, depth: u32) -> (r: Option<
    (Junctions, usize),
>)
    requires
        pos <= data@.len(),
    ensures
        match r {
            Some((js, end)) => spec_decode_junctions(data@, pos as int, n as nat, depth as nat)
                == Some((junctions_view(js), end as int)) && pos <= end <= data@.len(),
            None => spec_decode_junctions(data@, pos as int, n as nat, depth as nat) is None,
        },
    decreases depth, n as int, 1int,
{
    if n == 0 {
        return Some((Junctions::Here, pos));
    }
    match decode_junction(data, pos, depth) {
        Some((head, mid)) => match decode_junctions(data, mid, n - 1, depth) {
            Some((tail, end)) => Some((Junctions::More { head, tail: Box::new(tail) }, end)),
            None => None,
        },
        None => None,
    }
}

/// Decodes a location at `pos` with `depth` location levels still allowed.
pub fn decode_location(data: &Vec<u8>, pos: usize, depth: u32) -> (r: Option<(Location, usize)>)
    requires
        pos <= data@.len(),
    ensures
        match r {
            Some((l, end)) => spec_decode_location(data@, pos as int, depth as nat) == Some(
                (location_view(l), end as int),
            ) && pos <= end <= data@.len(),
            None => spec_decode_location(data@, pos as int, depth as nat) is None,
        },
    decreases depth, 9int, 0int,
{
    if depth == 0 {
        return None;
    }
    let n: usize = data.len();
    if n - pos < 2 {
        return None;
    }
    let parents: u8 = data[pos];
    let count: u8 = data[pos + 1];
    if count > 8 {
        return None;
    }
    match decode_junctions(data, pos + 2, count, depth) {
        Some((junctions, end)) => Some((Location { parents, junctions }, end)),
        None => None,
    }
}

/// Decodes a transfer's payload as a versioned user action.
///
/// Exactly the payloads accepted by [`spec_decode_user_action`] succeed:
/// a known version tag, a well-formed location descriptor nested at most
/// [`MAX_ACTION_DEPTH`] levels, and no trailing bytes.
pub fn decode_user_action(payload: &Vec<u8>) -> (r: Option<UserAction>)
    ensures
        match r {
            Some(a) => spec_decode_user_action(payload@) == Some(user_action_view(a)),
            None => spec_decode_user_action(payload@) is None,
        },
{
    let n: usize = payload.len();
    if n < 1 {
        return None;
    }
    if payload[0] != 0 {
        return None;
    }
    match decode_location(payload, 1, MAX_ACTION_DEPTH) {
        Some((destination, end)) => if end == n {
            Some(UserAction::V1 { destination })
        } else {
            None
        },
        None => None,
    }
}

/// Copies one junction.
pub fn copy_junction(j: &Junction) -> (r: Junction)
    ensures
        junction_view(r) == junction_view(*j),
    decreases *j,
{
    match j {
        Junction::Parachain(index) => Junction::Parachain(*index),
        Junction::AccountId32 { id } => Junction::AccountId32 { id: copy_bytes(id) },
        Junction::AccountKey20 { key } => Junction::AccountKey20 { key: copy_bytes(key) },
        Junction::PalletInstance(index) => Junction::PalletInstance(*index),
        Junction::OnlyChild => Junction::OnlyChild,
        Junction::Interior { inner } => Junction::Interior {
            inner: Box::new(copy_location(inner)),
        },
    }
}

/// Copies a junction path.
pub fn copy_junctions(js: &Junctions) -> (r: Junctions)
    ensures
        junctions_view(r) == junctions_view(*js),
    decreases *js,
{
    match js {
        Junctions::Here => Junctions::Here,
        Junctions::More { head, tail } => Junctions::More {
            head: copy_junction(head),
            tail: Box::new(copy_junctions(tail)),
        },
    }
}

/// Copies a location.
pub fn copy_location(l: &Location) -> (r: Location)
    ensures
        location_view(r) == location_view(*l),
    decreases *l,
{
    Location { parents: l.parents, junctions: copy_junctions(&l.junctions) }
}

/// How many junctions a path holds.
pub open spec fn junctions_len(js: Junctions) -> nat
    decreases js,
{
    match js {
        Junctions::Here => 0,
        Junctions::More { head, tail } => 1 + junctions_len(*tail),
    }
}

/// Structural validity of one junction: its byte fields have their fixed
/// widths, and nested locations are valid in turn.
pub open spec fn wf_junction(j: Junction) -> bool
    decreases j,
{
    match j {
        Junction::Parachain(index) => true,
        Junction::AccountId32 { id } => id@.len() == 32,
        Junction::AccountKey20 { key } => key@.len() == 20,
        Junction::PalletInstance(index) => true,
        Junction::OnlyChild => true,
        Junction::Interior { inner } => wf_location(*inner),
    }
}

/// Structural validity of a junction path.
pub open spec fn wf_junctions(js: Junctions) -> bool
    decreases js,
{
    match js {
        Junctions::Here => true,
        Junctions::More { head, tail } => wf_junction(head) && wf_junctions(*tail),
    }
}

/// Structural validity of a location: at most 8 junctions, all valid.
pub open spec fn wf_location(l: Location) -> bool
    decreases l,
{
    junctions_len(l.junctions) <= 8 && wf_junctions(l.junctions)
}

/// Structural validity of a user action.
pub open spec fn wf_user_action(a: UserAction) -> bool {
    match a {
        UserAction::V1 { destination } => wf_location(destination),
    }
}

/// How many location levels a junction nests.
pub open spec fn junction_depth(j: Junction) -> nat
    decreases j,
{
    match j {
        Junction::Interior { inner } => location_depth(*inner),
        _ => 0,
    }
}

/// The deepest nesting among a path's junctions.
pub open spec fn junctions_depth(js: Junctions) -> nat
    decreases js,
{
    match js {
        Junctions::Here => 0,
        Junctions::More { head, tail } => if junction_depth(head) >= junctions_depth(*tail) {
            junction_depth(head)
        } else {
            junctions_depth(*tail)
        },
    }
}

/// How many location levels a location nests, itself included.
pub open spec fn location_depth(l: Location) -> nat
    decreases l,
{
    1 + junctions_depth(l.junctions)
}

/// The nesting of a user action's destination.
pub open spec fn user_action_depth(a: UserAction) -> nat {
    match a {
        UserAction::V1 { destination } => location_depth(destination),
    }
}

/// The encoding of one junction.
pub open spec fn spec_encode_junction(j: Junction) -> Seq<u8>
    decreases j,
{
    match j {
        Junction::Parachain(index) => seq![0u8] + be_bytes(index as nat, 4),
        Junction::AccountId32 { id } => seq![1u8] + id@,
        Junction::AccountKey20 { key } => seq![2u8] + key@,
        Junction::PalletInstance(index) => seq![3u8, index],
        Junction::OnlyChild => seq![4u8],
        Junction::Interior { inner } => seq![5u8] + spec_encode_location(*inner),
    }
}

/// The encoding of a junction path, one junction after the other.
pub open spec fn spec_encode_junctions(js: Junctions) -> Seq<u8>
    decreases js,
{
    match js {
        Junctions::Here => Seq::empty(),
        Junctions::More { head, tail } => spec_encode_junction(head) + spec_encode_junctions(
            *tail,
        ),
    }
}

/// The encoding of a location: parents byte, count byte, junctions.
pub open spec fn spec_encode_location(l: Location) -> Seq<u8>
    decreases l,
{
    seq![l.parents, junctions_len(l.junctions) as u8] + spec_encode_junctions(l.junctions)
}

/// The encoding of a user action: the version tag, then the location.
pub open spec fn spec_encode_user_action(a: UserAction) -> Seq<u8> {
    match a {
        UserAction::V1 { destination } => seq![0u8] + spec_encode_location(destination),
    }
}

/// Decoding one junction from its own encoding, embedded at `pos` in any
/// wider sequence, succeeds exactly when its nesting stays below the
/// allowance, and then consumes exactly the encoding.
pub proof fn lemma_junction_decode_encode(j: Junction, s: Seq<u8>, pos: int, depth: nat)
    requires
        wf_junction(j),
        depth >= 1,
        0 <= pos,
        pos + spec_encode_junction(j).len() <= s.len(),
        s.subrange(pos, pos + spec_encode_junction(j).len() as int) == spec_encode_junction(j),
    ensures
        junction_depth(j) < depth ==> spec_decode_junction(s, pos, depth) == Some(
            (junction_view(j), pos + spec_encode_junction(j).len()),
        ),
        junction_depth(j) >= depth ==> spec_decode_junction(s, pos, depth) is None,
    decreases depth, 0int, 2int,
{
    let enc = spec_encode_junction(j);
    assert(s[pos] == enc[0]);
    match j {
        Junction::Parachain(index) => {
            assert(s.subrange(pos + 1, pos + 5) =~= enc.subrange(1, 5));
            assert(enc.subrange(1, 5) =~= be_bytes(index as nat, 4));
            assert(pow256(4) == 0x100000000) by {
                reveal_with_fuel(pow256, 5);
            }
            lemma_be_val_of_be_bytes(index as nat, 4);
        },
        Junction::AccountId32 { id } => {
            assert(s.subrange(pos + 1, pos + 33) =~= enc.subrange(1, 33));
            assert(enc.subrange(1, 33) =~= id@);
        },
        Junction::AccountKey20 { key } => {
            assert(s.subrange(pos + 1, pos + 21) =~= enc.subrange(1, 21));
            assert(enc.subrange(1, 21) =~= key@);
        },
        Junction::PalletInstance(index) => {
            assert(s[pos + 1] == enc[1]);
        },
        Junction::OnlyChild => {
        },
        Junction::Interior { inner } => {
            let inner_enc = spec_encode_location(*inner);
            assert(s.subrange(pos + 1, pos + 1 + inner_enc.len() as int) =~= enc.subrange(
                1,
                1 + inner_enc.len() as int,
            ));
            assert(enc.subrange(1, 1 + inner_enc.len() as int) =~= inner_enc);
            lemma_location_decode_encode(*inner, s, pos + 1, (depth - 1) as nat);
        },
    }
}

/// Decoding a junction path from its own encoding, embedded at `pos`,
/// succeeds exactly when every junction's nesting stays below the allowance.
pub proof fn lemma_junctions_decode_encode(js: Junctions, s: Seq<u8>, pos: int, depth: nat)
    requires
        wf_junctions(js),
        depth >= 1,
        0 <= pos,
        pos + spec_encode_junctions(js).len() <= s.len(),
        s.subrange(pos, pos + spec_encode_junctions(js).len() as int) == spec_encode_junctions(js),
    ensures
        junctions_depth(js) < depth ==> spec_decode_junctions(s, pos, junctions_len(js), depth)
            == Some((junctions_view(js), pos + spec_encode_junctions(js).len())),
        junctions_depth(js) >= depth ==> spec_decode_junctions(
            s,
            pos,
            junctions_len(js),
            depth,
        ) is None,
    decreases depth, junctions_len(js), 1int,
{
    match js {
        Junctions::Here => {
        },
        Junctions::More { head, tail } => {
            let enc = spec_encode_junctions(js);
            let head_enc = spec_encode_junction(head);
            let tail_enc = spec_encode_junctions(*tail);
            assert(enc =~= head_enc + tail_enc);
            assert(s.subrange(pos, pos + head_enc.len() as int) =~= head_enc) by {
                assert forall|i: int| 0 <= i < head_enc.len() implies s.subrange(
                    pos,
                    pos + head_enc.len() as int,
                )[i] == head_enc[i] by {
                    assert(s.subrange(pos, pos + enc.len() as int)[i] == enc[i]);
                }
            }
            lemma_junction_decode_encode(head, s, pos, depth);
            if junction_depth(head) < depth {
                let mid = pos + head_enc.len() as int;
                assert(s.subrange(mid, mid + tail_enc.len() as int) =~= tail_enc) by {
                    assert forall|i: int| 0 <= i < tail_enc.len() implies s.subrange(
                        mid,
                        mid + tail_enc.len() as int,
                    )[i] == tail_enc[i] by {
                        assert(s.subrange(pos, pos + enc.len() as int)[head_enc.len() + i]
                            == enc[head_enc.len() + i]);
                    }
                }
                lemma_junctions_decode_encode(*tail, s, mid, depth);
                if junctions_depth(*tail) < depth {
                    assert(junctions_view(js) =~= seq![junction_view(head)] + junctions_view(
                        *tail,
                    ));
                }
            }
        },
    }
}

/// Decoding a location from its own encoding, embedded at `pos`, succeeds
/// exactly when its nesting fits the allowance, and then consumes exactly
/// the encoding.
pub proof fn lemma_location_decode_encode(l: Location, s: Seq<u8>, pos: int, depth: nat)
    requires
        wf_location(l),
        0 <= pos,
        pos + spec_encode_location(l).len() <= s.len(),
        s.subrange(pos, pos + spec_encode_location(l).len() as int) == spec_encode_location(l),
    ensures
        location_depth(l) <= depth ==> spec_decode_location(s, pos, depth) == Some(
            (location_view(l), pos + spec_encode_location(l).len()),
        ),
        location_depth(l) > depth ==> spec_decode_location(s, pos, depth) is None,
    decreases depth, 9int, 0int,
{
    if depth == 0 {
    } else {
        let enc = spec_encode_location(l);
        let js_enc = spec_encode_junctions(l.junctions);
        assert(s[pos] == enc[0]);
        assert(s[pos + 1] == enc[1]);
        assert(enc[1] == junctions_len(l.junctions) as u8);
        assert(s.subrange(pos + 2, pos + 2 + js_enc.len() as int) =~= js_enc) by {
            assert forall|i: int| 0 <= i < js_enc.len() implies s.subrange(
                pos + 2,
                pos + 2 + js_enc.len() as int,
            )[i] == js_enc[i] by {
                assert(s.subrange(pos, pos + enc.len() as int)[2 + i] == enc[2 + i]);
            }
        }
        lemma_junctions_decode_encode(l.junctions, s, pos + 2, depth);
    }
}

/// The decoder accepts a well-formed user action's own encoding whenever its
/// location nesting respects [`MAX_ACTION_DEPTH`], and yields that action
/// back.
pub proof fn lemma_user_action_round_trip(a: UserAction)
    requires
        wf_user_action(a),
        user_action_depth(a) <= MAX_ACTION_DEPTH as nat,
    ensures
        spec_decode_user_action(spec_encode_user_action(a)) == Some(user_action_view(a)),
{
    lemma_user_action_decode_encode(a);
}

/// A user action nested deeper than [`MAX_ACTION_DEPTH`] levels is rejected
/// by the decoder, whatever stands around the nesting.
pub proof fn lemma_deep_nesting_rejected(a: UserAction)
    requires
        wf_user_action(a),
        user_action_depth(a) > MAX_ACTION_DEPTH as nat,
    ensures
        spec_decode_user_action(spec_encode_user_action(a)) is None,
{
    lemma_user_action_decode_encode(a);
}

/// Shared skeleton of the two user-action laws.
proof fn lemma_user_action_decode_encode(a: UserAction)
    requires
        wf_user_action(a),
    ensures
        user_action_depth(a) <= MAX_ACTION_DEPTH as nat ==> spec_decode_user_action(
            spec_encode_user_action(a),
        ) == Some(user_action_view(a)),
        user_action_depth(a) > MAX_ACTION_DEPTH as nat ==> spec_decode_user_action(
            spec_encode_user_action(a),
        ) is None,
{
    match a {
        UserAction::V1 { destination } => {
            let s = spec_encode_user_action(a);
            let loc_enc = spec_encode_location(destination);
            assert(s[0] == 0);
            assert(s.subrange(1, 1 + loc_enc.len() as int) =~= loc_enc);
            lemma_location_decode_encode(destination, s, 1, MAX_ACTION_DEPTH as nat);
        },
    }
}

} // verus!
