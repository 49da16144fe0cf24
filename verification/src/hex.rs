//! Parsing of textual 20-byte contract addresses ("0x" followed by 40 hex
//! digits), used to read the external contracts' configured addresses.

use vstd::prelude::*;
use vstd::string::StringSliceAdditionalSpecFns;

verus! {

/// True for the byte of an ASCII hex digit.
pub open spec fn spec_is_hex_digit(b: u8) -> bool {
    (48 <= b && b <= 57) || (97 <= b && b <= 102) || (65 <= b && b <= 70)
}

/// The value of an ASCII hex digit's byte (zero on other bytes).
pub open spec fn spec_hex_digit_val(b: u8) -> u8 {
    if 48 <= b && b <= 57 {
        (b - 48) as u8
    } else if 97 <= b && b <= 102 {
        (b - 87) as u8
    } else if 65 <= b && b <= 70 {
        (b - 55) as u8
    } else {
        0
    }
}

/// The 20 bytes a textual address holds: "0x", then 40 hex digits, two per
/// byte; `None` on any other text.
pub open spec fn spec_parse_hex_address(t: Seq<u8>) -> Option<Seq<u8>> {
    if t.len() == 42 && t[0] == 48 && t[1] == 120 && (forall|i: int|
        2 <= i < 42 ==> spec_is_hex_digit(t[i])) {
        Some(
            Seq::new(
                20,
                |i: int| (spec_hex_digit_val(t[2 + 2 * i]) * 16 + spec_hex_digit_val(
                    t[3 + 2 * i],
                )) as u8,
            ),
        )
    } else {
        None
    }
}

/// The value of one hex digit byte, or `None` when it is no hex digit.
pub fn hex_digit_val(b: u8) -> (r: Option<u8>)
    ensures
        match r {
            Some(v) => spec_is_hex_digit(b) && v == spec_hex_digit_val(b) && v <= 15,
            None => !spec_is_hex_digit(b),
        },
{
    if 48 <= b && b <= 57 {
        Some(b - 48)
    } else if 97 <= b && b <= 102 {
        Some(b - 87)
    } else if 65 <= b && b <= 70 {
        Some(b - 55)
    } else {
        None
    }
}

/// Parses a textual 20-byte address.
pub fn parse_hex_address(text: &str) -> (r: Option<Vec<u8>>)
    ensures
        match r {
            Some(address) => spec_parse_hex_address(text.spec_bytes()) == Some(address@)
                && address@.len() == 20,
            None => spec_parse_hex_address(text.spec_bytes()) is None,
        },
{
    let bytes: &[u8] = text.as_bytes();
    if bytes.len() != 42 {
        return None;
    }
    if bytes[0] != 48 || bytes[1] != 120 {
        return None;
    }
    let mut out: Vec<u8> = Vec::new();
    let mut i: usize = 0;
    while i < 20
        invariant
            i <= 20,
            bytes@ == text.spec_bytes(),
            bytes@.len() == 42,
            bytes@[0] == 48,
            bytes@[1] == 120,
            forall|j: int| 2 <= j < 2 + 2 * i ==> spec_is_hex_digit(bytes@[j]),
            out@.len() == i,
            forall|j: int|
                0 <= j < i ==> out@[j] == (spec_hex_digit_val(bytes@[2 + 2 * j]) * 16
                    + spec_hex_digit_val(bytes@[3 + 2 * j])) as u8,
        decreases 20 - i,
    {
        let hi: u8 = match hex_digit_val(bytes[2 + 2 * i]) {
            Some(v) => v,
            None => {
                return None;
            },
        };
        let lo: u8 = match hex_digit_val(bytes[3 + 2 * i]) {
            Some(v) => v,
            None => {
                return None;
            },
        };
        out.push(hi * 16 + lo);
        i = i + 1;
    }
    proof {
        let t = text.spec_bytes();
        assert(spec_parse_hex_address(t) is Some);
        assert(out@ =~= spec_parse_hex_address(t).unwrap());
    }
    Some(out)
}

} // verus!
