//! Byte-sequence primitives shared by the wire-format decoders and encoders:
//! big-endian integer views of byte runs, range copies, and range predicates.

use vstd::prelude::*;

verus! {

/// `256 ^ n`, the number of values a run of `n` bytes can take.
pub open spec fn pow256(n: nat) -> nat
    decreases n,
{
    if n == 0 {
        1
    } else {
        256 * pow256((n - 1) as nat)
    }
}

/// The value of a byte sequence read as a big-endian unsigned integer.
pub open spec fn be_val(s: Seq<u8>) -> nat
    decreases s.len(),
{
    if s.len() == 0 {
        0
    } else {
        (be_val(s.drop_last()) * 256 + s.last()) as nat
    }
}

/// Byte `k` (counting from the least significant end) of the big-endian
/// encoding of `n`.
pub open spec fn byte_of(n: nat, k: nat) -> u8 {
    ((n / pow256(k)) % 256) as u8
}

/// The `len`-byte big-endian encoding of `n` (most significant byte first).
pub open spec fn be_bytes(n: nat, len: nat) -> Seq<u8> {
    Seq::new(len, |i: int| byte_of(n, (len - 1 - i) as nat))
}

pub proof fn lemma_pow256_positive(n: nat)
    ensures
        pow256(n) >= 1,
    decreases n,
{
    if n > 0 {
        lemma_pow256_positive((n - 1) as nat);
    }
}

/// A run of `len` bytes, read big-endian, is below `256 ^ len`.
pub proof fn lemma_be_val_bound(s: Seq<u8>)
    ensures
        be_val(s) < pow256(s.len()),
    decreases s.len(),
{
    if s.len() == 0 {
    } else {
        lemma_be_val_bound(s.drop_last());
    }
}

/// Appending one byte shifts the big-endian value by one place.
pub proof fn lemma_be_val_push(s: Seq<u8>, b: u8)
    ensures
        be_val(s.push(b)) == be_val(s) * 256 + b,
{
    assert(s.push(b).drop_last() =~= s);
}

/// Dividing away the low byte of `n` drops the low digit of its encoding.
pub proof fn lemma_byte_of_shift(n: nat, k: nat)
    ensures
        byte_of(n / 256, k) == byte_of(n, k + 1),
{
    assert(pow256(k + 1) == 256 * pow256(k));
    lemma_pow256_positive(k);
    assert(n / 256 / pow256(k) == n / (256 * pow256(k))) by (nonlinear_arith)
        requires pow256(k) >= 1,
    ;
}

/// Once `n` is exhausted, every higher digit of its encoding is zero.
pub proof fn lemma_byte_of_zero(n: nat, k: nat)
    requires
        n < pow256(k),
    ensures
        byte_of(n, k) == 0,
{
    lemma_pow256_positive(k);
    assert(n / pow256(k) == 0) by (nonlinear_arith)
        requires n < pow256(k), pow256(k) >= 1,
    ;
}

/// Reading an encoding back yields the encoded number.
pub proof fn lemma_be_val_of_be_bytes(n: nat, len: nat)
    requires
        n < pow256(len),
    ensures
        be_val(be_bytes(n, len)) == n,
    decreases len,
{
    if len == 0 {
        assert(be_bytes(n, 0) =~= Seq::<u8>::empty());
    } else {
        let m: nat = n / 256;
        assert forall|i: int| 0 <= i < len - 1 implies be_bytes(n, len).drop_last()[i]
            == be_bytes(m, (len - 1) as nat)[i] by {
            lemma_byte_of_shift(n, (len - 2 - i) as nat);
        }
        assert(be_bytes(n, len).drop_last() =~= be_bytes(m, (len - 1) as nat));
        assert(m < pow256((len - 1) as nat)) by (nonlinear_arith)
            requires
                n < pow256(len),
                pow256(len) == 256 * pow256((len - 1) as nat),
                m == n / 256,
        ;
        lemma_be_val_of_be_bytes(m, (len - 1) as nat);
        assert(be_bytes(n, len).last() == byte_of(n, 0));
        assert(pow256(0) == 1);
        assert(byte_of(n, 0) == n % 256);
    }
}

/// `pow256` grows with its exponent.
pub proof fn lemma_pow256_mono(a: nat, b: nat)
    requires
        a <= b,
    ensures
        pow256(a) <= pow256(b),
    decreases b,
{
    if a < b {
        lemma_pow256_mono(a, (b - 1) as nat);
        lemma_pow256_positive((b - 1) as nat);
    }
}

/// Splitting a sequence splits its big-endian value by place value.
pub proof fn lemma_be_val_split(s: Seq<u8>, k: int)
    requires
        0 <= k <= s.len(),
    ensures
        be_val(s) == be_val(s.take(k)) * pow256((s.len() - k) as nat) + be_val(s.skip(k)),
    decreases s.len(),
{
    if s.len() == k {
        assert(s.take(k) =~= s);
        assert(s.skip(k) =~= Seq::<u8>::empty());
        assert(pow256(0) == 1);
    } else {
        lemma_be_val_split(s.drop_last(), k);
        assert(s.drop_last().take(k) =~= s.take(k));
        assert(s.skip(k).drop_last() =~= s.drop_last().skip(k));
        assert(s.skip(k).last() == s.last());
        let n1: nat = (s.len() - 1 - k) as nat;
        assert(pow256((s.len() - k) as nat) == 256 * pow256(n1));
        assert((be_val(s.take(k)) * pow256(n1) + be_val(s.drop_last().skip(k))) * 256 == be_val(
            s.take(k),
        ) * (256 * pow256(n1)) + be_val(s.drop_last().skip(k)) * 256) by (nonlinear_arith);
        assert(be_val(s) == be_val(s.drop_last()) * 256 + s.last());
        assert(be_val(s.drop_last()) == be_val(s.take(k)) * pow256(n1) + be_val(
            s.drop_last().skip(k),
        ));
        assert(be_val(s.skip(k)) == be_val(s.drop_last().skip(k)) * 256 + s.last());
        assert(be_val(s.take(k)) * pow256((s.len() - k) as nat) == be_val(s.take(k)) * (256
            * pow256(n1)));
    }
}

/// Zero bytes at the front of a sequence do not change its big-endian value.
pub proof fn lemma_be_val_zero_prefix(s: Seq<u8>, k: nat)
    requires
        k <= s.len(),
        forall|i: int| 0 <= i < k ==> s[i] == 0,
    ensures
        be_val(s) == be_val(s.skip(k as int)),
    decreases s.len(),
{
    if s.len() == k {
        assert(s.skip(k as int) =~= Seq::<u8>::empty());
        lemma_be_val_all_zero(s);
    } else {
        lemma_be_val_zero_prefix(s.drop_last(), k);
        assert(s.skip(k as int).drop_last() =~= s.drop_last().skip(k as int));
        assert(s.skip(k as int).last() == s.last());
    }
}

/// A sequence of zero bytes has value zero.
pub proof fn lemma_be_val_all_zero(s: Seq<u8>)
    requires
        forall|i: int| 0 <= i < s.len() ==> s[i] == 0,
    ensures
        be_val(s) == 0,
    decreases s.len(),
{
    if s.len() > 0 {
        lemma_be_val_all_zero(s.drop_last());
    }
}

/// Each byte contributes at least its place value.
pub proof fn lemma_be_val_lower(s: Seq<u8>, i: int)
    requires
        0 <= i < s.len(),
    ensures
        be_val(s) >= s[i] * pow256((s.len() - 1 - i) as nat),
    decreases s.len(),
{
    assert(be_val(s) == be_val(s.drop_last()) * 256 + s.last());
    if i == s.len() - 1 {
        assert((s.len() - 1 - i) as nat == 0);
        assert(pow256((s.len() - 1 - i) as nat) == 1);
        assert(s.last() == s[i]);
        assert(s[i] * pow256((s.len() - 1 - i) as nat) == s[i] * 1);
        assert(be_val(s) >= s[i]);
    } else {
        lemma_be_val_lower(s.drop_last(), i);
        let p: nat = (s.len() - 2 - i) as nat;
        assert(s.drop_last()[i] == s[i]);
        assert(be_val(s.drop_last()) >= s[i] * pow256(p));
        assert(pow256((s.len() - 1 - i) as nat) == 256 * pow256(p));
        assert(be_val(s.drop_last()) * 256 >= (s[i] * pow256(p)) * 256) by (nonlinear_arith)
            requires be_val(s.drop_last()) >= s[i] * pow256(p),
        ;
        assert((s[i] * pow256(p)) * 256 == s[i] * (256 * pow256(p))) by (nonlinear_arith);
    }
}

/// Reads `data[pos .. pos + 4]` as a big-endian `u32`.
pub fn read_be_u32(data: &Vec<u8>, pos: usize) -> (r: u32)
    requires
        pos + 4 <= data@.len(),
    ensures
        r == be_val(data@.subrange(pos as int, pos as int + 4)),
{
    let dlen: usize = data.len();
    let mut acc: u32 = 0;
    let mut i: usize = 0;
    while i < 4
        invariant
            i <= 4,
            dlen == data@.len(),
            pos + 4 <= dlen,
            acc == be_val(data@.subrange(pos as int, pos as int + i)),
            acc < pow256(i as nat),
        decreases 4 - i,
    {
        proof {
            reveal_with_fuel(pow256, 6);
            lemma_be_val_push(data@.subrange(pos as int, pos as int + i), data@[pos + i]);
            assert(data@.subrange(pos as int, pos as int + i).push(data@[pos + i])
                =~= data@.subrange(pos as int, pos as int + i + 1));
        }
        acc = acc * 256 + data[pos + i] as u32;
        i = i + 1;
    }
    assert(data@.subrange(pos as int, pos as int + 4) =~= data@.subrange(
        pos as int,
        pos as int + i,
    ));
    acc
}

/// Reads `data[pos .. pos + 16]` as a big-endian `u128`.
pub fn read_be_u128(data: &Vec<u8>, pos: usize) -> (r: u128)
    requires
        pos + 16 <= data@.len(),
    ensures
        r == be_val(data@.subrange(pos as int, pos as int + 16)),
{
    let dlen: usize = data.len();
    let mut acc: u128 = 0;
    let mut i: usize = 0;
    while i < 16
        invariant
            i <= 16,
            dlen == data@.len(),
            pos + 16 <= dlen,
            acc == be_val(data@.subrange(pos as int, pos as int + i)),
            acc < pow256(i as nat),
        decreases 16 - i,
    {
        proof {
            reveal_with_fuel(pow256, 17);
            lemma_be_val_push(data@.subrange(pos as int, pos as int + i), data@[pos + i]);
            assert(data@.subrange(pos as int, pos as int + i).push(data@[pos + i])
                =~= data@.subrange(pos as int, pos as int + i + 1));
        }
        acc = acc * 256 + data[pos + i] as u128;
        i = i + 1;
    }
    assert(data@.subrange(pos as int, pos as int + 16) =~= data@.subrange(
        pos as int,
        pos as int + i,
    ));
    acc
}

/// True exactly when every byte of `data[from .. to]` is zero.
pub fn range_is_zero(data: &Vec<u8>, from: usize, to: usize) -> (r: bool)
    requires
        from <= to <= data@.len(),
    ensures
        r == (forall|i: int| from <= i < to ==> data@[i] == 0),
{
    let mut i: usize = from;
    while i < to
        invariant
            from <= i <= to <= data@.len(),
            forall|j: int| from <= j < i ==> data@[j] == 0,
        decreases to - i,
    {
        if data[i] != 0 {
            return false;
        }
        i = i + 1;
    }
    true
}

/// Copies `data[from .. to]` into a fresh vector.
pub fn copy_range(data: &Vec<u8>, from: usize, to: usize) -> (r: Vec<u8>)
    requires
        from <= to <= data@.len(),
    ensures
        r@ == data@.subrange(from as int, to as int),
{
    let mut out: Vec<u8> = Vec::new();
    let mut i: usize = from;
    while i < to
        invariant
            from <= i <= to <= data@.len(),
            out@ =~= data@.subrange(from as int, i as int),
        decreases to - i,
    {
        out.push(data[i]);
        proof {
            assert(out@ =~= data@.subrange(from as int, i + 1));
        }
        i = i + 1;
    }
    assert(out@ =~= data@.subrange(from as int, to as int));
    out
}

/// Copies a whole byte vector.
pub fn copy_bytes(data: &Vec<u8>) -> (r: Vec<u8>)
    ensures
        r@ == data@,
{
    let r = copy_range(data, 0, data.len());
    proof {
        assert(r@ =~= data@);
    }
    r
}

/// True exactly when the two vectors hold the same bytes.
pub fn bytes_eq(a: &Vec<u8>, b: &Vec<u8>) -> (r: bool)
    ensures
        r == (a@ == b@),
{
    if a.len() != b.len() {
        proof {
            assert(a@.len() != b@.len());
        }
        return false;
    }
    let mut i: usize = 0;
    while i < a.len()
        invariant
            i <= a@.len(),
            a@.len() == b@.len(),
            forall|j: int| 0 <= j < i ==> a@[j] == b@[j],
        decreases a@.len() - i,
    {
        if a[i] != b[i] {
            return false;
        }
        i = i + 1;
    }
    proof {
        assert(a@ =~= b@);
    }
    true
}

/// Appends the `len`-byte big-endian encoding of `n` to `out`.
///
/// Bytes beyond the width of `n` (`n < 2^64`) come out as zero, so a 32-byte
/// word holds 24 zero bytes followed by the 8-byte encoding.
pub fn push_be_bytes(out: &mut Vec<u8>, n: u64, len: usize)
    ensures
        final(out)@ == old(out)@ + be_bytes(n as nat, len as nat),
{
    proof {
        reveal_with_fuel(pow256, 9);
    }
    let mut i: usize = 0;
    while i < len
        invariant
            i <= len,
            out@ == old(out)@ + be_bytes(n as nat, len as nat).subrange(0, i as int),
        decreases len - i,
    {
        let k: usize = len - 1 - i;
        let b: u8 = if k >= 8 {
            proof {
                lemma_pow256_ge_k8(k as nat);
                lemma_byte_of_zero(n as nat, k as nat);
            }
            0u8
        } else {
            proof {
                assert(pow256(0) == 1);
                assert(n as nat / pow256(0) == n as nat);
            }
            let mut m: u64 = n;
            let mut j: usize = 0;
            while j < k
                invariant
                    j <= k < 8,
                    m == n as nat / pow256(j as nat),
                decreases k - j,
            {
                proof {
                    lemma_pow256_positive(j as nat);
                    assert(n as nat / pow256(j as nat) / 256 == n as nat / (pow256(j as nat) * 256))
                        by (nonlinear_arith)
                        requires pow256(j as nat) >= 1,
                    ;
                    assert(pow256(j as nat + 1) == 256 * pow256(j as nat));
                }
                m = m / 256;
                j = j + 1;
            }
            proof {
                lemma_pow256_positive(k as nat);
            }
            (m % 256) as u8
        };
        proof {
            assert(b == byte_of(n as nat, k as nat));
            assert(be_bytes(n as nat, len as nat)[i as int] == byte_of(
                n as nat,
                (len - 1 - i) as nat,
            ));
            assert(be_bytes(n as nat, len as nat).subrange(0, i as int).push(b) =~= be_bytes(
                n as nat,
                len as nat,
            ).subrange(0, i + 1));
        }
        out.push(b);
        i = i + 1;
    }
    proof {
        assert(be_bytes(n as nat, len as nat).subrange(0, len as int) =~= be_bytes(
            n as nat,
            len as nat,
        ));
    }
}

/// `256 ^ k` dominates `2 ^ 64` from `k = 8` on.
proof fn lemma_pow256_ge_k8(k: nat)
    requires
        k >= 8,
    ensures
        pow256(k) > u64::MAX,
    decreases k,
{
    reveal_with_fuel(pow256, 9);
    if k > 8 {
        lemma_pow256_ge_k8((k - 1) as nat);
        lemma_pow256_positive((k - 1) as nat);
    }
}

} // verus!
