//! Wire-level primitives of the protocol: base-128 variable-length integers
//! and little-endian 32-bit scalars.
//!
//! Every multi-byte quantity on the wire is either a varint (tags, lengths,
//! counters) or a fixed 32-bit group (scalar coordinates). The spec functions
//! here define those byte shapes once; the message modules build on them.

use vstd::prelude::*;

verus! {

/// Minimal base-128 encoding of `n`: seven value bits per byte, least
/// significant group first, the high bit marking a continuation byte.
pub open spec fn spec_varint(n: nat) -> Seq<u8>
    decreases n,
{
    if n < 128 {
        seq![n as u8]
    } else {
        seq![(128 + n % 128) as u8] + spec_varint(n / 128)
    }
}

/// Strict varint reader: consumes the encoding at `pos` and yields the value
/// and the position just past it. Rejects a truncated encoding and a
/// non-minimal one (a continuation into a zero-valued high group).
pub open spec fn spec_dec_varint(s: Seq<u8>, pos: int) -> Option<(nat, int)>
    decreases s.len() - pos,
{
    if pos < 0 || pos >= s.len() {
        None
    } else if s[pos] < 128 {
        Some((s[pos] as nat, pos + 1))
    } else {
        match spec_dec_varint(s, pos + 1) {
            Some((m, q)) => if m == 0 {
                None
            } else {
                Some(((s[pos] - 128) as nat + 128 * m, q))
            },
            None => None,
        }
    }
}

/// 128 to the power `k`: the smallest value whose minimal varint encoding
/// needs more than `k` bytes.
pub open spec fn pow128(k: nat) -> nat
    decreases k,
{
    if k == 0 {
        1
    } else {
        128 * pow128((k - 1) as nat)
    }
}

/// A value below `pow128(k)` encodes in at most `k` bytes.
pub proof fn lemma_varint_len_le(n: nat, k: nat)
    requires
        1 <= k,
        n < pow128(k),
    ensures
        spec_varint(n).len() <= k,
    decreases k,
{
    if n >= 128 {
        assert(pow128(k) == 128 * pow128((k - 1) as nat));
        assert(n / 128 < pow128((k - 1) as nat)) by (nonlinear_arith)
            requires
                n < 128 * pow128((k - 1) as nat),
        ;
        lemma_varint_len_le(n / 128, (k - 1) as nat);
    }
}

/// Reading an encoding back yields the encoded value.
pub proof fn lemma_varint_round_trip(s: Seq<u8>, pos: int, n: nat)
    requires
        0 <= pos,
        pos + spec_varint(n).len() <= s.len(),
        s.subrange(pos, pos + spec_varint(n).len()) == spec_varint(n),
    ensures
        spec_dec_varint(s, pos) == Some((n, pos + spec_varint(n).len())),
    decreases n,
{
    let enc = spec_varint(n);
    assert(s[pos] == enc[0]);
    if n < 128 {
        assert(spec_dec_varint(s, pos) == Some((n, pos + 1)));
    } else {
        let tail = spec_varint(n / 128);
        assert(enc == seq![(128 + n % 128) as u8] + tail);
        assert(s.subrange(pos + 1, pos + enc.len()) =~= enc.subrange(1, enc.len() as int));
        assert(enc.subrange(1, enc.len() as int) =~= tail);
        lemma_varint_round_trip(s, pos + 1, n / 128);
        assert(n / 128 != 0);
        vstd::arithmetic::div_mod::lemma_fundamental_div_mod(n as int, 128);
        assert((s[pos] - 128) as nat + 128 * (n / 128) == n);
    }
}

/// A successful read ends strictly after `pos` and within the buffer.
pub proof fn lemma_dec_varint_range(s: Seq<u8>, pos: int)
    requires
        0 <= pos,
    ensures
        spec_dec_varint(s, pos) matches Some(vq) ==> pos < vq.1 <= s.len(),
    decreases s.len() - pos,
{
    if pos < s.len() && s[pos] >= 128 {
        lemma_dec_varint_range(s, pos + 1);
    }
}

/// If the bytes from `pos` up to `j` are all continuation bytes and decoding
/// from `j` fails, decoding from `pos` fails as well.
pub proof fn lemma_dec_varint_cont_none(s: Seq<u8>, pos: int, j: int)
    requires
        0 <= pos <= j <= s.len(),
        forall|i: int| pos <= i < j ==> s[i] >= 128,
        spec_dec_varint(s, j) is None,
    ensures
        spec_dec_varint(s, pos) is None,
    decreases j - pos,
{
    if pos < j {
        lemma_dec_varint_cont_none(s, pos + 1, j);
    }
}

/// Continuation bytes in front of a decodable varint only grow its value and
/// keep its end position.
pub proof fn lemma_dec_varint_cont_ge(s: Seq<u8>, pos: int, j: int, v: nat, q: int)
    requires
        0 <= pos <= j <= s.len(),
        forall|i: int| pos <= i < j ==> s[i] >= 128,
        spec_dec_varint(s, j) == Some((v, q)),
    ensures
        spec_dec_varint(s, pos) is None || {
            &&& spec_dec_varint(s, pos) matches Some((v2, q2))
            &&& v2 >= v
            &&& q2 == q
        },
    decreases j - pos,
{
    if pos < j {
        lemma_dec_varint_cont_ge(s, pos + 1, j, v, q);
        match spec_dec_varint(s, pos + 1) {
            Some((m, q2)) => {
                if m != 0 {
                    assert((s[pos] - 128) as nat + 128 * m >= m) by (nonlinear_arith);
                }
            },
            None => {},
        }
    }
}

/// A run of `k` continuation bytes forces any decoded value to at least
/// `pow128(k)`.
pub proof fn lemma_dec_varint_min(s: Seq<u8>, pos: int, k: nat)
    requires
        1 <= k,
        0 <= pos,
        pos + k <= s.len(),
        forall|i: int| pos <= i < pos + k ==> s[i] >= 128,
    ensures
        spec_dec_varint(s, pos) is None || spec_dec_varint(s, pos)->Some_0.0 >= pow128(k),
    decreases k,
{
    match spec_dec_varint(s, pos) {
        Some((v, q)) => {
            let inner = spec_dec_varint(s, pos + 1);
            assert(inner is Some);
            let m = inner->Some_0.0;
            assert(m != 0);
            if k == 1 {
                assert(v == (s[pos] - 128) as nat + 128 * m);
                assert(v >= 128 * 1) by (nonlinear_arith)
                    requires
                        v == (s[pos] - 128) as nat + 128 * m,
                        m >= 1,
                ;
            } else {
                lemma_dec_varint_min(s, pos + 1, (k - 1) as nat);
                assert(m >= pow128((k - 1) as nat));
                assert(v >= 128 * pow128((k - 1) as nat)) by (nonlinear_arith)
                    requires
                        v == (s[pos] - 128) as nat + 128 * m,
                        m >= pow128((k - 1) as nat),
                ;
            }
        },
        None => {},
    }
}

/// Appends the varint encoding of `n` to `out`.
pub fn encode_varint(out: &mut Vec<u8>, n: u64)
    ensures
        final(out)@ == old(out)@ + spec_varint(n as nat),
{
    let mut v: u64 = n;
    while v >= 128
        invariant
            out@ + spec_varint(v as nat) == old(out)@ + spec_varint(n as nat),
        decreases v,
    {
        let ghost prev = v as nat;
        out.push((v % 128 + 128) as u8);
        v = v / 128;
        proof {
            assert(spec_varint(prev) == seq![(128 + prev % 128) as u8] + spec_varint(prev / 128));
            assert(out@ + spec_varint(v as nat) =~= old(out)@ + spec_varint(n as nat));
        }
    }
    out.push(v as u8);
    proof {
        assert(spec_varint(v as nat) == seq![v as u8]);
        assert(final(out)@ =~= old(out)@ + spec_varint(n as nat));
    }
}

/// Reads a varint at `pos`. Mirrors `spec_dec_varint`, except that a value
/// too large for `u64` is reported as a decode failure.
pub fn decode_varint(buf: &[u8], pos: usize) -> (r: Option<(u64, usize)>)
    requires
        pos <= buf@.len(),
    ensures
        match spec_dec_varint(buf@, pos as int) {
            Some(vq) => if vq.0 <= u64::MAX {
                r == Some((vq.0 as u64, vq.1 as usize))
            } else {
                r is None
            },
            None => r is None,
        },
{
    let len = buf.len();
    // Locate the terminating byte; a canonical `u64` varint spans at most ten
    // bytes, so a longer run of continuation bytes cannot fit the result type.
    let mut e = pos;
    loop
        invariant_except_break
            pos <= e <= len,
            len == buf@.len(),
            e - pos <= 9,
            forall|i: int| pos <= i < e ==> buf@[i] >= 128,
        ensures
            pos <= e < len,
            len == buf@.len(),
            e - pos <= 9,
            buf@[e as int] < 128,
            forall|i: int| pos <= i < e ==> buf@[i] >= 128,
        decreases len - e,
    {
        if e >= len {
            proof {
                lemma_dec_varint_cont_none(buf@, pos as int, len as int);
            }
            return None;
        }
        if buf[e] < 128 {
            break;
        }
        if e - pos == 9 {
            proof {
                lemma_dec_varint_min(buf@, pos as int, 10);
                reveal_with_fuel(pow128, 11);
                assert(pow128(10) > u64::MAX);
            }
            return None;
        }
        e = e + 1;
    }
    // Accumulate the value right to left, following the recursive shape of
    // `spec_dec_varint`.
    let mut v: u64 = buf[e] as u64;
    let mut j = e;
    while j > pos
        invariant
            pos <= j <= e,
            e < len,
            len == buf@.len(),
            forall|i: int| pos <= i < e ==> buf@[i] >= 128,
            spec_dec_varint(buf@, j as int) == Some((v as nat, e + 1 as int)),
        decreases j - pos,
    {
        j = j - 1;
        let c = buf[j];
        let cc = (c - 128) as u64;
        if v == 0 {
            proof {
                lemma_dec_varint_cont_none(buf@, pos as int, j as int);
            }
            return None;
        }
        if v > (u64::MAX - cc) / 128 {
            proof {
                assert(cc as nat + 128 * (v as nat) > u64::MAX) by (nonlinear_arith)
                    requires
                        v as nat > ((u64::MAX - cc) as nat) / 128,
                        cc <= u64::MAX,
                ;
                lemma_dec_varint_cont_ge(
                    buf@,
                    pos as int,
                    j as int,
                    cc as nat + 128 * (v as nat),
                    e + 1 as int,
                );
            }
            return None;
        }
        proof {
            assert(128 * (v as nat) <= (u64::MAX - cc) as nat) by (nonlinear_arith)
                requires
                    v as nat <= ((u64::MAX - cc) as nat) / 128,
            ;
        }
        v = cc + 128 * v;
    }
    Some((v, e + 1))
}

/// The four little-endian bytes of `v`.
pub open spec fn spec_le32(v: u32) -> Seq<u8> {
    seq![
        (v % 256) as u8,
        ((v / 256) % 256) as u8,
        ((v / 65536) % 256) as u8,
        ((v / 16777216) % 256) as u8,
    ]
}

/// The value stored in four little-endian bytes at `pos`.
pub open spec fn spec_le32_val(s: Seq<u8>, pos: int) -> u32
    recommends
        0 <= pos,
        pos + 4 <= s.len(),
{
    (s[pos] as nat + 256 * (s[pos + 1] as nat) + 65536 * (s[pos + 2] as nat) + 16777216 * (s[pos
        + 3] as nat)) as u32
}

/// Reading four little-endian bytes back yields the stored value.
pub proof fn lemma_le32_round_trip(s: Seq<u8>, pos: int, v: u32)
    requires
        0 <= pos,
        pos + 4 <= s.len(),
        s.subrange(pos, pos + 4) == spec_le32(v),
    ensures
        spec_le32_val(s, pos) == v,
{
    assert(s[pos] == spec_le32(v)[0]);
    assert(s[pos + 1] == spec_le32(v)[1]);
    assert(s[pos + 2] == spec_le32(v)[2]);
    assert(s[pos + 3] == spec_le32(v)[3]);
    assert(v % 256 + 256 * ((v / 256) % 256) + 65536 * ((v / 65536) % 256) + 16777216 * ((v
        / 16777216) % 256) == v) by (bit_vector);
}

/// Appends the four little-endian bytes of `v` to `out`.
pub fn put_le32(out: &mut Vec<u8>, v: u32)
    ensures
        final(out)@ == old(out)@ + spec_le32(v),
{
    out.push((v % 256) as u8);
    out.push(((v / 256) % 256) as u8);
    out.push(((v / 65536) % 256) as u8);
    out.push(((v / 16777216) % 256) as u8);
    proof {
        assert(final(out)@ =~= old(out)@ + spec_le32(v));
    }
}

/// Reads the 32-bit value stored at `pos`.
pub fn get_le32(buf: &[u8], pos: usize) -> (r: u32)
    requires
        pos + 4 <= buf@.len(),
    ensures
        r == spec_le32_val(buf@, pos as int),
{
    let b0 = buf[pos] as u32;
    let b1 = buf[pos + 1] as u32;
    let b2 = buf[pos + 2] as u32;
    let b3 = buf[pos + 3] as u32;
    b0 + 256 * b1 + 65536 * b2 + 16777216 * b3
}

} // verus!
