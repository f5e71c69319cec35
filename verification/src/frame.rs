//! Wire framing: building a frame around a payload, extracting complete
//! frames from an accumulation buffer, and the laws that extraction
//! inverts framing and is insensitive to how the stream is chunked.

use vstd::prelude::*;

use crate::fields::{
    lemma_split_suffix, spec_enc_varint_field,
};
use crate::proto::declare::{lemma_trailer_round_trip, spec_dec_trailer, spec_enc_trailer, Trailer};
use crate::proto_decode::{read_trailer, spec_read_trailer};
use crate::wire::{encode_varint, lemma_varint_len_le, pow128, spec_varint};
use vstd::slice::{slice_subrange, slice_to_vec};

verus! {

/// The frame around payload `p`: a trailer declaring its own length and
/// the payload length, followed by the payload bytes.
pub open spec fn spec_frame_bytes(p: Seq<u8>) -> Seq<u8> {
    let next_field = spec_enc_varint_field(0x10, p.len());
    seq![0x08u8, (2 + next_field.len()) as u8] + next_field + p
}

/// The leading bytes of a frame are exactly the encoded trailer, and the
/// trailer's `me` field equals that encoding's length.
pub proof fn lemma_frame_trailer(p: Seq<u8>)
    requires
        p.len() <= 0xFFFF_FFFF,
    ensures
        ({
            let next_field = spec_enc_varint_field(0x10, p.len());
            let t = Trailer { me: (2 + next_field.len()) as u32, next: p.len() as u32 };
            &&& next_field.len() <= 6
            &&& spec_enc_trailer(t) == seq![0x08u8, t.me as u8] + next_field
            &&& spec_enc_trailer(t).len() == t.me
            &&& spec_frame_bytes(p) == spec_enc_trailer(t) + p
        }),
{
    let next_field = spec_enc_varint_field(0x10, p.len());
    if p.len() > 0 {
        reveal_with_fuel(pow128, 6);
        lemma_varint_len_le(p.len(), 5);
    }
    let t = Trailer { me: (2 + next_field.len()) as u32, next: p.len() as u32 };
    assert(spec_varint(t.me as nat) =~= seq![t.me as u8]);
    assert(spec_enc_trailer(t) =~= seq![0x08u8, t.me as u8] + next_field);
    assert(spec_frame_bytes(p) =~= spec_enc_trailer(t) + p);
}

/// Builds the frame for `payload`.
pub fn frame_bytes(payload: &Vec<u8>) -> (out: Vec<u8>)
    requires
        payload@.len() <= 0xFFFF_FFFF,
    ensures
        out@ == spec_frame_bytes(payload@),
{
    let mut next_field: Vec<u8> = Vec::new();
    if payload.len() > 0 {
        next_field.push(0x10);
        encode_varint(&mut next_field, payload.len() as u64);
    }
    proof {
        assert(next_field@ =~= spec_enc_varint_field(0x10, payload@.len()));
        lemma_frame_trailer(payload@);
    }
    let mut out: Vec<u8> = Vec::new();
    out.push(0x08);
    out.push((2 + next_field.len()) as u8);
    out.extend_from_slice(next_field.as_slice());
    out.extend_from_slice(payload.as_slice());
    proof {
        assert(out@ =~= spec_frame_bytes(payload@));
    }
    out
}

/// Extraction of the first complete frame: the payload the trailer at the
/// buffer's start announces, and the bytes after it, or `None` while no
/// complete frame has arrived (or the trailer is malformed).
pub open spec fn spec_extract(s: Seq<u8>) -> Option<(Seq<u8>, Seq<u8>)> {
    match spec_read_trailer(s, 0) {
        None => None,
        Some((l, r)) => if r <= s.len() {
            Some((s.subrange(l, r), s.subrange(r, s.len() as int)))
        } else {
            None
        },
    }
}

/// Extracting a frame consumes at least its two trailer bytes.
pub proof fn lemma_extract_progress(s: Seq<u8>)
    ensures
        spec_extract(s) matches Some(pr) ==> pr.1.len() + 2 <= s.len(),
{
    crate::proto_decode::lemma_read_trailer_range(s, 0);
}

/// Removes the first complete frame from the accumulation buffer and
/// returns its payload.
pub fn extract_frame(buf: &mut Vec<u8>) -> (r: Option<Vec<u8>>)
    ensures
        match spec_extract(old(buf)@) {
            None => r is None && final(buf)@ == old(buf)@,
            Some(pr) => {
                &&& r matches Some(pv) && pv@ == pr.0
                &&& final(buf)@ == pr.1
            },
        },
{
    let blen = buf.len();
    match read_trailer(buf.as_slice(), 0) {
        None => None,
        Some((l, r)) => {
            if r <= blen {
                let payload = slice_to_vec(slice_subrange(buf.as_slice(), l, r));
                let rest = slice_to_vec(slice_subrange(buf.as_slice(), r, blen));
                *buf = rest;
                Some(payload)
            } else {
                None
            }
        },
    }
}

/// Framing round-trip for any trailer-valid framing: whenever the leading
/// bytes form a self-locating trailer — the byte at offset one gives
/// their length, they decode as a trailer, and its `next` field is the
/// payload length — extraction yields exactly the payload and leaves what
/// follows. The stream must reach the reader's four-byte minimum.
pub proof fn lemma_extract_any_framing(tb: Seq<u8>, tr: Trailer, p: Seq<u8>, rest: Seq<u8>)
    requires
        2 <= tb.len(),
        tb[1] == tb.len(),
        spec_dec_trailer(tb) == Some(tr),
        tr.next == p.len(),
        tb.len() + p.len() + rest.len() >= 4,
    ensures
        spec_extract(tb + p + rest) == Some((p, rest)),
{
    let s = tb + p + rest;
    assert(s.subrange(0, s.len() as int) =~= tb + (p + rest));
    lemma_split_suffix(s, 0, tb, p + rest);
    lemma_split_suffix(s, tb.len() as int, p, rest);
    assert(s[1] == tb[1]);
    assert(spec_read_trailer(s, 0) == Some(
        (tb.len() as int, tb.len() as int + p.len() as int),
    ));
}

/// Framing round-trip for the framing this crate builds: a framed
/// payload, possibly followed by further bytes, extracts back to exactly
/// that payload and leaves those bytes. An empty payload's frame is two
/// bytes, below the reader's four-byte minimum, so the payload must be
/// nonempty; its length must fit the trailer's 32-bit length field.
pub proof fn lemma_extract_frame(p: Seq<u8>, rest: Seq<u8>)
    requires
        1 <= p.len() <= 0xFFFF_FFFF,
    ensures
        spec_extract(spec_frame_bytes(p) + rest) == Some((p, rest)),
{
    let nf = spec_enc_varint_field(0x10, p.len());
    let t = Trailer { me: (2 + nf.len()) as u32, next: p.len() as u32 };
    lemma_frame_trailer(p);
    lemma_trailer_round_trip(t);
    assert(spec_frame_bytes(p) + rest =~= spec_enc_trailer(t) + p + rest);
    lemma_extract_any_framing(spec_enc_trailer(t), t, p, rest);
}

/// Framing round-trip on a buffer holding exactly one frame.
pub proof fn lemma_frame_round_trip(p: Seq<u8>)
    requires
        1 <= p.len() <= 0xFFFF_FFFF,
    ensures
        spec_extract(spec_frame_bytes(p)) == Some((p, Seq::<u8>::empty())),
{
    assert(spec_frame_bytes(p) + Seq::<u8>::empty() =~= spec_frame_bytes(p));
    lemma_extract_frame(p, Seq::<u8>::empty());
}

/// Repeated extraction: all frame payloads at the front of `s`, in order,
/// and the remainder that is not yet (or never will be) a complete frame.
pub open spec fn spec_drain(s: Seq<u8>) -> (Seq<Seq<u8>>, Seq<u8>)
    decreases s.len(),
{
    match spec_extract(s) {
        None => (seq![], s),
        Some((p, rest)) => if rest.len() < s.len() {
            let (ps, leftover) = spec_drain(rest);
            (seq![p] + ps, leftover)
        } else {
            (seq![], s)
        },
    }
}

/// Extracts every complete frame at the front of the buffer, in arrival
/// order, leaving the remainder that is not yet a complete frame.
pub fn drain_frames(buf: &mut Vec<u8>) -> (outs: Vec<Vec<u8>>)
    ensures
        outs@.map_values(|v: Vec<u8>| v@) == spec_drain(old(buf)@).0,
        final(buf)@ == spec_drain(old(buf)@).1,
{
    let mut outs: Vec<Vec<u8>> = Vec::new();
    loop
        invariant_except_break
            spec_drain(old(buf)@).0 == outs@.map_values(|v: Vec<u8>| v@) + spec_drain(buf@).0,
            spec_drain(old(buf)@).1 == spec_drain(buf@).1,
        ensures
            spec_drain(old(buf)@).0 == outs@.map_values(|v: Vec<u8>| v@) + spec_drain(buf@).0,
            spec_drain(old(buf)@).1 == spec_drain(buf@).1,
            spec_extract(buf@) is None,
        decreases buf@.len(),
    {
        let ghost pre = buf@;
        let ghost pre_outs = outs@;
        proof {
            lemma_extract_progress(pre);
        }
        match extract_frame(buf) {
            None => {
                break;
            },
            Some(p) => {
                outs.push(p);
                proof {
                    assert(outs@.map_values(|v: Vec<u8>| v@) =~= pre_outs.map_values(
                        |v: Vec<u8>| v@,
                    ).push(p@));
                    assert(pre_outs.map_values(|v: Vec<u8>| v@) + (seq![p@] + spec_drain(
                        buf@,
                    ).0) =~= outs@.map_values(|v: Vec<u8>| v@) + spec_drain(buf@).0);
                }
            },
        }
    }
    proof {
        assert(spec_drain(buf@) == (Seq::<Seq<u8>>::empty(), buf@));
        assert(outs@.map_values(|v: Vec<u8>| v@) + spec_drain(buf@).0 =~= outs@.map_values(
            |v: Vec<u8>| v@,
        ));
    }
    outs
}

/// Extraction looks only at the front of the buffer: bytes appended behind
/// a complete frame do not change what is extracted.
pub proof fn lemma_extract_stable(s: Seq<u8>, t: Seq<u8>)
    ensures
        spec_extract(s) matches Some(pr) ==> spec_extract(s + t) == Some(
            (pr.0, pr.1 + t),
        ),
{
    match spec_extract(s) {
        None => {},
        Some((p, rest)) => {
            let st = s + t;
            assert(st[1] == s[1]);
            let me = s[1] as int;
            assert(st.subrange(0, me) =~= s.subrange(0, me));
            match spec_read_trailer(s, 0) {
                None => {},
                Some((l, r)) => {
                    assert(spec_read_trailer(st, 0) == Some((l, r)));
                    assert(st.subrange(l, r) =~= s.subrange(l, r));
                    assert(st.subrange(r, st.len() as int) =~= s.subrange(r, s.len() as int) + t);
                },
            }
        },
    }
}

/// Draining a stream fed in two parts equals draining it fed at once: the
/// first part is drained, the remainder is carried into the second read,
/// and the extracted payloads concatenate.
pub proof fn lemma_drain_append(a: Seq<u8>, b: Seq<u8>)
    ensures
        ({
            let (o1, l1) = spec_drain(a);
            let (o2, l2) = spec_drain(l1 + b);
            spec_drain(a + b) == (o1 + o2, l2)
        }),
    decreases a.len(),
{
    let (o1, l1) = spec_drain(a);
    let (o2, l2) = spec_drain(l1 + b);
    match spec_extract(a) {
        None => {
            assert(l1 == a);
            assert(o1 + o2 =~= o2);
        },
        Some((p, rest)) => {
            lemma_extract_progress(a);
            lemma_extract_stable(a, b);
            let (ps, leftover) = spec_drain(rest);
            assert(o1 == seq![p] + ps && l1 == leftover);
            lemma_drain_append(rest, b);
            assert((rest + b).len() < (a + b).len());
            assert(seq![p] + (ps + o2) =~= (seq![p] + ps) + o2);
        },
    }
}

/// Frames written back to back drain to their payloads in arrival order:
/// the order-preservation guarantee within one connection.
pub proof fn lemma_drain_two_frames(p1: Seq<u8>, p2: Seq<u8>)
    requires
        1 <= p1.len() <= 0xFFFF_FFFF,
        1 <= p2.len() <= 0xFFFF_FFFF,
    ensures
        spec_drain(spec_frame_bytes(p1) + spec_frame_bytes(p2)) == (
            seq![p1, p2],
            Seq::<u8>::empty(),
        ),
{
    let f1 = spec_frame_bytes(p1);
    let f2 = spec_frame_bytes(p2);
    reveal_with_fuel(spec_drain, 4);
    lemma_extract_frame(p1, f2);
    lemma_frame_round_trip(p2);
    lemma_extract_progress(f1 + f2);
    lemma_extract_progress(f2);
    assert(spec_drain(Seq::<u8>::empty()) == (Seq::<Seq<u8>>::empty(), Seq::<u8>::empty()));
    assert(spec_drain(f2) == (seq![p2] + Seq::<Seq<u8>>::empty(), Seq::<u8>::empty()));
    assert(spec_drain(f1 + f2) == (seq![p1] + (seq![p2] + Seq::<Seq<u8>>::empty()), Seq::<u8>::empty()));
    assert(seq![p1] + (seq![p2] + Seq::<Seq<u8>>::empty()) =~= seq![p1, p2]);
}

/// Partial frame stability: a byte stream split at any boundary over two
/// reads drains to the same payload list and remainder as a single read.
/// Splits over more reads follow by applying this law to each boundary.
pub proof fn lemma_partial_frame_stability(f: Seq<u8>, i: int)
    requires
        0 <= i <= f.len(),
    ensures
        ({
            let a = f.subrange(0, i);
            let b = f.subrange(i, f.len() as int);
            let (o1, l1) = spec_drain(a);
            let (o2, l2) = spec_drain(l1 + b);
            spec_drain(f) == (o1 + o2, l2)
        }),
{
    let a = f.subrange(0, i);
    let b = f.subrange(i, f.len() as int);
    assert(a + b =~= f);
    lemma_drain_append(a, b);
}

} // verus!
