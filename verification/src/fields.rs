//! Field shapes of the message schema.
//!
//! A message body is a run of optional fields in ascending tag order. Three
//! shapes occur: fixed 32-bit scalar fields, varint fields, and
//! length-delimited fields carrying nested messages. A scalar field is
//! written only when its value is not the default; a nested message field
//! is written whenever the message is present.
//!
//! Each shape has an encoder spec, a strict reader spec that consumes the
//! field if its tag is next and yields the default otherwise, executable
//! counterparts, and a lemma that the reader inverts the encoder.

use vstd::prelude::*;

use crate::wire::{
    decode_varint, encode_varint, get_le32, lemma_le32_round_trip, lemma_varint_round_trip,
    put_le32, spec_dec_varint, spec_le32, spec_le32_val, spec_varint,
};

verus! {

/// Splits a suffix of `s` that is known to be a concatenation.
pub proof fn lemma_split_suffix(s: Seq<u8>, pos: int, a: Seq<u8>, b: Seq<u8>)
    requires
        0 <= pos <= s.len(),
        s.subrange(pos, s.len() as int) == a + b,
    ensures
        pos + a.len() + b.len() == s.len(),
        s.subrange(pos, pos + a.len()) == a,
        s.subrange(pos + a.len(), s.len() as int) == b,
{
    let whole = s.subrange(pos, s.len() as int);
    assert(whole.len() == a.len() + b.len());
    assert forall|i: int| 0 <= i < a.len() implies s.subrange(pos, pos + a.len())[i] == a[i] by {
        assert(whole[i] == (a + b)[i]);
    }
    assert(s.subrange(pos, pos + a.len()) =~= a);
    assert forall|i: int|
        0 <= i < b.len() implies s.subrange(pos + a.len(), s.len() as int)[i] == b[i] by {
        assert(whole[a.len() + i] == (a + b)[a.len() + i]);
    }
    assert(s.subrange(pos + a.len(), s.len() as int) =~= b);
}

// ------------------------------------------------------------------
// fixed 32-bit fields
// ------------------------------------------------------------------

/// A fixed 32-bit field, omitted when the value is zero.
pub open spec fn spec_enc_fixed32_field(tag: u8, v: u32) -> Seq<u8> {
    if v == 0 {
        seq![]
    } else {
        seq![tag] + spec_le32(v)
    }
}

/// Reads an optional fixed 32-bit field at `pos`; an absent field reads as
/// zero. Fails only on a truncated field.
pub open spec fn spec_take_fixed32_field(s: Seq<u8>, pos: int, tag: u8) -> Option<(u32, int)>
    recommends
        0 <= pos <= s.len(),
{
    if pos >= s.len() || s[pos] != tag {
        Some((0u32, pos))
    } else if pos + 5 <= s.len() {
        Some((spec_le32_val(s, pos + 1), pos + 5))
    } else {
        None
    }
}

pub fn take_fixed32_field(buf: &[u8], pos: usize, tag: u8) -> (r: Option<(u32, usize)>)
    requires
        pos <= buf@.len(),
    ensures
        match spec_take_fixed32_field(buf@, pos as int, tag) {
            Some(vq) => r == Some((vq.0, vq.1 as usize)),
            None => r is None,
        },
{
    if pos >= buf.len() {
        return Some((0, pos));
    }
    if buf[pos] != tag {
        return Some((0, pos));
    }
    if buf.len() - pos >= 5 {
        Some((get_le32(buf, pos + 1), pos + 5))
    } else {
        None
    }
}

/// Appends a fixed 32-bit field to `out`.
pub fn enc_fixed32_field(out: &mut Vec<u8>, tag: u8, v: u32)
    ensures
        final(out)@ == old(out)@ + spec_enc_fixed32_field(tag, v),
{
    if v != 0 {
        out.push(tag);
        put_le32(out, v);
        proof {
            assert(final(out)@ =~= old(out)@ + spec_enc_fixed32_field(tag, v));
        }
    } else {
        proof {
            assert(final(out)@ =~= old(out)@ + spec_enc_fixed32_field(tag, v));
        }
    }
}

/// The reader inverts the encoder, provided the following bytes do not start
/// with the same tag.
pub proof fn lemma_take_fixed32_enc(s: Seq<u8>, pos: int, tag: u8, v: u32, rest: Seq<u8>)
    requires
        0 <= pos <= s.len(),
        s.subrange(pos, s.len() as int) == spec_enc_fixed32_field(tag, v) + rest,
        rest.len() == 0 || rest[0] != tag,
    ensures
        spec_take_fixed32_field(s, pos, tag) == Some(
            (v, pos + spec_enc_fixed32_field(tag, v).len()),
        ),
        s.subrange(pos + spec_enc_fixed32_field(tag, v).len(), s.len() as int) == rest,
{
    let enc = spec_enc_fixed32_field(tag, v);
    if v == 0 {
        assert(s.subrange(pos, s.len() as int) =~= rest);
        if pos < s.len() {
            assert(s[pos] == rest[0]) by {
                assert(s.subrange(pos, s.len() as int)[0] == rest[0]);
            };
        }
    } else {
        assert(enc + rest =~= seq![tag] + (spec_le32(v) + rest));
        lemma_split_suffix(s, pos, seq![tag], spec_le32(v) + rest);
        lemma_split_suffix(s, pos + 1, spec_le32(v), rest);
        assert(s[pos] == tag) by {
            assert(s.subrange(pos, pos + 1)[0] == tag);
        };
        lemma_le32_round_trip(s, pos + 1, v);
    }
}

// ------------------------------------------------------------------
// varint fields
// ------------------------------------------------------------------

/// A varint field, omitted when the value is zero.
pub open spec fn spec_enc_varint_field(tag: u8, v: nat) -> Seq<u8> {
    if v == 0 {
        seq![]
    } else {
        seq![tag] + spec_varint(v)
    }
}

/// Reads an optional varint field at `pos`; an absent field reads as zero.
pub open spec fn spec_take_varint_field(s: Seq<u8>, pos: int, tag: u8) -> Option<(nat, int)>
    recommends
        0 <= pos <= s.len(),
{
    if pos >= s.len() || s[pos] != tag {
        Some((0 as nat, pos))
    } else {
        spec_dec_varint(s, pos + 1)
    }
}

/// Reads a varint field; a value too large for `u64` reads as a failure.
pub fn take_varint_field(buf: &[u8], pos: usize, tag: u8) -> (r: Option<(u64, usize)>)
    requires
        pos <= buf@.len(),
    ensures
        match spec_take_varint_field(buf@, pos as int, tag) {
            Some(vq) => {
                &&& pos <= vq.1 <= buf@.len()
                &&& if vq.0 <= u64::MAX {
                    r == Some((vq.0 as u64, vq.1 as usize))
                } else {
                    r is None
                }
            },
            None => r is None,
        },
{
    if pos >= buf.len() {
        return Some((0, pos));
    }
    if buf[pos] != tag {
        return Some((0, pos));
    }
    proof {
        crate::wire::lemma_dec_varint_range(buf@, pos as int + 1);
    }
    decode_varint(buf, pos + 1)
}

/// Appends a varint field to `out`.
pub fn enc_varint_field(out: &mut Vec<u8>, tag: u8, v: u64)
    ensures
        final(out)@ == old(out)@ + spec_enc_varint_field(tag, v as nat),
{
    if v != 0 {
        out.push(tag);
        encode_varint(out, v);
        proof {
            assert(final(out)@ =~= old(out)@ + spec_enc_varint_field(tag, v as nat));
        }
    } else {
        proof {
            assert(final(out)@ =~= old(out)@ + spec_enc_varint_field(tag, v as nat));
        }
    }
}

pub proof fn lemma_take_varint_enc(s: Seq<u8>, pos: int, tag: u8, v: nat, rest: Seq<u8>)
    requires
        0 <= pos <= s.len(),
        s.subrange(pos, s.len() as int) == spec_enc_varint_field(tag, v) + rest,
        rest.len() == 0 || rest[0] != tag,
    ensures
        spec_take_varint_field(s, pos, tag) == Some(
            (v, pos + spec_enc_varint_field(tag, v).len()),
        ),
        s.subrange(pos + spec_enc_varint_field(tag, v).len(), s.len() as int) == rest,
{
    let enc = spec_enc_varint_field(tag, v);
    if v == 0 {
        assert(s.subrange(pos, s.len() as int) =~= rest);
        if pos < s.len() {
            assert(s[pos] == rest[0]) by {
                assert(s.subrange(pos, s.len() as int)[0] == rest[0]);
            };
        }
    } else {
        let venc = spec_varint(v);
        assert(enc + rest =~= seq![tag] + (venc + rest));
        lemma_split_suffix(s, pos, seq![tag], venc + rest);
        lemma_split_suffix(s, pos + 1, venc, rest);
        assert(s[pos] == tag) by {
            assert(s.subrange(pos, pos + 1)[0] == tag);
        };
        lemma_varint_round_trip(s, pos + 1, v);
    }
}

// ------------------------------------------------------------------
// length-delimited fields
// ------------------------------------------------------------------

/// A nested message field: written whenever the message is present, even
/// with an empty body.
pub open spec fn spec_enc_msg_field(tag: u8, body: Option<Seq<u8>>) -> Seq<u8> {
    match body {
        None => seq![],
        Some(b) => seq![tag] + spec_varint(b.len()) + b,
    }
}

/// Reads an optional length-delimited field at `pos`, yielding the range of
/// its body within `s`, or `None` for an absent field. Fails when the
/// declared length runs past the end of `s`.
pub open spec fn spec_take_len_field(s: Seq<u8>, pos: int, tag: u8) -> Option<
    (Option<(int, int)>, int),
>
    recommends
        0 <= pos <= s.len(),
{
    if pos >= s.len() || s[pos] != tag {
        Some((None, pos))
    } else {
        match spec_dec_varint(s, pos + 1) {
            None => None,
            Some((n, q)) => if q + n <= s.len() {
                Some((Some((q, q + n)), q + n))
            } else {
                None
            },
        }
    }
}

pub fn take_len_field(buf: &[u8], pos: usize, tag: u8) -> (r: Option<
    (Option<(usize, usize)>, usize),
>)
    requires
        pos <= buf@.len(),
    ensures
        match spec_take_len_field(buf@, pos as int, tag) {
            None => r is None,
            Some(rq) => match rq.0 {
                None => rq.1 == pos && r == Some((None::<(usize, usize)>, pos)),
                Some(ab) => {
                    &&& 0 <= ab.0 <= ab.1 <= buf@.len()
                    &&& rq.1 == ab.1
                    &&& r == Some((Some((ab.0 as usize, ab.1 as usize)), ab.1 as usize))
                },
            },
        },
        match r {
            Some((Some(ab), p)) => ab.0 <= ab.1 <= buf@.len() && p == ab.1,
            Some((None, p)) => p == pos,
            None => true,
        },
{
    let len = buf.len();
    if pos >= len {
        return Some((None, pos));
    }
    if buf[pos] != tag {
        return Some((None, pos));
    }
    proof {
        crate::wire::lemma_dec_varint_range(buf@, pos as int + 1);
    }
    match decode_varint(buf, pos + 1) {
        None => None,
        Some((n, q)) => {
            if n <= (len - q) as u64 {
                let end = q + n as usize;
                Some((Some((q, end)), end))
            } else {
                None
            }
        },
    }
}

/// Appends a nested-message field holding the already-encoded `body`.
pub fn enc_msg_field(out: &mut Vec<u8>, tag: u8, body: &Vec<u8>)
    ensures
        final(out)@ == old(out)@ + spec_enc_msg_field(tag, Some(body@)),
{
    out.push(tag);
    encode_varint(out, body.len() as u64);
    out.extend_from_slice(body.as_slice());
    proof {
        assert(final(out)@ =~= old(out)@ + spec_enc_msg_field(tag, Some(body@)));
    }
}

/// The reader inverts the message-field encoder and recovers the body bytes.
pub proof fn lemma_take_msg_enc(s: Seq<u8>, pos: int, tag: u8, body: Option<Seq<u8>>, rest: Seq<u8>)
    requires
        0 <= pos <= s.len(),
        s.subrange(pos, s.len() as int) == spec_enc_msg_field(tag, body) + rest,
        rest.len() == 0 || rest[0] != tag,
    ensures
        body is None ==> spec_take_len_field(s, pos, tag) == Some(
            (None::<(int, int)>, pos),
        ),
        body matches Some(b) ==> {
            let a = pos + 1 + spec_varint(b.len()).len();
            &&& spec_take_len_field(s, pos, tag) == Some((Some((a, a + b.len())), a + b.len()))
            &&& s.subrange(a, a + b.len()) == b
        },
        s.subrange(pos + spec_enc_msg_field(tag, body).len(), s.len() as int) == rest,
{
    let enc = spec_enc_msg_field(tag, body);
    match body {
        None => {
            assert(s.subrange(pos, s.len() as int) =~= rest);
            if pos < s.len() {
                assert(s[pos] == rest[0]) by {
                    assert(s.subrange(pos, s.len() as int)[0] == rest[0]);
                };
            }
        },
        Some(b) => {
            let lenenc = spec_varint(b.len());
            assert(enc + rest =~= seq![tag] + (lenenc + (b + rest)));
            lemma_split_suffix(s, pos, seq![tag], lenenc + (b + rest));
            lemma_split_suffix(s, pos + 1, lenenc, b + rest);
            let a = pos + 1 + lenenc.len();
            lemma_split_suffix(s, a, b, rest);
            assert(s[pos] == tag) by {
                assert(s.subrange(pos, pos + 1)[0] == tag);
            };
            lemma_varint_round_trip(s, pos + 1, b.len());
        },
    }
}

} // verus!
