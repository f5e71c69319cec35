//! Transform messages of the command schema: a translation, a rotation of
//! three Euler-like angles, and a per-axis scale.
//!
//! Scalar coordinates travel as fixed 32-bit groups; the crate stores them
//! as their IEEE-754 bit patterns, so the codec stays bit-exact and the
//! numeric interpretation is left to the consumer of the decoded commands.

use vstd::prelude::*;

use crate::fields::{
    enc_fixed32_field, lemma_split_suffix, lemma_take_fixed32_enc, spec_enc_fixed32_field,
    spec_take_fixed32_field, take_fixed32_field,
};

verus! {

/// A translation; each coordinate is an IEEE-754 bit pattern.
#[derive(Clone, Copy, Debug, PartialEq, Eq)]
pub struct Translation {
    pub x: u32,
    pub y: u32,
    pub z: u32,
}

/// A rotation given by three angles, as IEEE-754 bit patterns.
#[derive(Clone, Copy, Debug, PartialEq, Eq)]
pub struct Rotation {
    pub rx: u32,
    pub ry: u32,
    pub rz: u32,
}

/// A per-axis scale, as IEEE-754 bit patterns.
#[derive(Clone, Copy, Debug, PartialEq, Eq)]
pub struct Scale {
    pub sx: u32,
    pub sy: u32,
    pub sz: u32,
}

/// Body of a message of three fixed 32-bit fields numbered one to three.
pub open spec fn spec_enc_triple(a: u32, b: u32, c: u32) -> Seq<u8> {
    spec_enc_fixed32_field(0x0D, a) + spec_enc_fixed32_field(0x15, b) + spec_enc_fixed32_field(
        0x1D,
        c,
    )
}

/// Strict reading of a three-field body; fields in ascending order, each at
/// most once, absent fields defaulting to zero.
pub open spec fn spec_dec_triple(s: Seq<u8>) -> Option<(u32, u32, u32)> {
    match spec_take_fixed32_field(s, 0, 0x0D) {
        None => None,
        Some((a, p1)) => match spec_take_fixed32_field(s, p1, 0x15) {
            None => None,
            Some((b, p2)) => match spec_take_fixed32_field(s, p2, 0x1D) {
                None => None,
                Some((c, p3)) => if p3 == s.len() {
                    Some((a, b, c))
                } else {
                    None
                },
            },
        },
    }
}

pub proof fn lemma_triple_round_trip(a: u32, b: u32, c: u32)
    ensures
        spec_dec_triple(spec_enc_triple(a, b, c)) == Some((a, b, c)),
{
    let s = spec_enc_triple(a, b, c);
    let e1 = spec_enc_fixed32_field(0x0D, a);
    let e2 = spec_enc_fixed32_field(0x15, b);
    let e3 = spec_enc_fixed32_field(0x1D, c);
    assert(s.subrange(0, s.len() as int) =~= e1 + (e2 + e3));
    lemma_take_fixed32_enc(s, 0, 0x0D, a, e2 + e3);
    lemma_take_fixed32_enc(s, e1.len() as int, 0x15, b, e3);
    lemma_take_fixed32_enc(s, e1.len() + e2.len() as int, 0x1D, c, seq![]);
}

/// Appends a three-field body to `out`.
pub fn enc_triple(out: &mut Vec<u8>, a: u32, b: u32, c: u32)
    ensures
        final(out)@ == old(out)@ + spec_enc_triple(a, b, c),
{
    enc_fixed32_field(out, 0x0D, a);
    enc_fixed32_field(out, 0x15, b);
    enc_fixed32_field(out, 0x1D, c);
    proof {
        assert(final(out)@ =~= old(out)@ + spec_enc_triple(a, b, c));
    }
}

/// Reads a three-field body.
pub fn dec_triple(body: &[u8]) -> (r: Option<(u32, u32, u32)>)
    ensures
        r == spec_dec_triple(body@),
{
    match take_fixed32_field(body, 0, 0x0D) {
        None => None,
        Some((a, p1)) => match take_fixed32_field(body, p1, 0x15) {
            None => None,
            Some((b, p2)) => match take_fixed32_field(body, p2, 0x1D) {
                None => None,
                Some((c, p3)) => if p3 == body.len() {
                    Some((a, b, c))
                } else {
                    None
                },
            },
        },
    }
}

pub open spec fn spec_enc_translation(t: Translation) -> Seq<u8> {
    spec_enc_triple(t.x, t.y, t.z)
}

pub open spec fn spec_dec_translation(s: Seq<u8>) -> Option<Translation> {
    match spec_dec_triple(s) {
        None => None,
        Some((x, y, z)) => Some(Translation { x, y, z }),
    }
}

pub proof fn lemma_translation_round_trip(t: Translation)
    ensures
        spec_dec_translation(spec_enc_translation(t)) == Some(t),
{
    lemma_triple_round_trip(t.x, t.y, t.z);
}

pub fn enc_translation(out: &mut Vec<u8>, t: &Translation)
    ensures
        final(out)@ == old(out)@ + spec_enc_translation(*t),
{
    enc_triple(out, t.x, t.y, t.z);
}

pub fn dec_translation(body: &[u8]) -> (r: Option<Translation>)
    ensures
        r == spec_dec_translation(body@),
{
    match dec_triple(body) {
        None => None,
        Some((x, y, z)) => Some(Translation { x, y, z }),
    }
}

pub open spec fn spec_enc_rotation(t: Rotation) -> Seq<u8> {
    spec_enc_triple(t.rx, t.ry, t.rz)
}

pub open spec fn spec_dec_rotation(s: Seq<u8>) -> Option<Rotation> {
    match spec_dec_triple(s) {
        None => None,
        Some((rx, ry, rz)) => Some(Rotation { rx, ry, rz }),
    }
}

pub proof fn lemma_rotation_round_trip(t: Rotation)
    ensures
        spec_dec_rotation(spec_enc_rotation(t)) == Some(t),
{
    lemma_triple_round_trip(t.rx, t.ry, t.rz);
}

pub fn enc_rotation(out: &mut Vec<u8>, t: &Rotation)
    ensures
        final(out)@ == old(out)@ + spec_enc_rotation(*t),
{
    enc_triple(out, t.rx, t.ry, t.rz);
}

pub fn dec_rotation(body: &[u8]) -> (r: Option<Rotation>)
    ensures
        r == spec_dec_rotation(body@),
{
    match dec_triple(body) {
        None => None,
        Some((rx, ry, rz)) => Some(Rotation { rx, ry, rz }),
    }
}

pub open spec fn spec_enc_scale(t: Scale) -> Seq<u8> {
    spec_enc_triple(t.sx, t.sy, t.sz)
}

pub open spec fn spec_dec_scale(s: Seq<u8>) -> Option<Scale> {
    match spec_dec_triple(s) {
        None => None,
        Some((sx, sy, sz)) => Some(Scale { sx, sy, sz }),
    }
}

pub proof fn lemma_scale_round_trip(t: Scale)
    ensures
        spec_dec_scale(spec_enc_scale(t)) == Some(t),
{
    lemma_triple_round_trip(t.sx, t.sy, t.sz);
}

pub fn enc_scale(out: &mut Vec<u8>, t: &Scale)
    ensures
        final(out)@ == old(out)@ + spec_enc_scale(*t),
{
    enc_triple(out, t.sx, t.sy, t.sz);
}

pub fn dec_scale(body: &[u8]) -> (r: Option<Scale>)
    ensures
        r == spec_dec_scale(body@),
{
    match dec_triple(body) {
        None => None,
        Some((sx, sy, sz)) => Some(Scale { sx, sy, sz }),
    }
}

} // verus!
