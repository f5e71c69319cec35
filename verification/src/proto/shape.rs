//! Shape messages of the command schema: point, segment, sphere and cube,
//! and the shape container that carries exactly one of them.

use vstd::prelude::*;

use crate::fields::{
    enc_fixed32_field, enc_msg_field, lemma_take_fixed32_enc, lemma_take_msg_enc,
    spec_enc_fixed32_field, spec_enc_msg_field, spec_take_fixed32_field, spec_take_len_field,
    take_fixed32_field, take_len_field,
};
use crate::proto::transform::{
    dec_rotation, dec_scale, dec_translation, enc_rotation, enc_scale, enc_translation,
    lemma_rotation_round_trip, lemma_scale_round_trip, lemma_translation_round_trip, Rotation,
    Scale, spec_dec_rotation, spec_dec_scale, spec_dec_translation, spec_enc_rotation,
    spec_enc_scale, spec_enc_translation, Translation,
};
use vstd::slice::slice_subrange;

verus! {

/// A point, located by an optional position; a missing position reads as
/// the origin downstream.
#[derive(Clone, Copy, Debug, PartialEq, Eq)]
pub struct Point {
    pub pos: Option<Translation>,
}

/// A segment between two points.
#[derive(Clone, Copy, Debug, PartialEq, Eq)]
pub struct Segment {
    pub start: Option<Point>,
    pub end: Option<Point>,
}

/// A sphere: a position and a radius bit pattern.
#[derive(Clone, Copy, Debug, PartialEq, Eq)]
pub struct Sphere {
    pub pos: Option<Translation>,
    pub radius: u32,
}

/// A cube: optional translation, rotation and per-axis scale.
#[derive(Clone, Copy, Debug, PartialEq, Eq)]
pub struct Cube {
    pub translation: Option<Translation>,
    pub rotation: Option<Rotation>,
    pub scale: Option<Scale>,
}

/// The single shape carried by a `ShapePack`.
#[derive(Clone, Copy, Debug, PartialEq, Eq)]
pub enum ShapePackData {
    Point(Point),
    Segment(Segment),
    Sphere(Sphere),
    Cube(Cube),
}

/// Container for one optional shape.
#[derive(Clone, Copy, Debug, PartialEq, Eq)]
pub struct ShapePack {
    pub data: Option<ShapePackData>,
}

// ------------------------------------------------------------------
// Point
// ------------------------------------------------------------------

pub open spec fn spec_enc_point(p: Point) -> Seq<u8> {
    spec_enc_msg_field(
        0x0A,
        match p.pos {
            None => None,
            Some(t) => Some(spec_enc_translation(t)),
        },
    )
}

pub open spec fn spec_dec_point(s: Seq<u8>) -> Option<Point> {
    match spec_take_len_field(s, 0, 0x0A) {
        None => None,
        Some((rng, p1)) => match rng {
            None => if p1 == s.len() {
                Some(Point { pos: None })
            } else {
                None
            },
            Some((a, b)) => match spec_dec_translation(s.subrange(a, b)) {
                None => None,
                Some(t) => if p1 == s.len() {
                    Some(Point { pos: Some(t) })
                } else {
                    None
                },
            },
        },
    }
}

pub proof fn lemma_point_round_trip(p: Point)
    ensures
        spec_dec_point(spec_enc_point(p)) == Some(p),
{
    let s = spec_enc_point(p);
    match p.pos {
        None => {
            assert(s.subrange(0, s.len() as int) =~= spec_enc_msg_field(0x0A, None::<Seq<u8>>)
                + seq![]);
            lemma_take_msg_enc(s, 0, 0x0A, None, seq![]);
        },
        Some(t) => {
            let body = spec_enc_translation(t);
            assert(s.subrange(0, s.len() as int) =~= spec_enc_msg_field(0x0A, Some(body))
                + seq![]);
            lemma_take_msg_enc(s, 0, 0x0A, Some(body), seq![]);
            lemma_translation_round_trip(t);
        },
    }
}

pub fn enc_point(out: &mut Vec<u8>, p: &Point)
    ensures
        final(out)@ == old(out)@ + spec_enc_point(*p),
{
    match &p.pos {
        None => {
            proof {
                assert(final(out)@ =~= old(out)@ + spec_enc_point(*p));
            }
        },
        Some(t) => {
            let mut body: Vec<u8> = Vec::new();
            enc_translation(&mut body, t);
            enc_msg_field(out, 0x0A, &body);
        },
    }
}

pub fn dec_point(body: &[u8]) -> (r: Option<Point>)
    ensures
        r == spec_dec_point(body@),
{
    let blen = body.len();
    match take_len_field(body, 0, 0x0A) {
        None => None,
        Some((rng, p1)) => match rng {
            None => if p1 == blen {
                Some(Point { pos: None })
            } else {
                None
            },
            Some((a, b)) => {
                let sub = slice_subrange(body, a, b);
                match dec_translation(sub) {
                    None => None,
                    Some(t) => if p1 == blen {
                        Some(Point { pos: Some(t) })
                    } else {
                        None
                    },
                }
            },
        },
    }
}

// ------------------------------------------------------------------
// Segment
// ------------------------------------------------------------------

pub open spec fn spec_enc_segment(g: Segment) -> Seq<u8> {
    spec_enc_msg_field(
        0x0A,
        match g.start {
            None => None,
            Some(p) => Some(spec_enc_point(p)),
        },
    ) + spec_enc_msg_field(
        0x12,
        match g.end {
            None => None,
            Some(p) => Some(spec_enc_point(p)),
        },
    )
}

pub open spec fn spec_dec_segment(s: Seq<u8>) -> Option<Segment> {
    match spec_take_len_field(s, 0, 0x0A) {
        None => None,
        Some((rng1, p1)) => {
            let start = match rng1 {
                None => Some(None::<Point>),
                Some((a, b)) => match spec_dec_point(s.subrange(a, b)) {
                    None => None,
                    Some(p) => Some(Some(p)),
                },
            };
            match start {
                None => None,
                Some(start) => match spec_take_len_field(s, p1, 0x12) {
                    None => None,
                    Some((rng2, p2)) => {
                        let end = match rng2 {
                            None => Some(None::<Point>),
                            Some((a, b)) => match spec_dec_point(s.subrange(a, b)) {
                                None => None,
                                Some(p) => Some(Some(p)),
                            },
                        };
                        match end {
                            None => None,
                            Some(end) => if p2 == s.len() {
                                Some(Segment { start, end })
                            } else {
                                None
                            },
                        }
                    },
                },
            }
        },
    }
}

pub proof fn lemma_segment_round_trip(g: Segment)
    ensures
        spec_dec_segment(spec_enc_segment(g)) == Some(g),
{
    let s = spec_enc_segment(g);
    let b1 = match g.start {
        None => None,
        Some(p) => Some(spec_enc_point(p)),
    };
    let b2 = match g.end {
        None => None,
        Some(p) => Some(spec_enc_point(p)),
    };
    let e1 = spec_enc_msg_field(0x0A, b1);
    let e2 = spec_enc_msg_field(0x12, b2);
    assert(s.subrange(0, s.len() as int) =~= e1 + e2);
    lemma_take_msg_enc(s, 0, 0x0A, b1, e2);
    lemma_take_msg_enc(s, e1.len() as int, 0x12, b2, seq![]);
    match g.start {
        None => {},
        Some(p) => {
            lemma_point_round_trip(p);
        },
    }
    match g.end {
        None => {},
        Some(p) => {
            lemma_point_round_trip(p);
        },
    }
}

pub fn enc_segment(out: &mut Vec<u8>, g: &Segment)
    ensures
        final(out)@ == old(out)@ + spec_enc_segment(*g),
{
    match &g.start {
        None => {},
        Some(p) => {
            let mut body: Vec<u8> = Vec::new();
            enc_point(&mut body, p);
            enc_msg_field(out, 0x0A, &body);
        },
    }
    match &g.end {
        None => {},
        Some(p) => {
            let mut body: Vec<u8> = Vec::new();
            enc_point(&mut body, p);
            enc_msg_field(out, 0x12, &body);
        },
    }
    proof {
        assert(final(out)@ =~= old(out)@ + spec_enc_segment(*g));
    }
}

pub fn dec_segment(body: &[u8]) -> (r: Option<Segment>)
    ensures
        r == spec_dec_segment(body@),
{
    let blen = body.len();
    match take_len_field(body, 0, 0x0A) {
        None => None,
        Some((rng1, p1)) => {
            let start: Option<Point> = match rng1 {
                None => None,
                Some((a, b)) => {
                    let sub = slice_subrange(body, a, b);
                    match dec_point(sub) {
                        None => {
                            return None;
                        },
                        Some(p) => Some(p),
                    }
                },
            };
            match take_len_field(body, p1, 0x12) {
                None => None,
                Some((rng2, p2)) => {
                    let end: Option<Point> = match rng2 {
                        None => None,
                        Some((a, b)) => {
                            let sub = slice_subrange(body, a, b);
                            match dec_point(sub) {
                                None => {
                                    return None;
                                },
                                Some(p) => Some(p),
                            }
                        },
                    };
                    if p2 == blen {
                        Some(Segment { start, end })
                    } else {
                        None
                    }
                },
            }
        },
    }
}

// ------------------------------------------------------------------
// Sphere
// ------------------------------------------------------------------

pub open spec fn spec_enc_sphere(h: Sphere) -> Seq<u8> {
    spec_enc_msg_field(
        0x0A,
        match h.pos {
            None => None,
            Some(t) => Some(spec_enc_translation(t)),
        },
    ) + spec_enc_fixed32_field(0x15, h.radius)
}

pub open spec fn spec_dec_sphere(s: Seq<u8>) -> Option<Sphere> {
    match spec_take_len_field(s, 0, 0x0A) {
        None => None,
        Some((rng, p1)) => {
            let pos = match rng {
                None => Some(None::<Translation>),
                Some((a, b)) => match spec_dec_translation(s.subrange(a, b)) {
                    None => None,
                    Some(t) => Some(Some(t)),
                },
            };
            match pos {
                None => None,
                Some(pos) => match spec_take_fixed32_field(s, p1, 0x15) {
                    None => None,
                    Some((radius, p2)) => if p2 == s.len() {
                        Some(Sphere { pos, radius })
                    } else {
                        None
                    },
                },
            }
        },
    }
}

pub proof fn lemma_sphere_round_trip(h: Sphere)
    ensures
        spec_dec_sphere(spec_enc_sphere(h)) == Some(h),
{
    let s = spec_enc_sphere(h);
    let b1 = match h.pos {
        None => None,
        Some(t) => Some(spec_enc_translation(t)),
    };
    let e1 = spec_enc_msg_field(0x0A, b1);
    let e2 = spec_enc_fixed32_field(0x15, h.radius);
    assert(s.subrange(0, s.len() as int) =~= e1 + e2);
    lemma_take_msg_enc(s, 0, 0x0A, b1, e2);
    lemma_take_fixed32_enc(s, e1.len() as int, 0x15, h.radius, seq![]);
    match h.pos {
        None => {},
        Some(t) => {
            lemma_translation_round_trip(t);
        },
    }
}

pub fn enc_sphere(out: &mut Vec<u8>, h: &Sphere)
    ensures
        final(out)@ == old(out)@ + spec_enc_sphere(*h),
{
    match &h.pos {
        None => {},
        Some(t) => {
            let mut body: Vec<u8> = Vec::new();
            enc_translation(&mut body, t);
            enc_msg_field(out, 0x0A, &body);
        },
    }
    enc_fixed32_field(out, 0x15, h.radius);
    proof {
        assert(final(out)@ =~= old(out)@ + spec_enc_sphere(*h));
    }
}

pub fn dec_sphere(body: &[u8]) -> (r: Option<Sphere>)
    ensures
        r == spec_dec_sphere(body@),
{
    let blen = body.len();
    match take_len_field(body, 0, 0x0A) {
        None => None,
        Some((rng, p1)) => {
            let pos: Option<Translation> = match rng {
                None => None,
                Some((a, b)) => {
                    let sub = slice_subrange(body, a, b);
                    match dec_translation(sub) {
                        None => {
                            return None;
                        },
                        Some(t) => Some(t),
                    }
                },
            };
            match take_fixed32_field(body, p1, 0x15) {
                None => None,
                Some((radius, p2)) => if p2 == blen {
                    Some(Sphere { pos, radius })
                } else {
                    None
                },
            }
        },
    }
}

// ------------------------------------------------------------------
// Cube
// ------------------------------------------------------------------

pub open spec fn spec_enc_cube(c: Cube) -> Seq<u8> {
    spec_enc_msg_field(
        0x0A,
        match c.translation {
            None => None,
            Some(t) => Some(spec_enc_translation(t)),
        },
    ) + spec_enc_msg_field(
        0x12,
        match c.rotation {
            None => None,
            Some(rot) => Some(spec_enc_rotation(rot)),
        },
    ) + spec_enc_msg_field(
        0x1A,
        match c.scale {
            None => None,
            Some(sc) => Some(spec_enc_scale(sc)),
        },
    )
}

pub open spec fn spec_dec_cube(s: Seq<u8>) -> Option<Cube> {
    match spec_take_len_field(s, 0, 0x0A) {
        None => None,
        Some((rng1, p1)) => {
            let translation = match rng1 {
                None => Some(None::<Translation>),
                Some((a, b)) => match spec_dec_translation(s.subrange(a, b)) {
                    None => None,
                    Some(t) => Some(Some(t)),
                },
            };
            match translation {
                None => None,
                Some(translation) => match spec_take_len_field(s, p1, 0x12) {
                    None => None,
                    Some((rng2, p2)) => {
                        let rotation = match rng2 {
                            None => Some(None::<Rotation>),
                            Some((a, b)) => match spec_dec_rotation(s.subrange(a, b)) {
                                None => None,
                                Some(rot) => Some(Some(rot)),
                            },
                        };
                        match rotation {
                            None => None,
                            Some(rotation) => match spec_take_len_field(s, p2, 0x1A) {
                                None => None,
                                Some((rng3, p3)) => {
                                    let scale = match rng3 {
                                        None => Some(None::<Scale>),
                                        Some((a, b)) => match spec_dec_scale(s.subrange(a, b)) {
                                            None => None,
                                            Some(sc) => Some(Some(sc)),
                                        },
                                    };
                                    match scale {
                                        None => None,
                                        Some(scale) => if p3 == s.len() {
                                            Some(Cube { translation, rotation, scale })
                                        } else {
                                            None
                                        },
                                    }
                                },
                            },
                        }
                    },
                },
            }
        },
    }
}

#[verifier::rlimit(100)]
pub proof fn lemma_cube_round_trip(c: Cube)
    ensures
        spec_dec_cube(spec_enc_cube(c)) == Some(c),
{
    let s = spec_enc_cube(c);
    let b1 = match c.translation {
        None => None,
        Some(t) => Some(spec_enc_translation(t)),
    };
    let b2 = match c.rotation {
        None => None,
        Some(rot) => Some(spec_enc_rotation(rot)),
    };
    let b3 = match c.scale {
        None => None,
        Some(sc) => Some(spec_enc_scale(sc)),
    };
    let e1 = spec_enc_msg_field(0x0A, b1);
    let e2 = spec_enc_msg_field(0x12, b2);
    let e3 = spec_enc_msg_field(0x1A, b3);
    assert(s.subrange(0, s.len() as int) =~= e1 + (e2 + e3));
    lemma_take_msg_enc(s, 0, 0x0A, b1, e2 + e3);
    lemma_take_msg_enc(s, e1.len() as int, 0x12, b2, e3);
    lemma_take_msg_enc(s, e1.len() + e2.len() as int, 0x1A, b3, seq![]);
    match c.translation {
        None => {},
        Some(t) => {
            lemma_translation_round_trip(t);
        },
    }
    match c.rotation {
        None => {},
        Some(rot) => {
            lemma_rotation_round_trip(rot);
        },
    }
    match c.scale {
        None => {},
        Some(sc) => {
            lemma_scale_round_trip(sc);
        },
    }
}

pub fn enc_cube(out: &mut Vec<u8>, c: &Cube)
    ensures
        final(out)@ == old(out)@ + spec_enc_cube(*c),
{
    match &c.translation {
        None => {},
        Some(t) => {
            let mut body: Vec<u8> = Vec::new();
            enc_translation(&mut body, t);
            enc_msg_field(out, 0x0A, &body);
        },
    }
    match &c.rotation {
        None => {},
        Some(rot) => {
            let mut body: Vec<u8> = Vec::new();
            enc_rotation(&mut body, rot);
            enc_msg_field(out, 0x12, &body);
        },
    }
    match &c.scale {
        None => {},
        Some(sc) => {
            let mut body: Vec<u8> = Vec::new();
            enc_scale(&mut body, sc);
            enc_msg_field(out, 0x1A, &body);
        },
    }
    proof {
        assert(final(out)@ =~= old(out)@ + spec_enc_cube(*c));
    }
}

#[verifier::rlimit(100)]
pub fn dec_cube(body: &[u8]) -> (r: Option<Cube>)
    ensures
        r == spec_dec_cube(body@),
{
    let blen = body.len();
    match take_len_field(body, 0, 0x0A) {
        None => None,
        Some((rng1, p1)) => {
            let translation: Option<Translation> = match rng1 {
                None => None,
                Some((a, b)) => {
                    let sub = slice_subrange(body, a, b);
                    match dec_translation(sub) {
                        None => {
                            return None;
                        },
                        Some(t) => Some(t),
                    }
                },
            };
            match take_len_field(body, p1, 0x12) {
                None => None,
                Some((rng2, p2)) => {
                    let rotation: Option<Rotation> = match rng2 {
                        None => None,
                        Some((a, b)) => {
                            let sub = slice_subrange(body, a, b);
                            match dec_rotation(sub) {
                                None => {
                                    return None;
                                },
                                Some(rot) => Some(rot),
                            }
                        },
                    };
                    match take_len_field(body, p2, 0x1A) {
                        None => None,
                        Some((rng3, p3)) => {
                            let scale: Option<Scale> = match rng3 {
                                None => None,
                                Some((a, b)) => {
                                    let sub = slice_subrange(body, a, b);
                                    match dec_scale(sub) {
                                        None => {
                                            return None;
                                        },
                                        Some(sc) => Some(sc),
                                    }
                                },
                            };
                            if p3 == blen {
                                Some(Cube { translation, rotation, scale })
                            } else {
                                None
                            }
                        },
                    }
                },
            }
        },
    }
}

// ------------------------------------------------------------------
// ShapePack
// ------------------------------------------------------------------

pub open spec fn spec_enc_shape_pack(sp: ShapePack) -> Seq<u8> {
    match sp.data {
        None => seq![],
        Some(ShapePackData::Point(p)) => spec_enc_msg_field(0x0A, Some(spec_enc_point(p))),
        Some(ShapePackData::Segment(g)) => spec_enc_msg_field(0x12, Some(spec_enc_segment(g))),
        Some(ShapePackData::Sphere(h)) => spec_enc_msg_field(0x1A, Some(spec_enc_sphere(h))),
        Some(ShapePackData::Cube(c)) => spec_enc_msg_field(0x22, Some(spec_enc_cube(c))),
    }
}

pub open spec fn spec_dec_shape_pack(s: Seq<u8>) -> Option<ShapePack> {
    match spec_take_len_field(s, 0, 0x0A) {
        None => None,
        Some((Some((a, b)), p1)) => match spec_dec_point(s.subrange(a, b)) {
            None => None,
            Some(p) => if p1 == s.len() {
                Some(ShapePack { data: Some(ShapePackData::Point(p)) })
            } else {
                None
            },
        },
        Some((None, _)) => match spec_take_len_field(s, 0, 0x12) {
            None => None,
            Some((Some((a, b)), p1)) => match spec_dec_segment(s.subrange(a, b)) {
                None => None,
                Some(g) => if p1 == s.len() {
                    Some(ShapePack { data: Some(ShapePackData::Segment(g)) })
                } else {
                    None
                },
            },
            Some((None, _)) => match spec_take_len_field(s, 0, 0x1A) {
                None => None,
                Some((Some((a, b)), p1)) => match spec_dec_sphere(s.subrange(a, b)) {
                    None => None,
                    Some(h) => if p1 == s.len() {
                        Some(ShapePack { data: Some(ShapePackData::Sphere(h)) })
                    } else {
                        None
                    },
                },
                Some((None, _)) => match spec_take_len_field(s, 0, 0x22) {
                    None => None,
                    Some((Some((a, b)), p1)) => match spec_dec_cube(s.subrange(a, b)) {
                        None => None,
                        Some(c) => if p1 == s.len() {
                            Some(ShapePack { data: Some(ShapePackData::Cube(c)) })
                        } else {
                            None
                        },
                    },
                    Some((None, _)) => if s.len() == 0 {
                        Some(ShapePack { data: None })
                    } else {
                        None
                    },
                },
            },
        },
    }
}

pub proof fn lemma_shape_pack_round_trip(sp: ShapePack)
    ensures
        spec_dec_shape_pack(spec_enc_shape_pack(sp)) == Some(sp),
{
    let s = spec_enc_shape_pack(sp);
    match sp.data {
        None => {},
        Some(ShapePackData::Point(p)) => {
            let body = spec_enc_point(p);
            assert(s.subrange(0, s.len() as int) =~= spec_enc_msg_field(0x0A, Some(body))
                + seq![]);
            lemma_take_msg_enc(s, 0, 0x0A, Some(body), seq![]);
            lemma_point_round_trip(p);
        },
        Some(ShapePackData::Segment(g)) => {
            let body = spec_enc_segment(g);
            assert(s.subrange(0, s.len() as int) =~= spec_enc_msg_field(0x12, Some(body))
                + seq![]);
            lemma_take_msg_enc(s, 0, 0x12, Some(body), seq![]);
            lemma_segment_round_trip(g);
        },
        Some(ShapePackData::Sphere(h)) => {
            let body = spec_enc_sphere(h);
            assert(s.subrange(0, s.len() as int) =~= spec_enc_msg_field(0x1A, Some(body))
                + seq![]);
            lemma_take_msg_enc(s, 0, 0x1A, Some(body), seq![]);
            lemma_sphere_round_trip(h);
        },
        Some(ShapePackData::Cube(c)) => {
            let body = spec_enc_cube(c);
            assert(s.subrange(0, s.len() as int) =~= spec_enc_msg_field(0x22, Some(body))
                + seq![]);
            lemma_take_msg_enc(s, 0, 0x22, Some(body), seq![]);
            lemma_cube_round_trip(c);
        },
    }
}

pub fn enc_shape_pack(out: &mut Vec<u8>, sp: &ShapePack)
    ensures
        final(out)@ == old(out)@ + spec_enc_shape_pack(*sp),
{
    match &sp.data {
        None => {
            proof {
                assert(final(out)@ =~= old(out)@ + spec_enc_shape_pack(*sp));
            }
        },
        Some(ShapePackData::Point(p)) => {
            let mut body: Vec<u8> = Vec::new();
            enc_point(&mut body, p);
            enc_msg_field(out, 0x0A, &body);
        },
        Some(ShapePackData::Segment(g)) => {
            let mut body: Vec<u8> = Vec::new();
            enc_segment(&mut body, g);
            enc_msg_field(out, 0x12, &body);
        },
        Some(ShapePackData::Sphere(h)) => {
            let mut body: Vec<u8> = Vec::new();
            enc_sphere(&mut body, h);
            enc_msg_field(out, 0x1A, &body);
        },
        Some(ShapePackData::Cube(c)) => {
            let mut body: Vec<u8> = Vec::new();
            enc_cube(&mut body, c);
            enc_msg_field(out, 0x22, &body);
        },
    }
}

#[verifier::rlimit(100)]
pub fn dec_shape_pack(body: &[u8]) -> (r: Option<ShapePack>)
    ensures
        r == spec_dec_shape_pack(body@),
{
    let blen = body.len();
    match take_len_field(body, 0, 0x0A) {
        None => {
            return None;
        },
        Some((Some((a, b)), p1)) => {
            let sub = slice_subrange(body, a, b);
            return match dec_point(sub) {
                None => None,
                Some(p) => if p1 == blen {
                    Some(ShapePack { data: Some(ShapePackData::Point(p)) })
                } else {
                    None
                },
            };
        },
        Some((None, _)) => {},
    }
    match take_len_field(body, 0, 0x12) {
        None => {
            return None;
        },
        Some((Some((a, b)), p1)) => {
            let sub = slice_subrange(body, a, b);
            return match dec_segment(sub) {
                None => None,
                Some(g) => if p1 == blen {
                    Some(ShapePack { data: Some(ShapePackData::Segment(g)) })
                } else {
                    None
                },
            };
        },
        Some((None, _)) => {},
    }
    match take_len_field(body, 0, 0x1A) {
        None => {
            return None;
        },
        Some((Some((a, b)), p1)) => {
            let sub = slice_subrange(body, a, b);
            return match dec_sphere(sub) {
                None => None,
                Some(h) => if p1 == blen {
                    Some(ShapePack { data: Some(ShapePackData::Sphere(h)) })
                } else {
                    None
                },
            };
        },
        Some((None, _)) => {},
    }
    match take_len_field(body, 0, 0x22) {
        None => {
            return None;
        },
        Some((Some((a, b)), p1)) => {
            let sub = slice_subrange(body, a, b);
            return match dec_cube(sub) {
                None => None,
                Some(c) => if p1 == blen {
                    Some(ShapePack { data: Some(ShapePackData::Cube(c)) })
                } else {
                    None
                },
            };
        },
        Some((None, _)) => {},
    }
    if blen == 0 {
        Some(ShapePack { data: None })
    } else {
        None
    }
}

} // verus!
