//! Conversions from wire-side transform messages to the renderer-facing
//! coordinate records that the downstream consumer works with. Every
//! coordinate is an IEEE-754 bit pattern; numeric interpretation is the
//! consumer's.

use vstd::prelude::*;

use crate::proto::transform::{Rotation, Scale, Translation};

verus! {

/// A position as the renderer side carries it.
#[derive(Clone, Copy, Debug, PartialEq, Eq)]
pub struct RDRPosition {
    pub x: u32,
    pub y: u32,
    pub z: u32,
}

/// A translation as the renderer side carries it.
#[derive(Clone, Copy, Debug, PartialEq, Eq)]
pub struct RDTranslation {
    pub x: u32,
    pub y: u32,
    pub z: u32,
}

/// A rotation as the renderer side carries it.
#[derive(Clone, Copy, Debug, PartialEq, Eq)]
pub struct RDRRotation {
    pub rx: u32,
    pub ry: u32,
    pub rz: u32,
}

/// A per-axis scale as the renderer side carries it.
#[derive(Clone, Copy, Debug, PartialEq, Eq)]
pub struct RDRScale {
    pub sx: u32,
    pub sy: u32,
    pub sz: u32,
}

/// Carries a decoded position over to the renderer-facing record.
pub fn position_rdr(position: &Translation) -> (r: RDRPosition)
    ensures
        r.x == position.x,
        r.y == position.y,
        r.z == position.z,
{
    RDRPosition { x: position.x, y: position.y, z: position.z }
}

/// Carries a decoded translation over to the renderer-facing record.
pub fn position_rd(position: &Translation) -> (r: RDTranslation)
    ensures
        r.x == position.x,
        r.y == position.y,
        r.z == position.z,
{
    RDTranslation { x: position.x, y: position.y, z: position.z }
}

/// Carries a decoded rotation over to the renderer-facing record.
pub fn rotate_rd(rotate: &Rotation) -> (r: RDRRotation)
    ensures
        r.rx == rotate.rx,
        r.ry == rotate.ry,
        r.rz == rotate.rz,
{
    RDRRotation { rx: rotate.rx, ry: rotate.ry, rz: rotate.rz }
}

/// Carries a decoded scale over to the renderer-facing record.
pub fn scale_rd(scale: &Scale) -> (r: RDRScale)
    ensures
        r.sx == scale.sx,
        r.sy == scale.sy,
        r.sz == scale.sz,
{
    RDRScale { sx: scale.sx, sy: scale.sy, sz: scale.sz }
}

} // verus!
