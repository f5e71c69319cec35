//! Domain commands: what the pipeline hands to the downstream consumer
//! once a frame payload has been decoded and translated.

use vstd::prelude::*;

use crate::proto::shape::ShapePackData;

verus! {

/// A spawn request for the consumer: the shape data that determines mesh
/// and placement, and the name of the material to render it with.
#[derive(Clone, Debug, PartialEq)]
pub struct RDShapePack {
    pub shape: ShapePackData,
    pub material: String,
}

/// A format payload forwarded to the consumer. The pipeline does not
/// interpret formats, so nothing of the payload is carried.
#[derive(Clone, Copy, Debug, PartialEq, Eq)]
pub struct FormatPack {}

/// A decoded instruction for the downstream consumer.
#[derive(Clone, Debug, PartialEq)]
pub enum RDPack {
    Message(String),
    SpawnShape(RDShapePack),
    SpawnFormat(FormatPack),
}

} // verus!
