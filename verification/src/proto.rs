//! The command schema: one module per message family, mirroring the wire
//! protocol's layering from scalar transforms up to the command envelope.

pub mod command;
pub mod declare;
pub mod designation;
pub mod formats;
pub mod shape;
pub mod transform;
