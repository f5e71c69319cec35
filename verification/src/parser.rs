//! Translation of decoded protocol commands into domain commands.
//!
//! Only a designation command that spawns shape data produces a domain
//! command; each shape kind is paired with a fixed material name.
//! Conception commands, bare transforms and format spawns produce nothing,
//! and a shape container without a shape produces nothing. A shape whose
//! nested positions are absent is passed through; absent coordinates mean
//! the origin downstream, so no command is rejected here.

use vstd::prelude::*;

use crate::pack::{RDPack, RDShapePack};
use crate::proto::command::{CmdPack, Command};
use crate::proto::designation::{DesignCmd, DesignCmdData, Spawn, SpawnData};
use crate::proto::formats::FormatPack;
use crate::proto::shape::{ShapePack, ShapePackData};
use vstd::string::StringExecFns;

verus! {

/// The shape a command asks to spawn, if any.
pub open spec fn spec_shape_of(c: Command) -> Option<ShapePackData> {
    match c.cmd_pack {
        Some(CmdPack::Designation(d)) => match d.cmd {
            Some(DesignCmdData::Spawn(sp)) => match sp.data {
                Some(SpawnData::ShapeData(shp)) => shp.data,
                _ => None,
            },
            None => None,
        },
        _ => None,
    }
}

/// The material each shape kind is rendered with.
pub open spec fn spec_material_for(d: ShapePackData) -> Seq<char> {
    match d {
        ShapePackData::Point(_) => "blue"@,
        ShapePackData::Segment(_) => "white"@,
        ShapePackData::Sphere(_) => "default"@,
        ShapePackData::Cube(_) => "default"@,
    }
}

/// What `process_pack` yields for a command: a spawn pack for exactly the
/// commands that carry shape data, and nothing for every other command.
pub open spec fn spec_processed(c: Command, r: Option<RDPack>) -> bool {
    match spec_shape_of(c) {
        Some(d) => {
            &&& r matches Some(p)
            &&& p matches RDPack::SpawnShape(sp)
            &&& sp.shape == d
            &&& sp.material@ == spec_material_for(d)
        },
        None => r is None,
    }
}

/// Builds the spawn pack for one shape.
fn spawn_pack_for(d: ShapePackData) -> (r: RDPack)
    ensures
        r matches RDPack::SpawnShape(sp) && sp.shape == d && sp.material@ == spec_material_for(d),
{
    let material = match d {
        ShapePackData::Point(_) => String::from_str("blue"),
        ShapePackData::Segment(_) => String::from_str("white"),
        ShapePackData::Sphere(_) => String::from_str("default"),
        ShapePackData::Cube(_) => String::from_str("default"),
    };
    RDPack::SpawnShape(RDShapePack { shape: d, material })
}

/// Handles a shape container: a spawn pack for its shape, nothing when it
/// carries none.
fn match_shape_data(shape_pack: &ShapePack) -> (r: Option<RDPack>)
    ensures
        match shape_pack.data {
            Some(d) => {
                &&& r matches Some(p)
                &&& p matches RDPack::SpawnShape(sp)
                &&& sp.shape == d
                &&& sp.material@ == spec_material_for(d)
            },
            None => r is None,
        },
{
    match &shape_pack.data {
        Some(d) => Some(spawn_pack_for(*d)),
        None => None,
    }
}

/// Handles a format container: formats are accepted and ignored.
fn match_format_data(format_pack: &FormatPack) -> (r: Option<RDPack>)
    ensures
        r is None,
{
    let _ = format_pack;
    None
}

/// Handles a designation command.
fn match_designation_cmd(designation_cmd: &DesignCmd) -> (r: Option<RDPack>)
    ensures
        match designation_cmd.cmd {
            Some(DesignCmdData::Spawn(sp)) => spec_processed(
                Command {
                    cmd_pack: Some(
                        CmdPack::Designation(
                            DesignCmd { cmd: Some(DesignCmdData::Spawn(sp)) },
                        ),
                    ),
                },
                r,
            ),
            None => r is None,
        },
{
    match &designation_cmd.cmd {
        Some(DesignCmdData::Spawn(sp)) => match &sp.data {
            Some(SpawnData::ShapeData(shp)) => match_shape_data(shp),
            Some(SpawnData::FormatData(fp)) => match_format_data(fp),
            None => None,
        },
        None => None,
    }
}

/// Translates a decoded command into the domain command to emit, if any.
pub fn process_pack(pack: Command) -> (r: Option<RDPack>)
    ensures
        spec_processed(pack, r),
{
    match &pack.cmd_pack {
        Some(CmdPack::Conception(_)) => None,
        Some(CmdPack::Designation(d)) => match_designation_cmd(d),
        Some(CmdPack::Transform(_)) => None,
        None => None,
    }
}

} // verus!
