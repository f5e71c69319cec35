//! Designation messages of the command schema: a spawn request carrying
//! either shape data or format data, wrapped in a designation command.

use vstd::prelude::*;

use crate::fields::{
    enc_msg_field, lemma_take_msg_enc, spec_enc_msg_field, spec_take_len_field, take_len_field,
};
use crate::proto::formats::{
    dec_format_pack, enc_format_pack, FormatPack, lemma_format_pack_round_trip,
    spec_dec_format_pack, spec_enc_format_pack,
};
use crate::proto::shape::{
    dec_shape_pack, enc_shape_pack, lemma_shape_pack_round_trip, ShapePack, spec_dec_shape_pack,
    spec_enc_shape_pack,
};
use vstd::slice::slice_subrange;

verus! {

/// What a spawn request carries.
#[derive(Clone, Copy, Debug, PartialEq, Eq)]
pub enum SpawnData {
    ShapeData(ShapePack),
    FormatData(FormatPack),
}

/// A spawn request.
#[derive(Clone, Copy, Debug, PartialEq, Eq)]
pub struct Spawn {
    pub data: Option<SpawnData>,
}

/// The single command carried by a `DesignCmd`.
#[derive(Clone, Copy, Debug, PartialEq, Eq)]
pub enum DesignCmdData {
    Spawn(Spawn),
}

/// A designation command.
#[derive(Clone, Copy, Debug, PartialEq, Eq)]
pub struct DesignCmd {
    pub cmd: Option<DesignCmdData>,
}

// ------------------------------------------------------------------
// Spawn
// ------------------------------------------------------------------

pub open spec fn spec_enc_spawn(sp: Spawn) -> Seq<u8> {
    match sp.data {
        None => seq![],
        Some(SpawnData::ShapeData(s)) => spec_enc_msg_field(0x0A, Some(spec_enc_shape_pack(s))),
        Some(SpawnData::FormatData(f)) => spec_enc_msg_field(0x12, Some(spec_enc_format_pack(f))),
    }
}

pub open spec fn spec_dec_spawn(s: Seq<u8>) -> Option<Spawn> {
    match spec_take_len_field(s, 0, 0x0A) {
        None => None,
        Some((Some((a, b)), p1)) => match spec_dec_shape_pack(s.subrange(a, b)) {
            None => None,
            Some(sp) => if p1 == s.len() {
                Some(Spawn { data: Some(SpawnData::ShapeData(sp)) })
            } else {
                None
            },
        },
        Some((None, _)) => match spec_take_len_field(s, 0, 0x12) {
            None => None,
            Some((Some((a, b)), p1)) => match spec_dec_format_pack(s.subrange(a, b)) {
                None => None,
                Some(fp) => if p1 == s.len() {
                    Some(Spawn { data: Some(SpawnData::FormatData(fp)) })
                } else {
                    None
                },
            },
            Some((None, _)) => if s.len() == 0 {
                Some(Spawn { data: None })
            } else {
                None
            },
        },
    }
}

pub proof fn lemma_spawn_round_trip(sp: Spawn)
    ensures
        spec_dec_spawn(spec_enc_spawn(sp)) == Some(sp),
{
    let s = spec_enc_spawn(sp);
    match sp.data {
        None => {},
        Some(SpawnData::ShapeData(shp)) => {
            let body = spec_enc_shape_pack(shp);
            assert(s.subrange(0, s.len() as int) =~= spec_enc_msg_field(0x0A, Some(body))
                + seq![]);
            lemma_take_msg_enc(s, 0, 0x0A, Some(body), seq![]);
            lemma_shape_pack_round_trip(shp);
        },
        Some(SpawnData::FormatData(fp)) => {
            let body = spec_enc_format_pack(fp);
            assert(s.subrange(0, s.len() as int) =~= spec_enc_msg_field(0x12, Some(body))
                + seq![]);
            lemma_take_msg_enc(s, 0, 0x12, Some(body), seq![]);
            lemma_format_pack_round_trip(fp);
        },
    }
}

pub fn enc_spawn(out: &mut Vec<u8>, sp: &Spawn)
    ensures
        final(out)@ == old(out)@ + spec_enc_spawn(*sp),
{
    match &sp.data {
        None => {
            proof {
                assert(final(out)@ =~= old(out)@ + spec_enc_spawn(*sp));
            }
        },
        Some(SpawnData::ShapeData(shp)) => {
            let mut body: Vec<u8> = Vec::new();
            enc_shape_pack(&mut body, shp);
            enc_msg_field(out, 0x0A, &body);
        },
        Some(SpawnData::FormatData(fp)) => {
            let mut body: Vec<u8> = Vec::new();
            enc_format_pack(&mut body, fp);
            enc_msg_field(out, 0x12, &body);
        },
    }
}

pub fn dec_spawn(body: &[u8]) -> (r: Option<Spawn>)
    ensures
        r == spec_dec_spawn(body@),
{
    let blen = body.len();
    match take_len_field(body, 0, 0x0A) {
        None => {
            return None;
        },
        Some((Some((a, b)), p1)) => {
            let sub = slice_subrange(body, a, b);
            return match dec_shape_pack(sub) {
                None => None,
                Some(sp) => if p1 == blen {
                    Some(Spawn { data: Some(SpawnData::ShapeData(sp)) })
                } else {
                    None
                },
            };
        },
        Some((None, _)) => {},
    }
    match take_len_field(body, 0, 0x12) {
        None => None,
        Some((Some((a, b)), p1)) => {
            let sub = slice_subrange(body, a, b);
            match dec_format_pack(sub) {
                None => None,
                Some(fp) => if p1 == blen {
                    Some(Spawn { data: Some(SpawnData::FormatData(fp)) })
                } else {
                    None
                },
            }
        },
        Some((None, _)) => if blen == 0 {
            Some(Spawn { data: None })
        } else {
            None
        },
    }
}

// ------------------------------------------------------------------
// DesignCmd
// ------------------------------------------------------------------

pub open spec fn spec_enc_design_cmd(d: DesignCmd) -> Seq<u8> {
    match d.cmd {
        None => seq![],
        Some(DesignCmdData::Spawn(sp)) => spec_enc_msg_field(0x0A, Some(spec_enc_spawn(sp))),
    }
}

pub open spec fn spec_dec_design_cmd(s: Seq<u8>) -> Option<DesignCmd> {
    match spec_take_len_field(s, 0, 0x0A) {
        None => None,
        Some((Some((a, b)), p1)) => match spec_dec_spawn(s.subrange(a, b)) {
            None => None,
            Some(sp) => if p1 == s.len() {
                Some(DesignCmd { cmd: Some(DesignCmdData::Spawn(sp)) })
            } else {
                None
            },
        },
        Some((None, _)) => if s.len() == 0 {
            Some(DesignCmd { cmd: None })
        } else {
            None
        },
    }
}

pub proof fn lemma_design_cmd_round_trip(d: DesignCmd)
    ensures
        spec_dec_design_cmd(spec_enc_design_cmd(d)) == Some(d),
{
    let s = spec_enc_design_cmd(d);
    match d.cmd {
        None => {},
        Some(DesignCmdData::Spawn(sp)) => {
            let body = spec_enc_spawn(sp);
            assert(s.subrange(0, s.len() as int) =~= spec_enc_msg_field(0x0A, Some(body))
                + seq![]);
            lemma_take_msg_enc(s, 0, 0x0A, Some(body), seq![]);
            lemma_spawn_round_trip(sp);
        },
    }
}

pub fn enc_design_cmd(out: &mut Vec<u8>, d: &DesignCmd)
    ensures
        final(out)@ == old(out)@ + spec_enc_design_cmd(*d),
{
    match &d.cmd {
        None => {
            proof {
                assert(final(out)@ =~= old(out)@ + spec_enc_design_cmd(*d));
            }
        },
        Some(DesignCmdData::Spawn(sp)) => {
            let mut body: Vec<u8> = Vec::new();
            enc_spawn(&mut body, sp);
            enc_msg_field(out, 0x0A, &body);
        },
    }
}

pub fn dec_design_cmd(body: &[u8]) -> (r: Option<DesignCmd>)
    ensures
        r == spec_dec_design_cmd(body@),
{
    let blen = body.len();
    match take_len_field(body, 0, 0x0A) {
        None => None,
        Some((Some((a, b)), p1)) => {
            let sub = slice_subrange(body, a, b);
            match dec_spawn(sub) {
                None => None,
                Some(sp) => if p1 == blen {
                    Some(DesignCmd { cmd: Some(DesignCmdData::Spawn(sp)) })
                } else {
                    None
                },
            }
        },
        Some((None, _)) => if blen == 0 {
            Some(DesignCmd { cmd: None })
        } else {
            None
        },
    }
}

} // verus!
