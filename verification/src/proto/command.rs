//! The command envelope: the outermost message of every frame payload.
//!
//! A command carries at most one of three packs: a conception command
//! (opaque to this pipeline and ignored downstream), a designation command,
//! or a bare transform. The round-trip law at the bottom states that
//! decoding inverts encoding for every command value.

use vstd::prelude::*;

use crate::fields::{
    enc_msg_field, lemma_take_msg_enc, spec_enc_msg_field, spec_take_len_field, take_len_field,
};
use crate::proto::designation::{
    dec_design_cmd, DesignCmd, enc_design_cmd, lemma_design_cmd_round_trip, spec_dec_design_cmd,
    spec_enc_design_cmd,
};
use crate::proto::transform::{
    dec_translation, enc_translation, lemma_translation_round_trip, spec_dec_translation,
    spec_enc_translation, Translation,
};
use vstd::slice::slice_subrange;

verus! {

/// A conception command; its content is opaque to the pipeline and not
/// kept, so its body is accepted whatever it holds.
#[derive(Clone, Copy, Debug, PartialEq, Eq)]
pub struct ConceptionCmd {}

/// The single pack carried by a command.
#[derive(Clone, Copy, Debug, PartialEq, Eq)]
pub enum CmdPack {
    Conception(ConceptionCmd),
    Designation(DesignCmd),
    Transform(Translation),
}

/// The command envelope.
#[derive(Clone, Copy, Debug, PartialEq, Eq)]
pub struct Command {
    pub cmd_pack: Option<CmdPack>,
}

pub open spec fn spec_enc_command(c: Command) -> Seq<u8> {
    match c.cmd_pack {
        None => seq![],
        Some(CmdPack::Conception(_)) => spec_enc_msg_field(0x0A, Some(seq![])),
        Some(CmdPack::Designation(d)) => spec_enc_msg_field(0x12, Some(spec_enc_design_cmd(d))),
        Some(CmdPack::Transform(t)) => spec_enc_msg_field(0x1A, Some(spec_enc_translation(t))),
    }
}

pub open spec fn spec_dec_command(s: Seq<u8>) -> Option<Command> {
    match spec_take_len_field(s, 0, 0x0A) {
        None => None,
        Some((Some(_), p1)) => if p1 == s.len() {
            Some(Command { cmd_pack: Some(CmdPack::Conception(ConceptionCmd {})) })
        } else {
            None
        },
        Some((None, _)) => match spec_take_len_field(s, 0, 0x12) {
            None => None,
            Some((Some((a, b)), p1)) => match spec_dec_design_cmd(s.subrange(a, b)) {
                None => None,
                Some(d) => if p1 == s.len() {
                    Some(Command { cmd_pack: Some(CmdPack::Designation(d)) })
                } else {
                    None
                },
            },
            Some((None, _)) => match spec_take_len_field(s, 0, 0x1A) {
                None => None,
                Some((Some((a, b)), p1)) => match spec_dec_translation(s.subrange(a, b)) {
                    None => None,
                    Some(t) => if p1 == s.len() {
                        Some(Command { cmd_pack: Some(CmdPack::Transform(t)) })
                    } else {
                        None
                    },
                },
                Some((None, _)) => if s.len() == 0 {
                    Some(Command { cmd_pack: None })
                } else {
                    None
                },
            },
        },
    }
}

/// Decoding inverts encoding: every command value survives a round trip
/// through its wire form, over all variants and numeric fields.
pub proof fn lemma_command_round_trip(c: Command)
    ensures
        spec_dec_command(spec_enc_command(c)) == Some(c),
{
    let s = spec_enc_command(c);
    match c.cmd_pack {
        None => {},
        Some(CmdPack::Conception(_)) => {
            assert(s.subrange(0, s.len() as int) =~= spec_enc_msg_field(0x0A, Some(seq![]))
                + seq![]);
            lemma_take_msg_enc(s, 0, 0x0A, Some(seq![]), seq![]);
        },
        Some(CmdPack::Designation(d)) => {
            let body = spec_enc_design_cmd(d);
            assert(s.subrange(0, s.len() as int) =~= spec_enc_msg_field(0x12, Some(body))
                + seq![]);
            lemma_take_msg_enc(s, 0, 0x12, Some(body), seq![]);
            lemma_design_cmd_round_trip(d);
        },
        Some(CmdPack::Transform(t)) => {
            let body = spec_enc_translation(t);
            assert(s.subrange(0, s.len() as int) =~= spec_enc_msg_field(0x1A, Some(body))
                + seq![]);
            lemma_take_msg_enc(s, 0, 0x1A, Some(body), seq![]);
            lemma_translation_round_trip(t);
        },
    }
}

/// Distinct commands have distinct encodings: the wire form determines
/// the command.
pub proof fn lemma_encoding_injective(c1: Command, c2: Command)
    requires
        spec_enc_command(c1) == spec_enc_command(c2),
    ensures
        c1 == c2,
{
    lemma_command_round_trip(c1);
    lemma_command_round_trip(c2);
}

/// Encodes a command into its frame-payload byte form.
pub fn encode_command(c: &Command) -> (out: Vec<u8>)
    ensures
        out@ == spec_enc_command(*c),
{
    let mut out: Vec<u8> = Vec::new();
    match c.cmd_pack {
        None => {},
        Some(CmdPack::Conception(_)) => {
            let body: Vec<u8> = Vec::new();
            enc_msg_field(&mut out, 0x0A, &body);
        },
        Some(CmdPack::Designation(d)) => {
            let mut body: Vec<u8> = Vec::new();
            enc_design_cmd(&mut body, &d);
            enc_msg_field(&mut out, 0x12, &body);
        },
        Some(CmdPack::Transform(t)) => {
            let mut body: Vec<u8> = Vec::new();
            enc_translation(&mut body, &t);
            enc_msg_field(&mut out, 0x1A, &body);
        },
    }
    proof {
        assert(out@ =~= spec_enc_command(*c));
    }
    out
}

/// Decodes a command from a frame payload.
pub fn decode_command(body: &[u8]) -> (r: Option<Command>)
    ensures
        r == spec_dec_command(body@),
{
    let blen = body.len();
    match take_len_field(body, 0, 0x0A) {
        None => {
            return None;
        },
        Some((Some(_), p1)) => {
            return if p1 == blen {
                Some(Command { cmd_pack: Some(CmdPack::Conception(ConceptionCmd {})) })
            } else {
                None
            };
        },
        Some((None, _)) => {},
    }
    match take_len_field(body, 0, 0x12) {
        None => {
            return None;
        },
        Some((Some((a, b)), p1)) => {
            let sub = slice_subrange(body, a, b);
            return match dec_design_cmd(sub) {
                None => None,
                Some(d) => if p1 == blen {
                    Some(Command { cmd_pack: Some(CmdPack::Designation(d)) })
                } else {
                    None
                },
            };
        },
        Some((None, _)) => {},
    }
    match take_len_field(body, 0, 0x1A) {
        None => None,
        Some((Some((a, b)), p1)) => {
            let sub = slice_subrange(body, a, b);
            match dec_translation(sub) {
                None => None,
                Some(t) => if p1 == blen {
                    Some(Command { cmd_pack: Some(CmdPack::Transform(t)) })
                } else {
                    None
                },
            }
        },
        Some((None, _)) => if blen == 0 {
            Some(Command { cmd_pack: None })
        } else {
            None
        },
    }
}

} // verus!
