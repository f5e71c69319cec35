//! Format messages of the command schema. The only format is an image,
//! whose payload is opaque to this pipeline: it is accepted and ignored, so
//! nothing of its body is retained in the decoded value.

use vstd::prelude::*;

use crate::fields::{
    enc_msg_field, lemma_take_msg_enc, spec_enc_msg_field, spec_take_len_field, take_len_field,
};

verus! {

/// An image payload; its content is opaque to the pipeline and not kept.
#[derive(Clone, Copy, Debug, PartialEq, Eq)]
pub struct Image {}

/// The single format carried by a `FormatPack`.
#[derive(Clone, Copy, Debug, PartialEq, Eq)]
pub enum FormatPackData {
    Image(Image),
}

/// Container for one optional format payload.
#[derive(Clone, Copy, Debug, PartialEq, Eq)]
pub struct FormatPack {
    pub data: Option<FormatPackData>,
}

pub open spec fn spec_enc_format_pack(fp: FormatPack) -> Seq<u8> {
    match fp.data {
        None => seq![],
        Some(FormatPackData::Image(_)) => spec_enc_msg_field(0x0A, Some(seq![])),
    }
}

/// An image field's body is accepted whatever it holds.
pub open spec fn spec_dec_format_pack(s: Seq<u8>) -> Option<FormatPack> {
    match spec_take_len_field(s, 0, 0x0A) {
        None => None,
        Some((Some(_), p1)) => if p1 == s.len() {
            Some(FormatPack { data: Some(FormatPackData::Image(Image {})) })
        } else {
            None
        },
        Some((None, _)) => if s.len() == 0 {
            Some(FormatPack { data: None })
        } else {
            None
        },
    }
}

pub proof fn lemma_format_pack_round_trip(fp: FormatPack)
    ensures
        spec_dec_format_pack(spec_enc_format_pack(fp)) == Some(fp),
{
    let s = spec_enc_format_pack(fp);
    match fp.data {
        None => {},
        Some(FormatPackData::Image(img)) => {
            assert(s.subrange(0, s.len() as int) =~= spec_enc_msg_field(0x0A, Some(seq![]))
                + seq![]);
            lemma_take_msg_enc(s, 0, 0x0A, Some(seq![]), seq![]);
            assert(img == Image {});
        },
    }
}

pub fn enc_format_pack(out: &mut Vec<u8>, fp: &FormatPack)
    ensures
        final(out)@ == old(out)@ + spec_enc_format_pack(*fp),
{
    match &fp.data {
        None => {
            proof {
                assert(final(out)@ =~= old(out)@ + spec_enc_format_pack(*fp));
            }
        },
        Some(FormatPackData::Image(_)) => {
            let body: Vec<u8> = Vec::new();
            enc_msg_field(out, 0x0A, &body);
        },
    }
}

pub fn dec_format_pack(body: &[u8]) -> (r: Option<FormatPack>)
    ensures
        r == spec_dec_format_pack(body@),
{
    let blen = body.len();
    match take_len_field(body, 0, 0x0A) {
        None => None,
        Some((Some(_), p1)) => if p1 == blen {
            Some(FormatPack { data: Some(FormatPackData::Image(Image {})) })
        } else {
            None
        },
        Some((None, _)) => if blen == 0 {
            Some(FormatPack { data: None })
        } else {
            None
        },
    }
}

} // verus!
