//! The frame trailer: a small self-describing message that declares its own
//! serialized length and the length of the payload that follows it.

use vstd::prelude::*;

use crate::fields::{
    enc_varint_field, lemma_take_varint_enc, spec_enc_varint_field, spec_take_varint_field,
    take_varint_field,
};

verus! {

/// Frame trailer: `me` is the byte length of the trailer's own serialized
/// form, `next` the byte length of the payload that follows.
#[derive(Clone, Copy, Debug, PartialEq, Eq)]
pub struct Trailer {
    pub me: u32,
    pub next: u32,
}

pub open spec fn spec_enc_trailer(t: Trailer) -> Seq<u8> {
    spec_enc_varint_field(0x08, t.me as nat) + spec_enc_varint_field(0x10, t.next as nat)
}

pub open spec fn spec_dec_trailer(s: Seq<u8>) -> Option<Trailer> {
    match spec_take_varint_field(s, 0, 0x08) {
        None => None,
        Some((me, p1)) => if me >= 0x1_0000_0000 {
            None
        } else {
            match spec_take_varint_field(s, p1, 0x10) {
                None => None,
                Some((next, p2)) => if next >= 0x1_0000_0000 {
                    None
                } else if p2 == s.len() {
                    Some(Trailer { me: me as u32, next: next as u32 })
                } else {
                    None
                },
            }
        },
    }
}

pub proof fn lemma_trailer_round_trip(t: Trailer)
    ensures
        spec_dec_trailer(spec_enc_trailer(t)) == Some(t),
{
    let s = spec_enc_trailer(t);
    let e1 = spec_enc_varint_field(0x08, t.me as nat);
    let e2 = spec_enc_varint_field(0x10, t.next as nat);
    assert(s.subrange(0, s.len() as int) =~= e1 + e2);
    lemma_take_varint_enc(s, 0, 0x08, t.me as nat, e2);
    lemma_take_varint_enc(s, e1.len() as int, 0x10, t.next as nat, seq![]);
}

/// Appends the serialized trailer to `out`.
pub fn enc_trailer(out: &mut Vec<u8>, t: &Trailer)
    ensures
        final(out)@ == old(out)@ + spec_enc_trailer(*t),
{
    enc_varint_field(out, 0x08, t.me as u64);
    enc_varint_field(out, 0x10, t.next as u64);
    proof {
        assert(final(out)@ =~= old(out)@ + spec_enc_trailer(*t));
    }
}

/// Reads a trailer from exactly the bytes of `body`.
pub fn dec_trailer(body: &[u8]) -> (r: Option<Trailer>)
    ensures
        r == spec_dec_trailer(body@),
{
    let blen = body.len();
    match take_varint_field(body, 0, 0x08) {
        None => None,
        Some((me, p1)) => {
            if me > 0xFFFF_FFFF {
                return None;
            }
            match take_varint_field(body, p1, 0x10) {
                None => None,
                Some((next, p2)) => {
                    if next > 0xFFFF_FFFF {
                        None
                    } else if p2 == blen {
                        Some(Trailer { me: me as u32, next: next as u32 })
                    } else {
                        None
                    }
                },
            }
        },
    }
}

} // verus!
