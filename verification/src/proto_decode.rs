//! Payload decoding entry points and the trailer reader.
//!
//! `decode_pack` turns one frame payload into a command; `read_trailer`
//! locates a frame's payload inside an accumulation buffer by reading the
//! self-describing trailer at a given base offset.

use vstd::prelude::*;

use crate::proto::command::{Command, decode_command, spec_dec_command};
use crate::proto::declare::{dec_trailer, spec_dec_trailer};
use vstd::slice::slice_subrange;
use vstd::string::StringExecFns;

verus! {

/// Decodes a single command from a frame payload. Fails exactly on the
/// byte sequences that are no strict encoding of a command.
pub fn decode_pack(buffer: &[u8]) -> (r: Result<Command, String>)
    ensures
        match r {
            Ok(c) => spec_dec_command(buffer@) == Some(c),
            Err(e) => spec_dec_command(buffer@) is None && e@ == "decode error"@,
        },
{
    match decode_command(buffer) {
        Some(c) => Ok(c),
        None => Err(String::from_str("decode error")),
    }
}

/// Decodes the payload into a list of commands. The trailer has already
/// been stripped by frame extraction, so the list holds exactly one
/// command.
pub fn auto_decode(buffer: &[u8]) -> (r: Result<Vec<Command>, String>)
    ensures
        match r {
            Ok(v) => v@.len() == 1 && spec_dec_command(buffer@) == Some(v@[0]),
            Err(e) => spec_dec_command(buffer@) is None && e@ == "decode error"@,
        },
{
    match decode_pack(buffer) {
        Ok(c) => {
            let mut v: Vec<Command> = Vec::new();
            v.push(c);
            Ok(v)
        },
        Err(e) => Err(e),
    }
}

/// Where the trailer at `base` places the following payload: `None` while
/// the trailer is incomplete or malformed, otherwise the payload's start
/// and end offsets. The end may lie beyond the buffer when the payload has
/// not fully arrived yet.
pub open spec fn spec_read_trailer(s: Seq<u8>, base: int) -> Option<(int, int)> {
    if base < 0 || base + 4 > s.len() {
        None
    } else {
        let me = s[base + 1] as int;
        if me < 2 || base + me > s.len() {
            None
        } else {
            match spec_dec_trailer(s.subrange(base, base + me)) {
                None => None,
                Some(t) => Some((base + me, base + me + t.next)),
            }
        }
    }
}

/// A located payload starts at least two bytes past `base` and within the
/// buffer, and ends no earlier than it starts.
pub proof fn lemma_read_trailer_range(s: Seq<u8>, base: int)
    ensures
        spec_read_trailer(s, base) matches Some(lr) ==> base + 2 <= lr.0 <= s.len() && lr.0
            <= lr.1,
{
}

/// Reads the trailer at `base`: the byte at `base + 1` gives the trailer's
/// own length, that many bytes decode as the trailer message, and its
/// `next` field sizes the payload. A payload end past the address range is
/// reported as absent.
pub fn read_trailer(buffer: &[u8], base: usize) -> (r: Option<(usize, usize)>)
    ensures
        match spec_read_trailer(buffer@, base as int) {
            None => r is None,
            Some(lr) => if lr.1 <= usize::MAX {
                r == Some((lr.0 as usize, lr.1 as usize))
            } else {
                r is None
            },
        },
        match r {
            Some(lr) => 2 <= lr.0 <= buffer@.len() && lr.0 <= lr.1,
            None => true,
        },
{
    let len = buffer.len();
    if len < 4 || base > len - 4 {
        return None;
    }
    let me = buffer[base + 1] as usize;
    if me < 2 || me > len - base {
        return None;
    }
    let sub = slice_subrange(buffer, base, base + me);
    match dec_trailer(sub) {
        None => None,
        Some(t) => {
            let left = base + me;
            if t.next as u64 > (usize::MAX - left) as u64 {
                return None;
            }
            Some((left, left + t.next as usize))
        },
    }
}

} // verus!
