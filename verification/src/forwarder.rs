//! The forwarder worker's decoding core.
//!
//! A forwarder receives frame payloads from its inbound channel, decodes
//! each into a command and translates it into the domain command to emit.
//! The channel waits and the emission live with the task runtime outside
//! the library; the per-payload work is here, so one bad frame yields an
//! error value and never stops the worker.

use vstd::prelude::*;

use crate::pack::RDPack;
use crate::parser::{process_pack, spec_processed};
use crate::proto::command::spec_dec_command;
use crate::proto_decode::decode_pack;

verus! {

/// A forwarder worker slot: the identifier under which the listener
/// tracks the task.
#[derive(Clone, Copy, Debug, PartialEq, Eq)]
pub struct RDForwarder {
    pub id: usize,
}

impl RDForwarder {
    pub fn new(id: usize) -> (f: RDForwarder)
        ensures
            f.id == id,
    {
        RDForwarder { id }
    }

    pub fn get_id(&self) -> (r: usize)
        ensures
            r == self.id,
    {
        self.id
    }
}

/// One step of a forwarder's loop: decode a received payload and translate
/// it. `Ok(Some(p))` is emitted to the consumer, `Ok(None)` is a command
/// with nothing to emit, `Err` is a malformed payload to log and skip.
pub fn forward_payload(data: &[u8]) -> (r: Result<Option<RDPack>, String>)
    ensures
        match spec_dec_command(data@) {
            Some(c) => r matches Ok(o) && spec_processed(c, o),
            None => r matches Err(e) && e@ == "decode error"@,
        },
{
    match decode_pack(data) {
        Ok(c) => Ok(process_pack(c)),
        Err(e) => Err(e),
    }
}

} // verus!
