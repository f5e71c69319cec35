//! The per-connection handler: frame reassembly and the send path that
//! routes each extracted payload to a forward channel.
//!
//! The socket itself lives with the task runtime outside the library. The
//! read loop appends received bytes to an accumulation buffer and calls
//! `extract_complete_packet` until no complete frame remains; each payload
//! then walks the send-path state machine below. The machine decides, the
//! caller performs: it sends on the channel a `TrySend` directive names
//! (reporting `SendOk` or `SendFail`), and it signals the listener on
//! `RequestExpansion` (reporting `Proceed`). A channel that reports
//! backpressure (`channel_alarms`) or a closed receiver is reported as
//! `SendFail`: the linker discards it and moves on rather than re-register
//! it.
//!
//! Bytes left in the accumulation buffer when the connection closes are
//! discarded: an incomplete frame can never decode into a command, so
//! forwarding it could only produce a decode error downstream.

use vstd::prelude::*;

use crate::frame::{extract_frame, spec_extract};
use crate::work_share::{AutoChannel, RDWosh, spec_acquired};

verus! {

/// Where a payload stands on the send path.
#[derive(Clone, Copy, Debug, PartialEq, Eq)]
pub enum SendPhase {
    /// No payload under way.
    Idle,
    /// Sending on the channel held from an earlier payload.
    AwaitHeld,
    /// Sending on a channel acquired for this payload.
    AwaitFresh,
    /// Expansion was requested; waiting for the caller to proceed.
    Expanding,
    /// Sending on a channel acquired after the expansion request.
    AwaitSecond,
}

/// What the caller reports to the machine.
#[derive(Clone, Copy, Debug, PartialEq, Eq)]
pub enum SendEvent {
    /// A new payload is ready to be routed.
    Start,
    /// The send the last directive asked for succeeded.
    SendOk,
    /// The send failed: the channel is closed or backpressured.
    SendFail,
    /// The expansion request has been signalled to the listener.
    Proceed,
}

/// What the caller has to do next.
#[derive(Clone, Copy, Debug, PartialEq, Eq)]
pub enum SendDirective {
    /// Send the payload on the channel with this id.
    TrySend(usize),
    /// Signal the listener to create one more forwarder, then `Proceed`.
    RequestExpansion,
    /// The payload was handed off; the channel is held for reuse.
    Delivered,
    /// The payload is dropped: no channel could take it.
    Dropped,
}

/// The events each phase accepts.
pub open spec fn accepts(phase: SendPhase, ev: SendEvent) -> bool {
    match ev {
        SendEvent::Start => phase is Idle,
        SendEvent::SendOk => phase is AwaitHeld || phase is AwaitFresh || phase is AwaitSecond,
        SendEvent::SendFail => phase is AwaitHeld || phase is AwaitFresh || phase is AwaitSecond,
        SendEvent::Proceed => phase is Expanding,
    }
}

/// A connection handler: its id, the forward channel it holds, and where
/// its current payload stands.
pub struct RDLinker {
    pub id: usize,
    pub held: Option<AutoChannel>,
    pub phase: SendPhase,
}

impl RDLinker {
    /// In a sending phase a channel is held.
    pub open spec fn wf(self) -> bool {
        (self.phase is AwaitHeld || self.phase is AwaitFresh || self.phase is AwaitSecond)
            ==> self.held is Some
    }

    pub fn new(id: usize) -> (l: RDLinker)
        ensures
            l.wf(),
            l.id == id,
            l.held is None,
            l.phase is Idle,
    {
        RDLinker { id, held: None, phase: SendPhase::Idle }
    }

    /// Extracts the first complete frame from the accumulation buffer, as
    /// the trailer at its start announces it, and drains the consumed
    /// prefix; leaves the buffer unchanged while no complete frame has
    /// arrived.
    pub fn extract_complete_packet(&self, accum_buffer: &mut Vec<u8>) -> (r: Option<Vec<u8>>)
        ensures
            match spec_extract(old(accum_buffer)@) {
                None => r is None && final(accum_buffer)@ == old(accum_buffer)@,
                Some(pr) => {
                    &&& r matches Some(pv) && pv@ == pr.0
                    &&& final(accum_buffer)@ == pr.1
                },
            },
    {
        extract_frame(accum_buffer)
    }

    /// One decision of the send path.
    ///
    /// Backpressure triggers expansion, and only once per payload: a
    /// directive is `RequestExpansion` exactly when the machine enters
    /// `Expanding`, which happens only when the registry was found empty;
    /// a payload starting with no held channel against an empty registry
    /// always gets that request; and a drop happens only right after an
    /// expansion request went unanswered, or when a send on an acquired
    /// channel failed outright.
    pub fn send_step(&mut self, wosh: &mut RDWosh, ev: SendEvent) -> (d: SendDirective)
        requires
            old(self).wf(),
            accepts(old(self).phase, ev),
            match old(self).held {
                Some(c) => ev is SendOk ==> c.send_count < usize::MAX,
                None => true,
            },
        ensures
            final(self).wf(),
            final(self).id == old(self).id,
            d == SendDirective::RequestExpansion <==> final(self).phase is Expanding,
            d == SendDirective::RequestExpansion ==> old(wosh).channels@.len() == 0 && final(wosh).channels@ == old(wosh).channels@ && final(self).held is None,
            old(self).phase is Idle && old(self).held is None && old(wosh).channels@.len() == 0
                ==> d == SendDirective::RequestExpansion,
            d == SendDirective::Dropped ==> (old(self).phase is Expanding && old(wosh).channels@.len() == 0) || (ev is SendFail && (old(self).phase is AwaitFresh || old(self).phase is AwaitSecond)),
            match ev {
                SendEvent::Start => match old(self).held {
                    Some(c) => {
                        &&& d == SendDirective::TrySend(c.id)
                        &&& final(self).phase is AwaitHeld
                        &&& final(self).held == old(self).held
                        &&& final(wosh).channels@ == old(wosh).channels@
                    },
                    None => if old(wosh).channels@.len() == 0 {
                        &&& d == SendDirective::RequestExpansion
                        &&& final(self).phase is Expanding
                        &&& final(wosh).channels@ == old(wosh).channels@
                    } else {
                        &&& final(self).held matches Some(c)
                        &&& spec_acquired(old(wosh).channels@, final(wosh).channels@, c)
                        &&& d == SendDirective::TrySend(c.id)
                        &&& final(self).phase is AwaitFresh
                    },
                },
                SendEvent::SendOk => {
                    &&& old(self).held matches Some(c0) && final(self).held == Some(
                        AutoChannel { id: c0.id, send_count: (c0.send_count + 1) as usize },
                    )
                    &&& final(self).phase is Idle
                    &&& d == SendDirective::Delivered
                    &&& final(wosh).channels@ == old(wosh).channels@
                },
                SendEvent::SendFail => match old(self).phase {
                    SendPhase::AwaitHeld => if old(wosh).channels@.len() == 0 {
                        &&& d == SendDirective::RequestExpansion
                        &&& final(self).phase is Expanding
                        &&& final(wosh).channels@ == old(wosh).channels@
                    } else {
                        &&& final(self).held matches Some(c)
                        &&& spec_acquired(old(wosh).channels@, final(wosh).channels@, c)
                        &&& d == SendDirective::TrySend(c.id)
                        &&& final(self).phase is AwaitFresh
                    },
                    _ => {
                        &&& d == SendDirective::Dropped
                        &&& final(self).phase is Idle
                        &&& final(self).held is None
                        &&& final(wosh).channels@ == old(wosh).channels@
                    },
                },
                SendEvent::Proceed => if old(wosh).channels@.len() == 0 {
                    &&& d == SendDirective::Dropped
                    &&& final(self).phase is Idle
                    &&& final(self).held is None
                    &&& final(wosh).channels@ == old(wosh).channels@
                } else {
                    &&& final(self).held matches Some(c)
                    &&& spec_acquired(old(wosh).channels@, final(wosh).channels@, c)
                    &&& d == SendDirective::TrySend(c.id)
                    &&& final(self).phase is AwaitSecond
                },
            },
    {
        match ev {
            SendEvent::Start => match self.held {
                Some(c) => {
                    self.phase = SendPhase::AwaitHeld;
                    SendDirective::TrySend(c.id)
                },
                None => match wosh.get_channel() {
                    Some(c) => {
                        self.held = Some(c);
                        self.phase = SendPhase::AwaitFresh;
                        SendDirective::TrySend(c.id)
                    },
                    None => {
                        self.phase = SendPhase::Expanding;
                        SendDirective::RequestExpansion
                    },
                },
            },
            SendEvent::SendOk => {
                let mut c = self.held.unwrap();
                c.record_send();
                self.held = Some(c);
                self.phase = SendPhase::Idle;
                SendDirective::Delivered
            },
            SendEvent::SendFail => match self.phase {
                SendPhase::AwaitHeld => {
                    self.held = None;
                    match wosh.get_channel() {
                        Some(c) => {
                            self.held = Some(c);
                            self.phase = SendPhase::AwaitFresh;
                            SendDirective::TrySend(c.id)
                        },
                        None => {
                            self.phase = SendPhase::Expanding;
                            SendDirective::RequestExpansion
                        },
                    }
                },
                _ => {
                    self.held = None;
                    self.phase = SendPhase::Idle;
                    SendDirective::Dropped
                },
            },
            SendEvent::Proceed => match wosh.get_channel() {
                Some(c) => {
                    self.held = Some(c);
                    self.phase = SendPhase::AwaitSecond;
                    SendDirective::TrySend(c.id)
                },
                None => {
                    self.held = None;
                    self.phase = SendPhase::Idle;
                    SendDirective::Dropped
                },
            },
        }
    }

    /// Hands the held channel back to the registry when the connection
    /// ends.
    pub fn return_channel(&mut self, wosh: &mut RDWosh)
        requires
            old(self).phase is Idle || old(self).phase is Expanding,
        ensures
            final(self).wf(),
            final(self).id == old(self).id,
            final(self).held is None,
            final(self).phase == old(self).phase,
            match old(self).held {
                Some(c) => final(wosh).channels@ == old(wosh).channels@.push(c),
                None => final(wosh).channels@ == old(wosh).channels@,
            },
    {
        match self.held {
            Some(c) => {
                wosh.add_channel(c);
                self.held = None;
            },
            None => {},
        }
    }
}

} // verus!
