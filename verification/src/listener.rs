//! Listener bookkeeping: the slot tables and identifier free-lists for
//! connection handlers (linkers) and forwarder workers, and the event
//! dispatch of the accept loop.
//!
//! Identifiers form a dense index space: a slot table records which ids
//! are live, and released ids wait in a first-in-first-out free list to be
//! reused before the space grows. The socket accept loop, task spawning
//! and channel plumbing live with the task runtime outside the library;
//! they feed events in and carry the returned actions out.

use vstd::prelude::*;

use std::collections::VecDeque;

verus! {

/// The slot table and free list agree: every free id names an existing,
/// non-live slot, and no id is listed twice.
pub open spec fn ids_wf(slots: Seq<bool>, free: Seq<usize>) -> bool {
    &&& forall|i: int| 0 <= i < free.len() ==> free[i] < slots.len() && !slots[free[i] as int]
    &&& forall|i: int, j: int| 0 <= i < j < free.len() ==> free[i] != free[j]
}

/// Handing out an id: the front of the free list when one waits there,
/// otherwise a fresh slot at the end of the table.
pub open spec fn spec_avail(slots: Seq<bool>, free: Seq<usize>) -> (int, Seq<bool>, Seq<usize>) {
    if free.len() > 0 {
        (free[0] as int, slots, free.drop_first())
    } else {
        (slots.len() as int, slots.push(false), free)
    }
}

/// Releasing an id: its slot goes dead and the id joins the back of the
/// free list.
pub open spec fn spec_release(slots: Seq<bool>, free: Seq<usize>, id: usize) -> (
    Seq<bool>,
    Seq<usize>,
)
    recommends
        id < slots.len(),
{
    (slots.update(id as int, false), free.push(id))
}

/// Released ids are recycled: an id released into an empty free list is
/// the very next id handed out, and the id space does not grow for it.
pub proof fn lemma_id_recycled(slots: Seq<bool>, free: Seq<usize>, k: usize)
    requires
        free.len() == 0,
        k < slots.len(),
    ensures
        ({
            let (s1, f1) = spec_release(slots, free, k);
            let (id, s2, f2) = spec_avail(s1, f1);
            id == k && s2.len() == slots.len() && f2.len() == 0
        }),
{
}

/// While released ids wait in the free list, the id space never grows:
/// the oldest released id is reused first, so no id beyond the current
/// high-water mark appears before every waiting id has been handed out.
pub proof fn lemma_free_list_first(slots: Seq<bool>, free: Seq<usize>)
    requires
        free.len() > 0,
    ensures
        ({
            let (id, s2, f2) = spec_avail(slots, free);
            id == free[0] && s2 == slots && f2 == free.drop_first()
        }),
{
}

/// An event the accept loop multiplexes.
#[derive(Clone, Copy, Debug, PartialEq, Eq)]
pub enum ListenerEvent {
    /// A new inbound connection was accepted.
    NewConnection,
    /// A linker reported its id on the release channel.
    LinkerReleased(usize),
    /// A forwarder reported its id on the release channel.
    ForwarderReleased(usize),
    /// A linker asked for pool expansion; carries its connection id.
    ExpandRequest(usize),
}

/// What the caller of the event dispatch has to do next.
#[derive(Clone, Copy, Debug, PartialEq, Eq)]
pub enum ListenerAction {
    /// Spawn a linker task under this connection id.
    SpawnLinker(usize),
    /// Create an inbound channel, register it with the distributor under
    /// this id, and spawn a forwarder task for it.
    SpawnForwarder(usize),
    /// Nothing to do beyond the bookkeeping already done.
    Continue,
}

/// Listener state: slot tables and free lists for both id spaces, and the
/// address to listen on (configuration, not a constant of the library).
pub struct RDListener {
    pub linkers: Vec<bool>,
    pub forwarders: Vec<bool>,
    pub linker_ids: VecDeque<usize>,
    pub forwarder_ids: VecDeque<usize>,
    pub address: String,
}

impl RDListener {
    pub open spec fn wf(self) -> bool {
        &&& ids_wf(self.linkers@, self.linker_ids@)
        &&& ids_wf(self.forwarders@, self.forwarder_ids@)
    }

    pub fn new(address: String) -> (l: RDListener)
        ensures
            l.wf(),
            l.linkers@.len() == 0,
            l.forwarders@.len() == 0,
            l.linker_ids@.len() == 0,
            l.forwarder_ids@.len() == 0,
            l.address == address,
    {
        RDListener {
            linkers: Vec::new(),
            forwarders: Vec::new(),
            linker_ids: VecDeque::new(),
            forwarder_ids: VecDeque::new(),
            address,
        }
    }

    /// Hands out a connection id: a recycled one if any waits, else a
    /// fresh slot. The slot stays non-live until the linker is created.
    pub fn available_linker_id(&mut self) -> (id: usize)
        requires
            old(self).wf(),
        ensures
            final(self).wf(),
            (id as int, final(self).linkers@, final(self).linker_ids@) == spec_avail(
                old(self).linkers@,
                old(self).linker_ids@,
            ),
            final(self).forwarders == old(self).forwarders,
            final(self).forwarder_ids == old(self).forwarder_ids,
            final(self).address == old(self).address,
            id < final(self).linkers@.len() && !final(self).linkers@[id as int],
    {
        match self.linker_ids.pop_front() {
            Some(id) => id,
            None => {
                let id = self.linkers.len();
                self.linkers.push(false);
                id
            },
        }
    }

    /// Hands out a forwarder id, in the same way.
    pub fn available_forwarder_id(&mut self) -> (id: usize)
        requires
            old(self).wf(),
        ensures
            final(self).wf(),
            (id as int, final(self).forwarders@, final(self).forwarder_ids@) == spec_avail(
                old(self).forwarders@,
                old(self).forwarder_ids@,
            ),
            final(self).linkers == old(self).linkers,
            final(self).linker_ids == old(self).linker_ids,
            final(self).address == old(self).address,
            id < final(self).forwarders@.len() && !final(self).forwarders@[id as int],
    {
        match self.forwarder_ids.pop_front() {
            Some(id) => id,
            None => {
                let id = self.forwarders.len();
                self.forwarders.push(false);
                id
            },
        }
    }

    /// Creates a linker slot: allocates an id that no live linker holds
    /// and marks it live. The caller spawns the task under this id.
    pub fn create_linker(&mut self) -> (id: usize)
        requires
            old(self).wf(),
        ensures
            final(self).wf(),
            id < final(self).linkers@.len(),
            final(self).linkers@ == spec_avail(
                old(self).linkers@,
                old(self).linker_ids@,
            ).1.update(id as int, true),
            (id as int, final(self).linker_ids@) == (
                spec_avail(old(self).linkers@, old(self).linker_ids@).0,
                spec_avail(old(self).linkers@, old(self).linker_ids@).2,
            ),
            id < old(self).linkers@.len() ==> !old(self).linkers@[id as int],
            final(self).forwarders == old(self).forwarders,
            final(self).forwarder_ids == old(self).forwarder_ids,
            final(self).address == old(self).address,
    {
        let id = self.available_linker_id();
        self.linkers.set(id, true);
        id
    }

    /// Creates a forwarder slot, in the same way. The caller registers a
    /// channel under this id with the distributor and spawns the task.
    pub fn create_forwarder(&mut self) -> (id: usize)
        requires
            old(self).wf(),
        ensures
            final(self).wf(),
            id < final(self).forwarders@.len(),
            final(self).forwarders@ == spec_avail(
                old(self).forwarders@,
                old(self).forwarder_ids@,
            ).1.update(id as int, true),
            (id as int, final(self).forwarder_ids@) == (
                spec_avail(old(self).forwarders@, old(self).forwarder_ids@).0,
                spec_avail(old(self).forwarders@, old(self).forwarder_ids@).2,
            ),
            id < old(self).forwarders@.len() ==> !old(self).forwarders@[id as int],
            final(self).linkers == old(self).linkers,
            final(self).linker_ids == old(self).linker_ids,
            final(self).address == old(self).address,
    {
        let id = self.available_forwarder_id();
        self.forwarders.set(id, true);
        id
    }

    /// Releases a linker id: the slot goes dead and the id queues for
    /// reuse.
    pub fn release_linker(&mut self, id: usize)
        requires
            old(self).wf(),
            id < old(self).linkers@.len(),
            old(self).linkers@[id as int],
        ensures
            final(self).wf(),
            (final(self).linkers@, final(self).linker_ids@) == spec_release(
                old(self).linkers@,
                old(self).linker_ids@,
                id,
            ),
            final(self).forwarders == old(self).forwarders,
            final(self).forwarder_ids == old(self).forwarder_ids,
            final(self).address == old(self).address,
    {
        self.linkers.set(id, false);
        self.linker_ids.push_back(id);
    }

    /// Releases a forwarder id, in the same way.
    pub fn release_forwarder(&mut self, id: usize)
        requires
            old(self).wf(),
            id < old(self).forwarders@.len(),
            old(self).forwarders@[id as int],
        ensures
            final(self).wf(),
            (final(self).forwarders@, final(self).forwarder_ids@) == spec_release(
                old(self).forwarders@,
                old(self).forwarder_ids@,
                id,
            ),
            final(self).linkers == old(self).linkers,
            final(self).linker_ids == old(self).linker_ids,
            final(self).address == old(self).address,
    {
        self.forwarders.set(id, false);
        self.forwarder_ids.push_back(id);
    }

    /// Seeds the initial forwarder pool: three workers with distinct ids.
    /// The caller registers a channel for each id and spawns its task.
    pub fn init(&mut self) -> (ids: Vec<usize>)
        requires
            old(self).wf(),
        ensures
            final(self).wf(),
            ids@.len() == 3,
            ids@[0] != ids@[1] && ids@[0] != ids@[2] && ids@[1] != ids@[2],
            forall|i: int|
                0 <= i < 3 ==> ids@[i] < final(self).forwarders@.len() && final(self).forwarders@[ids@[i] as int],
            final(self).linkers == old(self).linkers,
            final(self).linker_ids == old(self).linker_ids,
            final(self).address == old(self).address,
    {
        let mut ids: Vec<usize> = Vec::new();
        let a = self.create_forwarder();
        let b = self.create_forwarder();
        let c = self.create_forwarder();
        ids.push(a);
        ids.push(b);
        ids.push(c);
        ids
    }

    /// One turn of the accept loop: does the bookkeeping for the event
    /// and says what the caller has to do. A release notification naming
    /// an id that is not live is ignored rather than trusted: a bad
    /// control message must not take the listener down.
    pub fn handle_event(&mut self, event: ListenerEvent) -> (action: ListenerAction)
        requires
            old(self).wf(),
        ensures
            final(self).wf(),
            final(self).address == old(self).address,
            match event {
                ListenerEvent::NewConnection => action matches ListenerAction::SpawnLinker(id)
                    && id < final(self).linkers@.len() && final(self).linkers@[id as int] && (id
                    < old(self).linkers@.len() ==> !old(self).linkers@[id as int]),
                ListenerEvent::LinkerReleased(id) => {
                    &&& action == ListenerAction::Continue
                    &&& if id < old(self).linkers@.len() && old(self).linkers@[id as int] {
                        (final(self).linkers@, final(self).linker_ids@) == spec_release(
                            old(self).linkers@,
                            old(self).linker_ids@,
                            id,
                        )
                    } else {
                        final(self).linkers == old(self).linkers && final(self).linker_ids == old(
                            self,
                        ).linker_ids
                    }
                },
                ListenerEvent::ForwarderReleased(id) => {
                    &&& action == ListenerAction::Continue
                    &&& if id < old(self).forwarders@.len() && old(self).forwarders@[id as int] {
                        (final(self).forwarders@, final(self).forwarder_ids@) == spec_release(
                            old(self).forwarders@,
                            old(self).forwarder_ids@,
                            id,
                        )
                    } else {
                        final(self).forwarders == old(self).forwarders && final(self).forwarder_ids == old(self).forwarder_ids
                    }
                },
                ListenerEvent::ExpandRequest(_) => action matches ListenerAction::SpawnForwarder(
                    id,
                ) && id < final(self).forwarders@.len() && final(self).forwarders@[id as int] && (
                id < old(self).forwarders@.len() ==> !old(self).forwarders@[id as int]),
            },
    {
        match event {
            ListenerEvent::NewConnection => {
                let id = self.create_linker();
                ListenerAction::SpawnLinker(id)
            },
            ListenerEvent::LinkerReleased(id) => {
                if id < self.linkers.len() && self.linkers[id] {
                    self.release_linker(id);
                }
                ListenerAction::Continue
            },
            ListenerEvent::ForwarderReleased(id) => {
                if id < self.forwarders.len() && self.forwarders[id] {
                    self.release_forwarder(id);
                }
                ListenerAction::Continue
            },
            ListenerEvent::ExpandRequest(_) => {
                let id = self.create_forwarder();
                ListenerAction::SpawnForwarder(id)
            },
        }
    }
}

} // verus!
