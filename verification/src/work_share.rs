//! The work distributor: a registry of forward channels ranked by use.
//!
//! Each forwarder's inbound channel is represented by an `AutoChannel`
//! descriptor holding its identifier and how often it has been sent on;
//! the channel handle itself lives with the task runtime outside the
//! library, keyed by the identifier. The registry hands out the
//! least-loaded descriptor; a caller that sends on it increments its
//! count and either re-registers it or keeps holding it.

use vstd::prelude::*;

verus! {

/// A forward channel as the distributor sees it: its identifier and its
/// send count, the load-ranking key.
#[derive(Clone, Copy, Debug, PartialEq, Eq)]
pub struct AutoChannel {
    pub id: usize,
    pub send_count: usize,
}

impl AutoChannel {
    pub fn new(id: usize) -> (c: AutoChannel)
        ensures
            c.id == id,
            c.send_count == 0,
    {
        AutoChannel { id, send_count: 0 }
    }

    /// The backpressure signal: the channel counts as close to full when
    /// its remaining capacity is below a quarter of its maximum capacity.
    /// The two capacities are read off the channel handle by the caller.
    pub fn channel_alarms(&self, remaining_capacity: usize, max_capacity: usize) -> (r: bool)
        ensures
            r == (remaining_capacity < max_capacity / 4),
    {
        remaining_capacity < max_capacity / 4
    }

    /// Records one successful send on this channel.
    pub fn record_send(&mut self)
        requires
            old(self).send_count < usize::MAX,
        ensures
            final(self).id == old(self).id,
            final(self).send_count == old(self).send_count + 1,
    {
        self.send_count = self.send_count + 1;
    }

    pub fn get_id(&self) -> (r: usize)
        ensures
            r == self.id,
    {
        self.id
    }
}

/// Acquisition took `c` out of a registry holding `pre`, leaving `post`:
/// `c` was registered, it is least-loaded among `pre`, and the rest stays.
pub open spec fn spec_acquired(pre: Seq<AutoChannel>, post: Seq<AutoChannel>, c: AutoChannel) -> bool {
    &&& exists|j: int| 0 <= j < pre.len() && c == pre[j] && post == pre.remove(j)
    &&& forall|i: int| 0 <= i < pre.len() ==> c.send_count <= pre[i].send_count
}

/// The shared registry of available forward channels.
pub struct RDWosh {
    pub channels: Vec<AutoChannel>,
}

impl RDWosh {
    pub fn new() -> (w: RDWosh)
        ensures
            w.channels@.len() == 0,
    {
        RDWosh { channels: Vec::new() }
    }

    /// Registers a channel: it becomes available for acquisition.
    pub fn add_channel(&mut self, channel: AutoChannel)
        ensures
            final(self).channels@ == old(self).channels@.push(channel),
    {
        self.channels.push(channel);
    }

    /// Acquires the least-loaded available channel, removing it from the
    /// registry; yields nothing when the registry is empty. The returned
    /// channel's send count is no greater than that of any channel that
    /// was registered, ties broken arbitrarily.
    pub fn get_channel(&mut self) -> (r: Option<AutoChannel>)
        ensures
            match r {
                None => {
                    &&& old(self).channels@.len() == 0
                    &&& final(self).channels@ == old(self).channels@
                },
                Some(c) => spec_acquired(old(self).channels@, final(self).channels@, c),
            },
    {
        let n = self.channels.len();
        if n == 0 {
            return None;
        }
        let mut best: usize = 0;
        let mut i: usize = 1;
        while i < n
            invariant
                1 <= i <= n,
                best < i,
                n == self.channels@.len(),
                forall|k: int|
                    0 <= k < i ==> self.channels@[best as int].send_count
                        <= self.channels@[k].send_count,
            decreases n - i,
        {
            if self.channels[i].send_count < self.channels[best].send_count {
                best = i;
            }
            i = i + 1;
        }
        let c = self.channels.remove(best);
        proof {
            assert(c == old(self).channels@[best as int]);
        }
        Some(c)
    }
}

} // verus!
