//! The queue of live short data messages that operators add, delete and
//! clear through the control interface; the cell broadcasts each one a
//! number of times.

use vstd::prelude::*;

verus! {

/// The largest source ISSI: 24 bits.
pub const MAX_SOURCE_ISSI: u32 = 0x00FF_FFFF;

/// One live short data message.
#[derive(Debug)]
pub struct LiveSdsMessage {
    pub id: u32,
    pub text: String,
    pub protocol_id: u8,
    pub source_issi: u32,
    pub repeat_count: u32,
    pub sent_count: u32,
}

impl LiveSdsMessage {
    /// An equal copy.
    pub fn duplicate(&self) -> (r: LiveSdsMessage)
        ensures
            r == *self,
    {
        LiveSdsMessage {
            id: self.id,
            text: self.text.clone(),
            protocol_id: self.protocol_id,
            source_issi: self.source_issi,
            repeat_count: self.repeat_count,
            sent_count: self.sent_count,
        }
    }
}

/// The live messages, oldest first, and the identifier of the next one.
pub struct LiveSdsState {
    pub live_sds_queue: Vec<LiveSdsMessage>,
    pub next_live_sds_id: u32,
}

/// Answer to an added live message.
#[derive(Clone, Copy, Debug, PartialEq, Eq, Structural)]
pub enum AddLiveSdsOutcome {
    /// Queued under this identifier.
    Added { id: u32 },
    /// The protocol identifier is not one of periodic messages.
    UnsupportedProtocol,
    /// The source ISSI does not fit in 24 bits.
    InvalidSourceIssi,
    /// The queue is full.
    QueueFull,
}

/// The identifier after `id`: the next one, skipping 0 on wrap-around.
pub open spec fn next_live_id(id: u32) -> u32 {
    if id == u32::MAX {
        1
    } else {
        (id + 1) as u32
    }
}

/// The message of identifier `id` keeps its place.
pub open spec fn keeps_other_id(id: u32) -> spec_fn(LiveSdsMessage) -> bool {
    |m: LiveSdsMessage| m.id != id
}

impl LiveSdsState {
    /// Queues a live message, unless its protocol is not one of periodic
    /// messages (`protocol_supported`), its source ISSI exceeds 24 bits or
    /// the queue holds `max_len` messages already. It gets the next
    /// identifier; the next after it skips 0.
    pub fn add_live_sds(
        &mut self,
        text: String,
        protocol_id: u8,
        source_issi: u32,
        repeat_count: u32,
        protocol_supported: bool,
        max_len: usize,
    ) -> (r: AddLiveSdsOutcome)
        ensures
            !protocol_supported ==> r == AddLiveSdsOutcome::UnsupportedProtocol,
            protocol_supported && source_issi > MAX_SOURCE_ISSI ==> r == AddLiveSdsOutcome::InvalidSourceIssi,
            protocol_supported && source_issi <= MAX_SOURCE_ISSI && old(self).live_sds_queue@.len() >= max_len ==> r
                == AddLiveSdsOutcome::QueueFull,
            r is Added <==> (protocol_supported && source_issi <= MAX_SOURCE_ISSI && old(self).live_sds_queue@.len()
                < max_len),
            r is Added ==> {
                &&& r == AddLiveSdsOutcome::Added { id: old(self).next_live_sds_id }
                &&& final(self).next_live_sds_id == next_live_id(old(self).next_live_sds_id)
                &&& final(self).live_sds_queue@ == old(self).live_sds_queue@.push(
                    LiveSdsMessage {
                        id: old(self).next_live_sds_id,
                        text,
                        protocol_id,
                        source_issi,
                        repeat_count,
                        sent_count: 0,
                    },
                )
            },
            !(r is Added) ==> final(self).live_sds_queue@ == old(self).live_sds_queue@ && final(self).next_live_sds_id
                == old(self).next_live_sds_id,
    {
        if !protocol_supported {
            return AddLiveSdsOutcome::UnsupportedProtocol;
        }
        if source_issi > MAX_SOURCE_ISSI {
            return AddLiveSdsOutcome::InvalidSourceIssi;
        }
        if self.live_sds_queue.len() >= max_len {
            return AddLiveSdsOutcome::QueueFull;
        }
        let id = self.next_live_sds_id;
        self.next_live_sds_id = if id == u32::MAX {
            1
        } else {
            id + 1
        };
        self.live_sds_queue.push(LiveSdsMessage { id, text, protocol_id, source_issi, repeat_count, sent_count: 0 });
        AddLiveSdsOutcome::Added { id }
    }

    /// Deletes every live message of identifier `id`, keeping the order of
    /// the others; the number deleted.
    pub fn delete_live_sds(&mut self, id: u32) -> (removed: usize)
        ensures
            final(self).live_sds_queue@ == old(self).live_sds_queue@.filter(keeps_other_id(id)),
            removed == old(self).live_sds_queue@.len() - final(self).live_sds_queue@.len(),
            final(self).next_live_sds_id == old(self).next_live_sds_id,
    {
        let ghost q0 = self.live_sds_queue@;
        let n = self.live_sds_queue.len();
        let mut kept: Vec<LiveSdsMessage> = Vec::new();
        let mut i: usize = 0;
        while i < n
            invariant
                0 <= i <= n,
                n == q0.len(),
                self.live_sds_queue@ == q0,
                kept@ == q0.take(i as int).filter(keeps_other_id(id)),
                kept@.len() <= i,
            decreases n - i,
        {
            proof {
                assert(q0.take(i as int + 1) =~= q0.take(i as int).push(q0[i as int]));
                q0.take(i as int).lemma_filter_push(q0[i as int], keeps_other_id(id));
            }
            if self.live_sds_queue[i].id != id {
                let m = self.live_sds_queue[i].duplicate();
                kept.push(m);
            }
            i = i + 1;
        }
        proof {
            assert(q0.take(n as int) =~= q0);
        }
        let removed = n - kept.len();
        self.live_sds_queue = kept;
        removed
    }

    /// Deletes every live message; the number deleted.
    pub fn clear_live_sds(&mut self) -> (removed: usize)
        ensures
            removed == old(self).live_sds_queue@.len(),
            final(self).live_sds_queue@ == Seq::<LiveSdsMessage>::empty(),
            final(self).next_live_sds_id == old(self).next_live_sds_id,
    {
        let n = self.live_sds_queue.len();
        self.live_sds_queue.clear();
        n
    }
}

/// Identifiers handed out never come back as 0: the identifier after any
/// identifier is nonzero.
pub proof fn lemma_next_live_id_nonzero(id: u32)
    ensures
        next_live_id(id) != 0,
{
}

/// After a delete of identifier `id`, no queued message has it, and every
/// other message is still queued.
pub proof fn lemma_delete_leaves_no_match(q: Seq<LiveSdsMessage>, id: u32)
    ensures
        forall|i: int|
            0 <= i < q.filter(keeps_other_id(id)).len() ==> (#[trigger] q.filter(keeps_other_id(id))[i]).id != id,
        forall|i: int| 0 <= i < q.len() && q[i].id != id ==> q.filter(keeps_other_id(id)).contains(#[trigger] q[i]),
{
    assert forall|i: int| 0 <= i < q.filter(keeps_other_id(id)).len() implies (#[trigger] q.filter(
        keeps_other_id(id),
    )[i]).id != id by {
        q.lemma_filter_pred(keeps_other_id(id), i);
    }
    assert forall|i: int| 0 <= i < q.len() && q[i].id != id implies q.filter(keeps_other_id(id)).contains(
        #[trigger] q[i],
    ) by {
        q.lemma_filter_contains(keeps_other_id(id), i);
    }
}

} // verus!
