//! Per-channel sequence numbers: a monotonic counter for every channel,
//! starting at one and wrapping modulo 256.
use vstd::prelude::*;
use vstd::arithmetic::div_mod::{lemma_add_mod_noop, lemma_small_mod};

use crate::frame::{lemma_buffer_id_code_injective, BufferID};

verus! {

/// One counter per channel.  The ghost map counts how many numbers have been
/// issued on each channel; the stored counter is always the value the next
/// call will return.  Issuing takes the tracker exclusively, so every number
/// is handed out exactly once; callers that share a tracker across threads
/// guard it with a lock.
pub struct SequenceTracker {
    counters: Vec<u8>,
    issued: Ghost<Map<BufferID, nat>>,
}

impl SequenceTracker {
    /// How many sequence numbers have been issued on each channel.
    pub closed spec fn issued(self) -> Map<BufferID, nat> {
        self.issued@
    }

    /// The counters are well formed: one slot per possible channel byte, and
    /// each channel's slot holds the number its next call returns.
    pub closed spec fn wf(self) -> bool {
        &&& self.counters@.len() == 256
        &&& forall|id: BufferID|
            self.counters@[id.spec_code() as int] == (((#[trigger] self.issued@[id]) + 1)
                % 256) as u8
    }

    /// The number the next call for this channel returns: one more than the
    /// count of numbers issued so far, modulo 256.
    pub open spec fn next_value(self, id: BufferID) -> u8 {
        ((self.issued()[id] + 1) % 256) as u8
    }

    /// A fresh tracker: no numbers issued yet, so every channel's first call
    /// returns one.
    pub fn new() -> (r: SequenceTracker)
        ensures
            r.wf(),
            forall|id: BufferID| r.issued()[id] == 0,
    {
        let mut counters: Vec<u8> = Vec::new();
        let mut i: usize = 0;
        while i < 256
            invariant
                i <= 256,
                counters@.len() == i,
                forall|j: int| 0 <= j < i ==> counters@[j] == 1u8,
            decreases 256 - i,
        {
            counters.push(1);
            i = i + 1;
        }
        SequenceTracker { counters, issued: Ghost(Map::total(|id: BufferID| 0nat)) }
    }

    /// Issues the next sequence number for a channel: the first call returns
    /// one, each later call one more than the last, wrapping to zero after
    /// 255.  The count for every other channel is untouched.
    pub fn next(&mut self, id: BufferID) -> (r: u8)
        requires
            old(self).wf(),
        ensures
            final(self).wf(),
            r == old(self).next_value(id),
            r == (old(self).issued()[id] + 1) % 256,
            final(self).issued() == old(self).issued().insert(id, old(self).issued()[id] + 1),
    {
        let idx = id.code() as usize;
        let cur = self.counters[idx];
        let nxt: u8 = if cur == 255 {
            0
        } else {
            cur + 1
        };
        self.counters[idx] = nxt;
        proof {
            let k = self.issued@[id];
            self.issued@ = self.issued@.insert(id, k + 1);
            lemma_add_mod_noop(k as int + 1, 1int, 256int);
            lemma_small_mod(1nat, 256nat);
            if (k + 1) % 256 == 255 {
                assert((k + 2) % 256 == (255 + 1) % 256);
            } else {
                lemma_small_mod(((k + 1) % 256 + 1) as nat, 256);
            }
            assert forall|id2: BufferID|
                self.counters@[id2.spec_code() as int] == (((#[trigger] self.issued@[id2]) + 1)
                    % 256) as u8 by {
                if id2 != id {
                    if id2.spec_code() == id.spec_code() {
                        lemma_buffer_id_code_injective(id2, id);
                    }
                }
            }
        }
        cur
    }
}

} // verus!
