//! Transfer Sink: consumes an inbound byte stream chunk by chunk, counting
//! bytes and discarding content, and signals completion as soon as every
//! requested byte has arrived. Memory use is constant in the transfer size.

use vstd::prelude::*;
use crate::chunk::{bytes_content, bytes_len};

verus! {

/// Per-upload sink state: how much was requested and how much has arrived.
pub struct Sink {
    pub requested: u64,
    pub received: u64,
}

impl Sink {
    /// A zero-size transfer is rejected before a sink exists.
    pub open spec fn wf(self) -> bool {
        self.requested > 0
    }

    /// The sink is complete once at least the requested count arrived; a
    /// chunk may overshoot the boundary and the excess is simply counted.
    pub open spec fn complete(self) -> bool {
        self.received >= self.requested
    }

    pub fn new(requested: u64) -> (r: Sink)
        requires
            requested > 0,
        ensures
            r.wf(),
            r.requested == requested,
            r.received == 0,
            !r.complete(),
    {
        Sink { requested, received: 0 }
    }

    /// Counts one inbound chunk and discards its content. The count clamps
    /// at `u64::MAX`, which can only happen past completion. Returns whether
    /// the sink has now seen every requested byte.
    pub fn consume(&mut self, chunk: &bytes::Bytes) -> (done: bool)
        requires
            old(self).wf(),
        ensures
            final(self).wf(),
            final(self).requested == old(self).requested,
            final(self).received == if old(self).received + bytes_content(*chunk).len()
                <= u64::MAX {
                old(self).received + bytes_content(*chunk).len()
            } else {
                u64::MAX as int
            },
            done == final(self).complete(),
            done == (old(self).received + bytes_content(*chunk).len()
                >= old(self).requested),
    {
        let len = bytes_len(chunk);
        let len64 = len as u64;
        if len64 > u64::MAX - self.received {
            self.received = u64::MAX;
        } else {
            self.received = self.received + len64;
        }
        self.received >= self.requested
    }
}

/// Upload-completion law: a stream that delivers exactly the requested
/// byte count completes the sink, and one short by even a single byte
/// never does.
pub proof fn lemma_upload_completion(requested: u64)
    requires
        requested > 0,
    ensures
        (Sink { requested, received: requested }).complete(),
        !(Sink { requested, received: (requested - 1) as u64 }).complete(),
{
}

} // verus!
