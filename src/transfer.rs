use vstd::prelude::*;

verus! {

/// Capacity of the datagram buffer, on both sides.
pub const BUFFER_SIZE: usize = 1024;

/// Size of the next chunk the sender transmits, when `sent < total`.
pub open spec fn chunk_spec(total: nat, sent: nat) -> nat {
    if total - sent < BUFFER_SIZE as int {
        (total - sent) as nat
    } else {
        BUFFER_SIZE as nat
    }
}

/// Progress of the sending side of one transfer session.
pub struct Sender {
    total_size: usize,
    sent: usize,
}

impl Sender {
    /// Target number of bytes.
    pub closed spec fn total(&self) -> nat {
        self.total_size as nat
    }

    /// Bytes the socket reported as sent so far.
    pub closed spec fn sent(&self) -> nat {
        self.sent as nat
    }

    /// The sender never overshoots its target.
    pub open spec fn wf(&self) -> bool {
        self.sent() <= self.total()
    }

    /// The loop is over once the target is reached.
    pub open spec fn done(&self) -> bool {
        self.sent() >= self.total()
    }

    pub fn new(total_size: usize) -> (r: Sender)
        ensures
            r.wf(),
            r.total() == total_size,
            r.sent() == 0,
    {
        Sender { total_size, sent: 0 }
    }

    pub fn total_size(&self) -> (r: usize)
        ensures
            r == self.total(),
    {
        self.total_size
    }

    pub fn bytes_sent(&self) -> (r: usize)
        ensures
            r == self.sent(),
    {
        self.sent
    }

    pub fn is_done(&self) -> (r: bool)
        ensures
            r == self.done(),
    {
        self.sent >= self.total_size
    }

    /// Length of the next datagram: what remains, capped at the buffer size.
    pub fn next_chunk(&self) -> (r: usize)
        requires
            self.wf(),
            !self.done(),
        ensures
            r == chunk_spec(self.total(), self.sent()),
            0 < r <= BUFFER_SIZE,
    {
        let remaining = self.total_size - self.sent;
        if remaining < BUFFER_SIZE {
            remaining
        } else {
            BUFFER_SIZE
        }
    }

    /// Accounts for a send call that reported `n` bytes written; a short
    /// write is made up by later chunks.
    pub fn record_sent(&mut self, n: usize)
        requires
            old(self).wf(),
            n <= old(self).total() - old(self).sent(),
        ensures
            final(self).wf(),
            final(self).total() == old(self).total(),
            final(self).sent() == old(self).sent() + n,
    {
        self.sent = self.sent + n;
    }
}

/// Progress of the receiving side of one transfer session.
pub struct Receiver {
    total_size: usize,
    received: usize,
}

impl Receiver {
    /// Target number of bytes.
    pub closed spec fn total(&self) -> nat {
        self.total_size as nat
    }

    /// Bytes delivered by the socket so far.
    pub closed spec fn received(&self) -> nat {
        self.received as nat
    }

    /// A datagram is counted in full, so the count may pass the target by
    /// less than one buffer, never more.
    pub open spec fn wf(&self) -> bool {
        self.received() < self.total() + BUFFER_SIZE
    }

    pub open spec fn done(&self) -> bool {
        self.received() >= self.total()
    }

    pub fn new(total_size: usize) -> (r: Receiver)
        ensures
            r.wf(),
            r.total() == total_size,
            r.received() == 0,
    {
        Receiver { total_size, received: 0 }
    }

    pub fn total_size(&self) -> (r: usize)
        ensures
            r == self.total(),
    {
        self.total_size
    }

    pub fn bytes_received(&self) -> (r: usize)
        ensures
            r == self.received(),
    {
        self.received
    }

    pub fn is_done(&self) -> (r: bool)
        ensures
            r == self.done(),
    {
        self.received >= self.total_size
    }

    /// Size of the scratch buffer handed to each receive call.
    pub fn buffer_len(&self) -> (r: usize)
        ensures
            r == BUFFER_SIZE,
    {
        BUFFER_SIZE
    }

    /// Accounts for one datagram of `n` bytes, counted in full.
    pub fn record_received(&mut self, n: usize)
        requires
            old(self).wf(),
            !old(self).done(),
            n <= BUFFER_SIZE,
            old(self).received() + n <= usize::MAX,
        ensures
            final(self).wf(),
            final(self).total() == old(self).total(),
            final(self).received() == old(self).received() + n,
    {
        self.received = self.received + n;
    }
}

} // verus!
