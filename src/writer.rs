use vstd::prelude::*;
use crate::retry::{write_policy, Attempt, Retrier};

verus! {

/// Pause after every packet that went out, so the device can keep up.
pub const PACING_MS: u64 = 100;

/// What the caller does after handing one write outcome to a [`PacketWriter`].
#[derive(Clone, Debug, PartialEq, Eq)]
pub enum WriteStep {
    /// The packet went out: wait `pacing_ms`, then go on with the next one.
    Sent { pacing_ms: u64 },
    /// The packet failed: wait `delay_ms`, then write the same packet again.
    RetryAfter { delay_ms: u64 },
    /// The packet failed on its last try: the message is abandoned.
    Abort { error: String },
}

/// Delivers the packets of one message in order, each tried up to three times.
/// The caller performs the writes and the waits; this decides what comes next.
pub struct PacketWriter {
    pub packets: Vec<Vec<u8>>,
    /// Index of the packet being written.
    pub next: usize,
    pub retry: Retrier,
    pub failed: bool,
}

impl PacketWriter {
    pub open spec fn wf(self) -> bool {
        &&& self.next <= self.packets@.len()
        &&& self.retry.policy.max_attempts == 3
        &&& self.retry.policy.delay_ms == 100
        &&& self.retry.may_try()
    }

    /// A packet is waiting to be written.
    pub open spec fn in_flight(self) -> bool {
        !self.failed && self.next < self.packets@.len()
    }

    pub fn new(packets: Vec<Vec<u8>>) -> (r: PacketWriter)
        ensures
            r.wf(),
            r.packets == packets,
            r.next == 0,
            r.retry.failures == 0,
            !r.failed,
    {
        PacketWriter { packets, next: 0, retry: Retrier::new(write_policy()), failed: false }
    }

    /// The packet to write now, if any.
    pub fn current(&self) -> (r: Option<&Vec<u8>>)
        requires
            self.wf(),
        ensures
            r is Some <==> self.in_flight(),
            r matches Some(p) ==> *p == self.packets@[self.next as int],
    {
        if !self.failed && self.next < self.packets.len() {
            Some(&self.packets[self.next])
        } else {
            None
        }
    }

    /// Every packet went out.
    pub fn is_done(&self) -> (r: bool)
        ensures
            r == (!self.failed && self.next >= self.packets@.len()),
    {
        !self.failed && self.next >= self.packets.len()
    }

    /// Takes the outcome of writing the current packet. A success moves on to
    /// the next packet, so no packet is sent again once it went out; a failure
    /// retries the same packet until its third try fails, which abandons the
    /// message with that try's error.
    pub fn on_write_result(&mut self, result: Result<(), String>) -> (r: WriteStep)
        requires
            old(self).wf(),
            old(self).in_flight(),
        ensures
            final(self).wf(),
            final(self).packets == old(self).packets,
            match result {
                Ok(()) => {
                    &&& r == WriteStep::Sent { pacing_ms: PACING_MS }
                    &&& final(self).next == old(self).next + 1
                    &&& final(self).retry.failures == 0
                    &&& !final(self).failed
                },
                Err(e) => {
                    &&& final(self).next == old(self).next
                    &&& old(self).retry.failures + 1 < 3 ==> {
                        &&& r == WriteStep::RetryAfter { delay_ms: 100 }
                        &&& final(self).retry.failures == old(self).retry.failures + 1
                        &&& !final(self).failed
                    }
                    &&& old(self).retry.failures + 1 >= 3 ==> {
                        &&& r matches WriteStep::Abort { error } && error@ == e@
                        &&& final(self).failed
                    }
                },
            },
    {
        let len = self.packets.len();
        match self.retry.record(result) {
            Attempt::Succeeded => {
                assert(self.next < len);
                self.next = self.next + 1;
                WriteStep::Sent { pacing_ms: PACING_MS }
            },
            Attempt::RetryAfter(delay_ms) => WriteStep::RetryAfter { delay_ms },
            Attempt::GaveUp(error) => {
                self.failed = true;
                self.retry = Retrier::new(write_policy());
                WriteStep::Abort { error }
            },
        }
    }
}

} // verus!
