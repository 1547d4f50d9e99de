//! Bounded, bidirectional message gateway: an inbound command queue, an
//! outbound event queue, and a loopback primitive that re-injects internal
//! commands into the same inbound path the external transport feeds, so
//! the command loop cannot distinguish externally from internally
//! originated commands.
//!
//! Both queues are FIFO. The outbound queue keeps the newest events: when
//! it is full the oldest unconsumed event is dropped — delivery is
//! at-most-once, never guaranteed. The inbound queue never reorders: a
//! command that arrives when the queue is full is dropped whole.

use std::collections::VecDeque;

use vstd::prelude::*;

use crate::message::{InMsg, OutMsg};

verus! {

/// A bounded FIFO push that keeps the newest entries: when the queue is
/// full the oldest entry is dropped to make room.
pub open spec fn spec_bounded_push<T>(q: Seq<T>, cap: int, m: T) -> Seq<T> {
    if q.len() < cap {
        q.push(m)
    } else {
        q.skip(1).push(m)
    }
}

/// A bounded FIFO push that keeps the oldest entries: when the queue is
/// full the new entry is dropped whole.
pub open spec fn spec_enqueue<T>(q: Seq<T>, cap: int, m: T) -> Seq<T> {
    if q.len() < cap {
        q.push(m)
    } else {
        q
    }
}

/// The mathematical state of a gateway: the two queues and their bounds.
#[verifier::ext_equal]
pub struct GatewayModel {
    pub queue_in: Seq<InMsg>,
    pub queue_out: Seq<OutMsg>,
    pub cap_in: int,
    pub cap_out: int,
}

/// The gateway's queue pair. The external transport feeds `queue_in` and
/// drains `queue_out`; the control loop does the reverse.
pub struct Gateway {
    queue_in: VecDeque<InMsg>,
    queue_out: VecDeque<OutMsg>,
    cap_in: usize,
    cap_out: usize,
}

impl View for Gateway {
    type V = GatewayModel;

    closed spec fn view(&self) -> GatewayModel {
        GatewayModel {
            queue_in: self.queue_in@,
            queue_out: self.queue_out@,
            cap_in: self.cap_in as int,
            cap_out: self.cap_out as int,
        }
    }
}

impl Gateway {
    /// Both queues within their bounds, and the bounds usable.
    pub open spec fn wf(&self) -> bool {
        &&& 1 <= self@.cap_in
        &&& 1 <= self@.cap_out
        &&& self@.queue_in.len() <= self@.cap_in
        &&& self@.queue_out.len() <= self@.cap_out
    }

    /// A fresh gateway with empty queues and the given capacities.
    pub fn new(cap_in: usize, cap_out: usize) -> (g: Gateway)
        requires
            1 <= cap_in,
            1 <= cap_out,
        ensures
            g.wf(),
            g@.queue_in.len() == 0,
            g@.queue_out.len() == 0,
            g@.cap_in == cap_in,
            g@.cap_out == cap_out,
    {
        Gateway { queue_in: VecDeque::new(), queue_out: VecDeque::new(), cap_in, cap_out }
    }

    /// Emits an event on the outbound queue, dropping the oldest
    /// unconsumed event when the queue is full. Send order is preserved.
    pub fn send(&mut self, out: OutMsg)
        requires
            old(self).wf(),
        ensures
            final(self).wf(),
            final(self)@.queue_out == spec_bounded_push(
                old(self)@.queue_out,
                old(self)@.cap_out,
                out,
            ),
            final(self)@.queue_in == old(self)@.queue_in,
            final(self)@.cap_in == old(self)@.cap_in,
            final(self)@.cap_out == old(self)@.cap_out,
    {
        if self.queue_out.len() >= self.cap_out {
            let _ = self.queue_out.pop_front();
        }
        self.queue_out.push_back(out);
    }

    /// Re-injects a command into the same inbound queue the external
    /// transport feeds; a command that arrives on a full queue is dropped.
    pub fn send_myself(&mut self, msg: InMsg)
        requires
            old(self).wf(),
        ensures
            final(self).wf(),
            final(self)@.queue_in == spec_enqueue(old(self)@.queue_in, old(self)@.cap_in, msg),
            final(self)@.queue_out == old(self)@.queue_out,
            final(self)@.cap_in == old(self)@.cap_in,
            final(self)@.cap_out == old(self)@.cap_out,
    {
        if self.queue_in.len() < self.cap_in {
            self.queue_in.push_back(msg);
        }
    }

    /// Takes the next pending command, if any; commands come out in the
    /// order they went in.
    pub fn recv(&mut self) -> (r: Option<InMsg>)
        requires
            old(self).wf(),
        ensures
            final(self).wf(),
            match r {
                Option::Some(m) => old(self)@.queue_in.len() > 0 && m == old(self)@.queue_in[0]
                    && final(self)@.queue_in == old(self)@.queue_in.skip(1),
                Option::None => old(self)@.queue_in.len() == 0 && final(self)@.queue_in == old(
                    self,
                )@.queue_in,
            },
            final(self)@.queue_out == old(self)@.queue_out,
            final(self)@.cap_in == old(self)@.cap_in,
            final(self)@.cap_out == old(self)@.cap_out,
    {
        let r = self.queue_in.pop_front();
        proof {
            if r is Some {
                assert(self.queue_in@ =~= old(self)@.queue_in.skip(1));
            }
        }
        r
    }

    /// Whether a command is pending.
    pub fn has_msg(&self) -> (b: bool)
        ensures
            b == (self@.queue_in.len() > 0),
    {
        self.queue_in.len() > 0
    }

    /// Takes the next outbound event for delivery to the external
    /// transport, in send order.
    pub fn take_outgoing(&mut self) -> (r: Option<OutMsg>)
        requires
            old(self).wf(),
        ensures
            final(self).wf(),
            match r {
                Option::Some(m) => old(self)@.queue_out.len() > 0 && m == old(self)@.queue_out[0]
                    && final(self)@.queue_out == old(self)@.queue_out.skip(1),
                Option::None => old(self)@.queue_out.len() == 0 && final(self)@.queue_out == old(
                    self,
                )@.queue_out,
            },
            final(self)@.queue_in == old(self)@.queue_in,
            final(self)@.cap_in == old(self)@.cap_in,
            final(self)@.cap_out == old(self)@.cap_out,
    {
        let r = self.queue_out.pop_front();
        proof {
            if r is Some {
                assert(self.queue_out@ =~= old(self)@.queue_out.skip(1));
            }
        }
        r
    }
}

} // verus!
