use vstd::prelude::*;

verus! {

/// The life of a pipeline: `Idle -> Running -> Draining -> Stopped`.
#[derive(Debug, Clone, Copy, PartialEq, Eq, Structural)]
pub enum Phase {
    Idle,
    Running,
    Draining,
    Stopped,
}

/// What the reader is to do next.
#[derive(Debug, Clone, Copy, PartialEq, Eq, Structural)]
pub enum ProducerAction {
    /// Read the next record and queue it.
    Read,
    /// The queue is full: wait until a sink takes an event.
    Wait,
    /// Reading is over.
    Stop,
}

/// The bookkeeping of a pipeline: its phase, the capacity of its queue, how
/// many events it has accepted into the queue and how many the sinks have
/// taken out of it.
#[derive(Debug, Clone, Copy, PartialEq, Eq, Structural)]
pub struct Pipeline {
    pub phase: Phase,
    pub capacity: u64,
    pub sent: u64,
    pub delivered: u64,
}

/// Events accepted and not yet delivered.
pub open spec fn queued(p: Pipeline) -> int {
    p.sent - p.delivered
}

/// The queue never holds more than its capacity, and a stopped pipeline has
/// delivered everything it accepted.
pub open spec fn wf(p: Pipeline) -> bool {
    &&& p.delivered <= p.sent
    &&& queued(p) <= p.capacity
    &&& (p.phase == Phase::Stopped ==> p.sent == p.delivered)
    &&& (p.phase == Phase::Idle ==> p.sent == 0)
}

pub open spec fn producer_action(p: Pipeline) -> ProducerAction {
    if p.phase == Phase::Running {
        if queued(p) < p.capacity {
            ProducerAction::Read
        } else {
            ProducerAction::Wait
        }
    } else {
        ProducerAction::Stop
    }
}

/// The pipeline after the reader queued one more event, when that is allowed.
pub open spec fn send_step(p: Pipeline) -> Pipeline {
    if producer_action(p) == ProducerAction::Read && p.sent < u64::MAX {
        Pipeline { sent: (p.sent + 1) as u64, ..p }
    } else {
        p
    }
}

/// The pipeline after the sinks took one more event, when one is queued.
pub open spec fn deliver_step(p: Pipeline) -> Pipeline {
    if (p.phase == Phase::Running || p.phase == Phase::Draining) && p.delivered < p.sent {
        Pipeline { delivered: (p.delivered + 1) as u64, ..p }
    } else {
        p
    }
}

/// The pipeline after a close signal or a source failure.
pub open spec fn shutdown_step(p: Pipeline) -> Pipeline {
    match p.phase {
        Phase::Idle => Pipeline { phase: Phase::Stopped, ..p },
        Phase::Running => Pipeline { phase: Phase::Draining, ..p },
        _ => p,
    }
}

/// The pipeline after an attempt to stop: it stops once draining is done.
pub open spec fn stop_step(p: Pipeline) -> Pipeline {
    if p.phase == Phase::Draining && p.sent == p.delivered {
        Pipeline { phase: Phase::Stopped, ..p }
    } else {
        p
    }
}

/// `n` send steps from `p`.
pub open spec fn sends(p: Pipeline, n: nat) -> Pipeline
    decreases n,
{
    if n == 0 {
        p
    } else {
        send_step(sends(p, (n - 1) as nat))
    }
}

/// `n` deliver steps from `p`.
pub open spec fn deliveries(p: Pipeline, n: nat) -> Pipeline
    decreases n,
{
    if n == 0 {
        p
    } else {
        deliver_step(deliveries(p, (n - 1) as nat))
    }
}

impl Pipeline {
    /// An idle pipeline whose queue holds at most `capacity` events.
    pub fn new(capacity: u64) -> (r: Pipeline)
        ensures
            wf(r),
            r == (Pipeline { phase: Phase::Idle, capacity, sent: 0, delivered: 0 }),
    {
        Pipeline { phase: Phase::Idle, capacity, sent: 0, delivered: 0 }
    }

    /// Source opened, sinks ready: an idle pipeline starts running.
    pub fn start(&mut self)
        requires
            wf(*old(self)),
        ensures
            wf(*final(self)),
            *final(self) == (if old(self).phase == Phase::Idle {
                Pipeline { phase: Phase::Running, ..*old(self) }
            } else {
                *old(self)
            }),
    {
        if self.phase == Phase::Idle {
            self.phase = Phase::Running;
        }
    }

    /// Events accepted and not yet delivered.
    pub fn queued(&self) -> (r: u64)
        requires
            wf(*self),
        ensures
            r == queued(*self),
    {
        self.sent - self.delivered
    }

    /// What the reader is to do next.
    pub fn producer_action(&self) -> (r: ProducerAction)
        requires
            wf(*self),
        ensures
            r == producer_action(*self),
    {
        if self.phase == Phase::Running {
            if self.sent - self.delivered < self.capacity {
                ProducerAction::Read
            } else {
                ProducerAction::Wait
            }
        } else {
            ProducerAction::Stop
        }
    }

    /// Records that the reader queued an event; refused (false, nothing
    /// changed) unless the reader was to read.
    pub fn on_sent(&mut self) -> (r: bool)
        requires
            wf(*old(self)),
        ensures
            wf(*final(self)),
            *final(self) == send_step(*old(self)),
            r == (*final(self) != *old(self)),
    {
        if self.producer_action() == ProducerAction::Read && self.sent < u64::MAX {
            self.sent = self.sent + 1;
            true
        } else {
            false
        }
    }

    /// Records that the sinks took an event; refused (false, nothing changed)
    /// when none is queued or the pipeline is not running or draining.
    pub fn on_delivered(&mut self) -> (r: bool)
        requires
            wf(*old(self)),
        ensures
            wf(*final(self)),
            *final(self) == deliver_step(*old(self)),
            r == (*final(self) != *old(self)),
    {
        if (self.phase == Phase::Running || self.phase == Phase::Draining)
            && self.delivered < self.sent {
            self.delivered = self.delivered + 1;
            true
        } else {
            false
        }
    }

    /// A close signal or a source failure: reading ends, and what is queued
    /// is still delivered.
    pub fn shutdown(&mut self)
        requires
            wf(*old(self)),
        ensures
            wf(*final(self)),
            *final(self) == shutdown_step(*old(self)),
    {
        match self.phase {
            Phase::Idle => self.phase = Phase::Stopped,
            Phase::Running => self.phase = Phase::Draining,
            _ => {},
        }
    }

    /// Stops a draining pipeline once every accepted event was delivered.
    pub fn try_stop(&mut self) -> (r: bool)
        requires
            wf(*old(self)),
        ensures
            wf(*final(self)),
            *final(self) == stop_step(*old(self)),
            r == (final(self).phase == Phase::Stopped),
    {
        if self.phase == Phase::Draining && self.sent == self.delivered {
            self.phase = Phase::Stopped;
        }
        self.phase == Phase::Stopped
    }
}

/// Each step keeps the pipeline well formed.
pub proof fn lemma_steps_wf(p: Pipeline)
    requires
        wf(p),
    ensures
        wf(send_step(p)),
        wf(deliver_step(p)),
        wf(shutdown_step(p)),
        wf(stop_step(p)),
{
}

/// Backpressure: from an empty queue of capacity `c`, the reader may read
/// while fewer than `c` events were queued, and must wait after exactly `c`
/// sends with none delivered; one delivery lets it read again.
pub proof fn lemma_backpressure(p: Pipeline, k: nat)
    requires
        wf(p),
        p.phase == Phase::Running,
        p.sent == p.delivered,
        p.capacity > 0,
        k <= p.capacity,
        p.sent + p.capacity <= u64::MAX,
    ensures
        sends(p, k).sent == p.sent + k,
        sends(p, k).delivered == p.delivered,
        sends(p, k).capacity == p.capacity,
        sends(p, k).phase == Phase::Running,
        queued(sends(p, k)) == k,
        wf(sends(p, k)),
        producer_action(sends(p, k)) == (if k < p.capacity {
            ProducerAction::Read
        } else {
            ProducerAction::Wait
        }),
        k == p.capacity ==> send_step(sends(p, k)) == sends(p, k),
        k == p.capacity ==> producer_action(deliver_step(sends(p, k))) == ProducerAction::Read,
    decreases k,
{
    if k > 0 {
        lemma_backpressure(p, (k - 1) as nat);
    }
}

/// Drain on shutdown: a close signal keeps every accepted event, stops the
/// reader, and the pipeline stops exactly when all of them were delivered.
/// Delivering what was queued at the signal always gets it there.
pub proof fn lemma_drain_on_shutdown(p: Pipeline, n: nat)
    requires
        wf(p),
        p.phase == Phase::Running,
        n <= queued(p),
    ensures
        shutdown_step(p).sent == p.sent,
        shutdown_step(p).delivered == p.delivered,
        producer_action(shutdown_step(p)) == ProducerAction::Stop,
        send_step(shutdown_step(p)) == shutdown_step(p),
        deliveries(shutdown_step(p), n).delivered == p.delivered + n,
        deliveries(shutdown_step(p), n).phase == Phase::Draining,
        deliveries(shutdown_step(p), n).sent == p.sent,
        deliveries(shutdown_step(p), n).capacity == p.capacity,
        (stop_step(deliveries(shutdown_step(p), n)).phase == Phase::Stopped) <==> n == queued(p),
    decreases n,
{
    if n > 0 {
        lemma_drain_on_shutdown(p, (n - 1) as nat);
    }
}

} // verus!
