use vstd::prelude::*;
use crate::error::Error;
use crate::event::Event;

verus! {

#[verifier::external_type_specification]
#[verifier::external_body]
#[verifier::reject_recursive_types(T)]
pub struct ExSender<T>(crossbeam_channel::Sender<T>);

#[verifier::external_type_specification]
#[verifier::external_body]
#[verifier::reject_recursive_types(T)]
pub struct ExReceiver<T>(crossbeam_channel::Receiver<T>);

/// The largest capacity a channel is made with: crossbeam panics only far
/// above it, and a buffer of that many slots already takes tens of gigabytes.
pub const MAX_CAPACITY: usize = 1073741824;

/// The capacity that `Sender::capacity` reports for the channel of `s`:
/// fixed when the channel is made.
pub uninterp spec fn capacity_of(s: crossbeam_channel::Sender<Event>) -> Option<usize>;

/// Relies on `crossbeam_channel::bounded`: a FIFO channel that holds at most
/// `cap` events, whose `send` blocks while it is full, and whose sender
/// reports `Some(cap)` as its capacity. It panics only for a capacity too
/// large to allocate, which `MAX_CAPACITY` keeps out.
#[verifier::external_body]
fn open_bounded(cap: usize) -> (r: (crossbeam_channel::Sender<Event>, crossbeam_channel::Receiver<Event>))
    requires
        cap <= MAX_CAPACITY,
    ensures
        capacity_of(r.0) == Some(cap),
{
    crossbeam_channel::bounded(cap)
}

/// Relies on `Sender::capacity`: the bound the channel was made with.
#[verifier::external_body]
fn sender_capacity(s: &crossbeam_channel::Sender<Event>) -> (r: Option<usize>)
    ensures
        r == capacity_of(*s),
{
    s.capacity()
}

/// Relies on `Sender::send`: blocks until there is room, and fails only when
/// every receiver is gone.
#[verifier::external_body]
fn send_event(s: &crossbeam_channel::Sender<Event>, e: Event) -> (r: bool) {
    s.send(e).is_ok()
}

/// Relies on `Receiver::recv`: blocks until an event is there, and gives
/// `None` only when the channel is empty and every sender is gone.
#[verifier::external_body]
fn recv_event(r: &crossbeam_channel::Receiver<Event>) -> (o: Option<Event>) {
    r.recv().ok()
}

/// The bounded handoff between the reader and the sinks.
pub struct Channel {
    pub s: crossbeam_channel::Sender<Event>,
    pub r: crossbeam_channel::Receiver<Event>,
}

impl Channel {
    /// A channel of the default capacity.
    pub fn new() -> (r: Channel)
        ensures
            capacity_of(r.s) == Some(crate::DEFAULT_CAPACITY),
    {
        Channel::with_capacity(crate::DEFAULT_CAPACITY)
    }

    /// A channel that holds at most `cap` events.
    pub fn with_capacity(cap: usize) -> (r: Channel)
        requires
            cap <= MAX_CAPACITY,
        ensures
            capacity_of(r.s) == Some(cap),
    {
        let (s, r) = open_bounded(cap);
        Channel { s, r }
    }

    /// The most events the channel holds at once.
    pub fn capacity(&self) -> (r: Option<usize>)
        ensures
            r == capacity_of(self.s),
    {
        sender_capacity(&self.s)
    }

    /// Queues `event`, waiting while the channel is full. Fails with
    /// `SendError` once the receiving side is gone.
    pub fn send(&self, event: Event) -> (r: Result<(), Error>)
        ensures
            r is Err ==> r->Err_0 is SendError,
    {
        if send_event(&self.s, event) {
            Ok(())
        } else {
            Err(Error::SendError)
        }
    }

    /// The oldest queued event, waiting while none is queued. Fails with
    /// `RecvError` once the channel is empty and the sending side is gone.
    pub fn recv(&self) -> (r: Result<Event, Error>)
        ensures
            r is Err ==> r->Err_0 is RecvError,
    {
        match recv_event(&self.r) {
            Some(e) => Ok(e),
            None => Err(Error::RecvError),
        }
    }
}

} // verus!
