//! The bounded channel between a run and the control surface.
//!
//! The run's side blocks when the channel is full, so that no event is lost;
//! the control surface's side never blocks. A producer handle serves one run:
//! once it has taken the run's `Done` it hands nothing more to the channel.

use vstd::prelude::*;
use crate::event::{ProgressEvent, ProgressEventView};

verus! {

/// Number of events that the channel holds before the run has to wait.
pub const CHANNEL_CAPACITY: usize = 10;

/// `crossbeam_channel::Sender`, the sending half of a channel.
#[verifier::external_type_specification]
#[verifier::external_body]
#[verifier::reject_recursive_types(T)]
pub struct ExSender<T>(crossbeam_channel::Sender<T>);

/// `crossbeam_channel::Receiver`, the receiving half of a channel.
#[verifier::external_type_specification]
#[verifier::external_body]
#[verifier::reject_recursive_types(T)]
pub struct ExReceiver<T>(crossbeam_channel::Receiver<T>);

/// The number of messages that the channel behind a receiver was made to
/// hold; `None` for a channel without a bound.
pub uninterp spec fn slots(receiver: crossbeam_channel::Receiver<ProgressEvent>) -> Option<usize>;

/// `crossbeam_channel::bounded`: makes a channel that holds at most `capacity`
/// messages and returns its two halves. The call panics where the capacity
/// is too large for the channel's index arithmetic, which the bound here
/// rules out.
#[verifier::external_body]
fn open_channel(capacity: usize) -> (ends: (
    crossbeam_channel::Sender<ProgressEvent>,
    crossbeam_channel::Receiver<ProgressEvent>,
))
    requires
        capacity <= 4096,
    ensures
        slots(ends.1) == Some(capacity),
{
    crossbeam_channel::bounded(capacity)
}

/// `Sender::send`: waits until the channel has room and puts the message in.
/// Where every receiver is gone it fails and gives the message back. Whether
/// it succeeds depends on the other side, so nothing is claimed of that.
#[verifier::external_body]
fn send_event(sender: &crossbeam_channel::Sender<ProgressEvent>, event: ProgressEvent) -> (sent:
    Result<(), ProgressEvent>)
    ensures
        sent matches Err(back) ==> back == event,
{
    match sender.send(event) {
        Ok(()) => Ok(()),
        Err(refused) => Err(refused.0),
    }
}

/// `Receiver::try_recv`: takes the oldest message out of the channel if one
/// is there, without waiting. An empty channel and a channel whose senders
/// are all gone both give `None`. What comes depends on the other side, so
/// nothing is claimed of it.
#[verifier::external_body]
fn try_receive(receiver: &crossbeam_channel::Receiver<ProgressEvent>) -> (taken: Option<
    ProgressEvent,
>) {
    match receiver.try_recv() {
        Ok(event) => Some(event),
        Err(_) => None,
    }
}

/// `Receiver::len`: the number of messages in the channel at the moment of the
/// call. A bounded channel never holds more than its capacity.
#[verifier::external_body]
fn waiting(receiver: &crossbeam_channel::Receiver<ProgressEvent>) -> (count: usize)
    ensures
        slots(*receiver) matches Some(capacity) ==> count <= capacity,
{
    receiver.len()
}

/// `Receiver::capacity`: the bound that the channel was made with.
#[verifier::external_body]
fn bound_of(receiver: &crossbeam_channel::Receiver<ProgressEvent>) -> (bound: Option<usize>)
    ensures
        bound == slots(*receiver),
{
    receiver.capacity()
}

/// `Sender::clone`: a further sending half of the same channel.
#[verifier::external_body]
fn another_sender(sender: &crossbeam_channel::Sender<ProgressEvent>) -> (copy:
    crossbeam_channel::Sender<ProgressEvent>) {
    sender.clone()
}

/// What became of an event that was handed to a [`RunSender`].
#[derive(Clone, Copy, Debug, PartialEq, Eq, Structural)]
pub enum Delivery {
    /// The event is in the channel.
    Sent,
    /// The run had published its `Done` before: the event was dropped.
    AfterDone,
    /// Nobody listens any more: the event was dropped.
    Disconnected,
}

/// What a producer handle has passed on so far, and whether that ends with
/// a `Done`.
struct Ledger {
    closed: bool,
    handed: Ghost<Seq<ProgressEventView>>,
}

impl Ledger {
    #[verifier::type_invariant]
    spec fn holds(self) -> bool {
        ends_with_done(self.handed@) == self.closed && done_only_last(self.handed@)
    }
}

/// The last of the events is a `Done`.
pub open spec fn ends_with_done(events: Seq<ProgressEventView>) -> bool {
    events.len() > 0 && events.last() is Done
}

/// No event but the last is a `Done`.
pub open spec fn done_only_last(events: Seq<ProgressEventView>) -> bool {
    forall|i: int| 0 <= i < events.len() - 1 ==> !((#[trigger] events[i]) is Done)
}

/// The producer handle of one run.
pub struct RunSender {
    sender: crossbeam_channel::Sender<ProgressEvent>,
    ledger: Ledger,
}

impl RunSender {
    /// The events that this handle has passed on for sending, in order,
    /// whether or not a receiver was left to take them.
    pub closed spec fn handed(self) -> Seq<ProgressEventView> {
        self.ledger.handed@
    }

    /// Whether the run has handed over its `Done`.
    pub open spec fn is_closed(self) -> bool {
        ends_with_done(self.handed())
    }

    /// Hands an event to the channel, waiting for room if the channel is
    /// full. After the run's `Done` nothing is handed over any more, so a
    /// handle never hands over a second `Done` nor anything after the first.
    pub fn publish(&mut self, event: ProgressEvent) -> (delivery: Delivery)
        ensures
            delivery is AfterDone <==> old(self).is_closed(),
            old(self).is_closed() ==> final(self).handed() == old(self).handed(),
            !old(self).is_closed() ==> final(self).handed() == old(self).handed().push(event@),
            done_only_last(final(self).handed()),
    {
        proof {
            use_type_invariant(&self.ledger);
        }
        if self.ledger.closed {
            return Delivery::AfterDone;
        }
        let closes = match &event {
            ProgressEvent::Done(_) => true,
            ProgressEvent::Progress(_) => false,
        };
        let ghost handed = self.ledger.handed@.push(event@);
        let sent = send_event(&self.sender, event);
        self.ledger = Ledger { closed: closes, handed: Ghost(handed) };
        match sent {
            Ok(_) => Delivery::Sent,
            Err(_) => Delivery::Disconnected,
        }
    }

    /// Whether the run has handed over its `Done`.
    pub fn closed(&self) -> (closed: bool)
        ensures
            closed == self.is_closed(),
            done_only_last(self.handed()),
    {
        proof {
            use_type_invariant(&self.ledger);
        }
        self.ledger.closed
    }
}

/// The control surface's end of the channel, from which the producer handle
/// of each run is made.
pub struct ProgressChannel {
    sender: crossbeam_channel::Sender<ProgressEvent>,
    receiver: crossbeam_channel::Receiver<ProgressEvent>,
}

/// The mathematical values of a sequence of events.
pub open spec fn views(events: Seq<ProgressEvent>) -> Seq<ProgressEventView> {
    events.map_values(|event: ProgressEvent| event@)
}

impl ProgressChannel {
    #[verifier::type_invariant]
    spec fn holds(self) -> bool {
        slots(self.receiver) == Some(CHANNEL_CAPACITY)
    }

    /// The number of events that the channel was made to hold.
    pub closed spec fn bound(self) -> Option<usize> {
        slots(self.receiver)
    }

    /// A channel of [`CHANNEL_CAPACITY`] slots.
    pub fn new() -> (channel: ProgressChannel)
        ensures
            channel.bound() == Some(CHANNEL_CAPACITY),
    {
        let (sender, receiver) = open_channel(CHANNEL_CAPACITY);
        ProgressChannel { sender, receiver }
    }

    /// The number of events that the channel holds before a run has to wait.
    pub fn capacity(&self) -> (bound: Option<usize>)
        ensures
            bound == self.bound(),
            bound == Some(CHANNEL_CAPACITY),
    {
        proof {
            use_type_invariant(self);
        }
        bound_of(&self.receiver)
    }

    /// A producer handle for a new run: nothing was handed over through it.
    pub fn run_sender(&self) -> (sender: RunSender)
        ensures
            sender.handed() == Seq::<ProgressEventView>::empty(),
    {
        RunSender {
            sender: another_sender(&self.sender),
            ledger: Ledger { closed: false, handed: Ghost(Seq::empty()) },
        }
    }

    /// Takes out the events that are in the channel at the moment of the
    /// call, oldest first, without waiting for more.
    pub fn drain(&self) -> (events: Vec<ProgressEvent>)
        ensures
            events@.len() <= CHANNEL_CAPACITY,
    {
        proof {
            use_type_invariant(self);
        }
        let mut events: Vec<ProgressEvent> = Vec::new();
        let available: usize = waiting(&self.receiver);
        let mut taken: usize = 0;
        while taken < available
            invariant
                taken <= available <= CHANNEL_CAPACITY,
                events@.len() == taken,
            decreases available - taken,
        {
            match try_receive(&self.receiver) {
                Some(event) => {
                    events.push(event);
                    taken = taken + 1;
                },
                None => {
                    break;
                },
            }
        }
        events
    }
}

} // verus!
