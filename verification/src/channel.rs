//! The bounded queue that carries audio samples from a producer task to a
//! consumer task.
//!
//! The queue never blocks by itself. Where the producer would have to wait
//! for room, or the consumer for a sample, the call says so and leaves the
//! queue as it was; the task suspends and calls again once the other
//! side has made progress.

use embassy_sync::blocking_mutex::raw::CriticalSectionRawMutex;
use embassy_sync::channel::Channel;
use embassy_sync::channel::TryReceiveError;
use embassy_sync::channel::TrySendError;
use vstd::prelude::*;

verus! {

/// Most samples that the queue holds at a time.
pub const CAPACITY: usize = 64;

/// What became of a sample handed to [`SampleChannel::send`].
#[derive(Clone, Copy, PartialEq, Eq, Debug, Structural)]
pub enum SendOutcome {
    /// The sample is the newest in the queue.
    Sent,
    /// The queue was full: the sample comes back, and the sender suspends
    /// until a receive has made room.
    Suspended(u16),
}

/// What a call of [`SampleChannel::receive`] found.
#[derive(Clone, Copy, PartialEq, Eq, Debug, Structural)]
pub enum ReceiveOutcome {
    /// The oldest sample, now taken out of the queue.
    Received(u16),
    /// The queue was empty: the receiver suspends until a sample is sent.
    Suspended,
}

/// Whether a queue holding `queue` takes one more sample.
pub open spec fn has_room(queue: Seq<u16>) -> bool {
    queue.len() < CAPACITY
}

/// The queue after a send of `sample`: one longer at the tail where there was
/// room, else as before.
pub open spec fn after_send(queue: Seq<u16>, sample: u16) -> Seq<u16> {
    if has_room(queue) {
        queue.push(sample)
    } else {
        queue
    }
}

/// What a send of `sample` reports on a queue holding `queue`.
pub open spec fn send_outcome(queue: Seq<u16>, sample: u16) -> SendOutcome {
    if has_room(queue) {
        SendOutcome::Sent
    } else {
        SendOutcome::Suspended(sample)
    }
}

/// The queue after a receive: without its head where it had one.
pub open spec fn after_receive(queue: Seq<u16>) -> Seq<u16> {
    if queue.len() > 0 {
        queue.drop_first()
    } else {
        queue
    }
}

/// What a receive reports on a queue holding `queue`.
pub open spec fn receive_outcome(queue: Seq<u16>) -> ReceiveOutcome {
    if queue.len() > 0 {
        ReceiveOutcome::Received(queue[0])
    } else {
        ReceiveOutcome::Suspended
    }
}

/// A queue of at most [`CAPACITY`] samples, oldest first.
///
/// The samples live in an `embassy_sync::channel::Channel`, which Verus does
/// not look into: what the queue holds is known only through [`buffered`] and
/// the four private functions below that call the channel.
#[verifier::external_body]
pub struct SampleChannel {
    inner: Channel<CriticalSectionRawMutex, u16, 64>,
}

/// The samples that the channel holds, oldest first.
pub uninterp spec fn buffered(channel: SampleChannel) -> Seq<u16>;

/// `embassy_sync::channel::Channel::new`: a channel that holds nothing.
#[verifier::external_body]
fn channel_new() -> (channel: SampleChannel)
    ensures
        buffered(channel) == Seq::<u16>::empty(),
{
    SampleChannel { inner: Channel::new() }
}

/// `embassy_sync::channel::Channel::try_send`: with fewer than 64 samples
/// inside, the sample goes to the tail; with 64 inside, the channel stays as it is and the sample
/// comes back in the error, which is handed on as `Suspended`.
#[verifier::external_body]
fn channel_try_send(channel: &mut SampleChannel, sample: u16) -> (outcome: SendOutcome)
    ensures
        buffered(*old(channel)).len() < 64 ==> outcome == SendOutcome::Sent && buffered(
            *final(channel),
        ) == buffered(*old(channel)).push(sample),
        buffered(*old(channel)).len() >= 64 ==> outcome == SendOutcome::Suspended(sample)
            && buffered(*final(channel)) == buffered(*old(channel)),
{
    match channel.inner.try_send(sample) {
        Ok(()) => SendOutcome::Sent,
        Err(TrySendError::Full(sample)) => SendOutcome::Suspended(sample),
    }
}

/// `embassy_sync::channel::Channel::try_receive`: the head leaves the
/// channel and is returned; an empty channel stays empty and gives the error `Empty`, handed on as
/// `Suspended`.
#[verifier::external_body]
fn channel_try_receive(channel: &mut SampleChannel) -> (outcome: ReceiveOutcome)
    ensures
        buffered(*old(channel)).len() > 0 ==> outcome == ReceiveOutcome::Received(
            buffered(*old(channel))[0],
        ) && buffered(*final(channel)) == buffered(*old(channel)).drop_first(),
        buffered(*old(channel)).len() == 0 ==> outcome == ReceiveOutcome::Suspended && buffered(
            *final(channel),
        ) == buffered(*old(channel)),
{
    match channel.inner.try_receive() {
        Ok(sample) => ReceiveOutcome::Received(sample),
        Err(TryReceiveError::Empty) => ReceiveOutcome::Suspended,
    }
}

/// `embassy_sync::channel::Channel::len`: how many samples the channel
/// holds.
#[verifier::external_body]
fn channel_len(channel: &SampleChannel) -> (len: usize)
    ensures
        len == buffered(*channel).len(),
{
    channel.inner.len()
}

impl View for SampleChannel {
    type V = Seq<u16>;

    /// The samples in the queue, oldest first.
    open spec fn view(&self) -> Seq<u16> {
        buffered(*self)
    }
}

impl SampleChannel {
    /// The queue holds no more than it was made for.
    pub open spec fn wf(&self) -> bool {
        self@.len() <= CAPACITY
    }

    /// An empty queue.
    pub fn new() -> (channel: SampleChannel)
        ensures
            channel@ == Seq::<u16>::empty(),
            channel.wf(),
    {
        channel_new()
    }

    /// Appends `sample` where the queue has room. A full queue is left as it
    /// is and hands the sample back.
    pub fn send(&mut self, sample: u16) -> (outcome: SendOutcome)
        ensures
            final(self)@ == after_send(old(self)@, sample),
            outcome == send_outcome(old(self)@, sample),
            old(self).wf() ==> final(self).wf(),
    {
        channel_try_send(self, sample)
    }

    /// Takes the oldest sample out of the queue. An empty queue is left as it
    /// is.
    pub fn receive(&mut self) -> (outcome: ReceiveOutcome)
        ensures
            final(self)@ == after_receive(old(self)@),
            outcome == receive_outcome(old(self)@),
            old(self).wf() ==> final(self).wf(),
    {
        channel_try_receive(self)
    }

    /// Number of samples in the queue.
    pub fn len(&self) -> (len: usize)
        ensures
            len == self@.len(),
    {
        channel_len(self)
    }

    /// Whether a receive would find nothing.
    pub fn is_empty(&self) -> (empty: bool)
        ensures
            empty == (self@.len() == 0),
    {
        channel_len(self) == 0
    }

    /// Whether a send would find no room.
    pub fn is_full(&self) -> (full: bool)
        ensures
            full == !has_room(self@),
    {
        channel_len(self) >= CAPACITY
    }
}

/// One call on the queue.
#[derive(Clone, Copy, PartialEq, Eq, Debug, Structural)]
pub enum ChannelOp {
    Send(u16),
    Receive,
}

/// What a run of calls has done to a queue that began empty.
pub struct History {
    /// The samples that the queue took in, in the order of their sends.
    pub sent: Seq<u16>,
    /// The samples that the queue handed out, in the order of the receives.
    pub received: Seq<u16>,
    /// What the queue holds now, oldest first.
    pub queue: Seq<u16>,
}

impl History {
    /// Before any call.
    pub open spec fn start() -> History {
        History {
            sent: Seq::<u16>::empty(),
            received: Seq::<u16>::empty(),
            queue: Seq::<u16>::empty(),
        }
    }

    /// The history with one more call. A send that finds no room and a
    /// receive that finds no sample suspend: they add nothing.
    pub open spec fn extended(self, op: ChannelOp) -> History {
        match op {
            ChannelOp::Send(sample) => History {
                sent: if has_room(self.queue) {
                    self.sent.push(sample)
                } else {
                    self.sent
                },
                received: self.received,
                queue: after_send(self.queue, sample),
            },
            ChannelOp::Receive => History {
                sent: self.sent,
                received: if self.queue.len() > 0 {
                    self.received.push(self.queue[0])
                } else {
                    self.received
                },
                queue: after_receive(self.queue),
            },
        }
    }

    /// The history of `ops`, made one by one on a queue that began empty.
    pub open spec fn of(ops: Seq<ChannelOp>) -> History
        decreases ops.len(),
    {
        if ops.len() == 0 {
            History::start()
        } else {
            History::of(ops.drop_last()).extended(ops.last())
        }
    }
}

/// The samples that the sends among `ops` offered, in order.
pub open spec fn offered(ops: Seq<ChannelOp>) -> Seq<u16>
    decreases ops.len(),
{
    if ops.len() == 0 {
        Seq::<u16>::empty()
    } else {
        match ops.last() {
            ChannelOp::Send(sample) => offered(ops.drop_last()).push(sample),
            ChannelOp::Receive => offered(ops.drop_last()),
        }
    }
}

/// Whether every send among `ops` found room: never more than [`CAPACITY`]
/// samples were sent and not yet received.
pub open spec fn within_capacity(ops: Seq<ChannelOp>) -> bool
    decreases ops.len(),
{
    if ops.len() == 0 {
        true
    } else {
        &&& within_capacity(ops.drop_last())
        &&& ops.last() is Send ==> has_room(History::of(ops.drop_last()).queue)
    }
}

/// First in, first out, whatever the order of sends and receives: what was
/// sent is what was received followed by what the queue holds, so nothing is
/// lost, doubled or reordered. The queue never holds more than [`CAPACITY`],
/// and the sample that the next receive takes is the earliest one sent and
/// not yet received.
pub proof fn lemma_fifo(ops: Seq<ChannelOp>)
    ensures
        History::of(ops).sent == History::of(ops).received + History::of(ops).queue,
        History::of(ops).queue.len() <= CAPACITY,
        History::of(ops).received.len() <= History::of(ops).sent.len(),
        forall|k: int|
            0 <= k < History::of(ops).received.len() ==> History::of(ops).received[k]
                == History::of(ops).sent[k],
        History::of(ops).queue.len() > 0 ==> receive_outcome(History::of(ops).queue)
            == ReceiveOutcome::Received(
            History::of(ops).sent[History::of(ops).received.len() as int],
        ),
    decreases ops.len(),
{
    if ops.len() > 0 {
        lemma_fifo(ops.drop_last());
        let now = History::of(ops);
        assert(now.sent =~= now.received + now.queue);
    }
}

/// Where no send finds the queue full, every sample offered is taken in:
/// the samples received and those still queued are the samples offered, in
/// the order in which they were offered.
pub proof fn lemma_nothing_lost(ops: Seq<ChannelOp>)
    requires
        within_capacity(ops),
    ensures
        History::of(ops).sent == offered(ops),
        History::of(ops).received + History::of(ops).queue == offered(ops),
        forall|k: int|
            0 <= k < History::of(ops).received.len() ==> History::of(ops).received[k]
                == offered(ops)[k],
    decreases ops.len(),
{
    lemma_fifo(ops);
    if ops.len() > 0 {
        lemma_nothing_lost(ops.drop_last());
    }
}

/// A send that finds [`CAPACITY`] samples queued suspends and changes
/// nothing; one receive later the same send goes through, behind the samples
/// that were there.
pub proof fn lemma_full_queue_resumes(queue: Seq<u16>, sample: u16)
    requires
        queue.len() == CAPACITY,
    ensures
        send_outcome(queue, sample) == SendOutcome::Suspended(sample),
        after_send(queue, sample) == queue,
        receive_outcome(queue) == ReceiveOutcome::Received(queue[0]),
        send_outcome(after_receive(queue), sample) == SendOutcome::Sent,
        after_send(after_receive(queue), sample) == queue.drop_first().push(sample),
{
}

} // verus!
