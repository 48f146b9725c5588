use embassy_sync::blocking_mutex::raw::CriticalSectionRawMutex;
use embassy_sync::channel::Channel;
use vstd::prelude::*;

verus! {

/// What the callbacks tell the event loop.
///
/// The first field is always the connection handle; the second, where there
/// is one, is the 16-bit identifier of the characteristic concerned.
#[derive(Clone, Copy, Debug, PartialEq, Eq, Structural)]
pub enum AppEvent {
    Connected(u16),
    Disconnected(u16),
    Subscribed(u16, u16),
    Unsubscribed(u16, u16),
}

/// Number of events the queue holds before it starts dropping new ones.
pub const QUEUE_CAPACITY: usize = 3;

/// The channel of the embedded async runtime that carries the events. It is
/// shared between interrupt-like callbacks and tasks under a critical section.
#[verifier::external_body]
pub struct EventChannel {
    inner: Channel<CriticalSectionRawMutex, AppEvent, 3>,
}

/// The events waiting in a channel, oldest first.
pub uninterp spec fn queued_events(ch: EventChannel) -> Seq<AppEvent>;

/// `Channel::new`: a fresh channel holds nothing.
#[verifier::external_body]
fn channel_new() -> (ch: EventChannel)
    ensures
        queued_events(ch) == Seq::<AppEvent>::empty(),
{
    EventChannel { inner: Channel::new() }
}

/// `Channel::try_send`: the message goes to the back when fewer than three
/// are waiting, and is handed back, the channel untouched, when three are.
#[verifier::external_body]
fn channel_try_send(ch: &mut EventChannel, event: AppEvent) -> (sent: bool)
    ensures
        sent == (queued_events(*old(ch)).len() < 3),
        sent ==> queued_events(*final(ch)) == queued_events(*old(ch)).push(event),
        !sent ==> queued_events(*final(ch)) == queued_events(*old(ch)),
{
    ch.inner.try_send(event).is_ok()
}

/// `Channel::try_receive`: the oldest message leaves and is returned; an
/// empty channel gives nothing and stays empty.
#[verifier::external_body]
fn channel_try_receive(ch: &mut EventChannel) -> (event: Option<AppEvent>)
    ensures
        queued_events(*old(ch)).len() == 0 ==> event.is_none() && queued_events(*final(ch)) == queued_events(
            *old(ch),
        ),
        queued_events(*old(ch)).len() > 0 ==> event == Some(queued_events(*old(ch))[0]) && queued_events(
            *final(ch),
        ) == queued_events(*old(ch)).subrange(1, queued_events(*old(ch)).len() as int),
{
    ch.inner.try_receive().ok()
}

/// What a queue holds after a producer offered `event` to one holding `queue`:
/// a full queue drops the newcomer.
pub open spec fn offer(queue: Seq<AppEvent>, event: AppEvent) -> Seq<AppEvent> {
    if queue.len() < QUEUE_CAPACITY {
        queue.push(event)
    } else {
        queue
    }
}

/// The bounded queue between the stack's callbacks, which produce, and the
/// event loop, which consumes. Producers never wait.
pub struct EventQueue {
    channel: EventChannel,
}

impl View for EventQueue {
    type V = Seq<AppEvent>;

    closed spec fn view(&self) -> Seq<AppEvent> {
        queued_events(self.channel)
    }
}

impl EventQueue {
    /// The queue never holds more than its capacity.
    pub open spec fn wf(&self) -> bool {
        self@.len() <= QUEUE_CAPACITY
    }

    pub fn new() -> (queue: EventQueue)
        ensures
            queue.wf(),
            queue@ == Seq::<AppEvent>::empty(),
    {
        EventQueue { channel: channel_new() }
    }

    /// Offers `event` without waiting. Returns whether it was taken.
    pub fn try_send(&mut self, event: AppEvent) -> (sent: bool)
        requires
            old(self).wf(),
        ensures
            final(self).wf(),
            sent == (old(self)@.len() < QUEUE_CAPACITY),
            final(self)@ == offer(old(self)@, event),
    {
        channel_try_send(&mut self.channel, event)
    }

    /// Takes the oldest event, if there is one.
    pub fn try_receive(&mut self) -> (event: Option<AppEvent>)
        requires
            old(self).wf(),
        ensures
            final(self).wf(),
            old(self)@.len() == 0 ==> event.is_none() && final(self)@ == old(self)@,
            old(self)@.len() > 0 ==> event == Some(old(self)@[0]) && final(self)@ == old(self)@.subrange(
                1,
                old(self)@.len() as int,
            ),
    {
        channel_try_receive(&mut self.channel)
    }
}

} // verus!
