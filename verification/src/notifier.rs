use crate::events::AppEvent;
use crate::subscription::{is_enabled, ConfigSlot, SubscriptionRegistry};
use vstd::prelude::*;

verus! {

/// Milliseconds between two ticks of a notifier.
pub const NOTIFY_PERIOD_MS: u32 = 1000;

/// What wakes a notifier: its periodic tick, or an event from the queue.
#[derive(Clone, Copy, Debug, PartialEq, Eq, Structural)]
pub enum NotifierInput {
    Tick,
    Event(AppEvent),
}

/// What a notifier does when woken.
#[derive(Clone, Copy, Debug, PartialEq, Eq, Structural)]
pub enum NotifierAction {
    /// Nothing; wait for the next tick or event.
    Wait,
    /// Push the current value of the characteristic to the connection.
    Notify { connection: u16, characteristic: u16 },
    /// The task is over.
    Stop,
}

/// Whether `event` ends the notifier of `connection` and `characteristic`:
/// the connection is gone, or it unsubscribed from the characteristic.
pub open spec fn ends_notifier(connection: u16, characteristic: u16, event: AppEvent) -> bool {
    match event {
        AppEvent::Disconnected(c) => c == connection,
        AppEvent::Unsubscribed(c, h) => c == connection && h == characteristic,
        _ => false,
    }
}

/// Whether a notifier is stopped after `input`. Only an ending event stops
/// it, and nothing starts it again.
pub open spec fn stopped_after(stopped: bool, connection: u16, characteristic: u16, input: NotifierInput) -> bool {
    stopped || match input {
        NotifierInput::Tick => false,
        NotifierInput::Event(event) => ends_notifier(connection, characteristic, event),
    }
}

/// What a notifier does on `input` when the registry holds `slots`.
pub open spec fn notifier_action(
    stopped: bool,
    connection: u16,
    characteristic: u16,
    slots: Seq<ConfigSlot>,
    input: NotifierInput,
) -> NotifierAction {
    if stopped_after(stopped, connection, characteristic, input) {
        NotifierAction::Stop
    } else if input is Tick && is_enabled(slots, connection, characteristic) {
        NotifierAction::Notify { connection, characteristic }
    } else {
        NotifierAction::Wait
    }
}

/// The task that pushes one characteristic's value to one connection.
pub struct Notifier {
    connection: u16,
    characteristic: u16,
    stopped: bool,
}

impl Notifier {
    pub closed spec fn connection(&self) -> u16 {
        self.connection
    }

    pub closed spec fn characteristic(&self) -> u16 {
        self.characteristic
    }

    pub closed spec fn stopped(&self) -> bool {
        self.stopped
    }

    /// A running notifier for `connection` and `characteristic`.
    pub fn new(connection: u16, characteristic: u16) -> (notifier: Notifier)
        ensures
            notifier.connection() == connection,
            notifier.characteristic() == characteristic,
            !notifier.stopped(),
    {
        Notifier { connection, characteristic, stopped: false }
    }

    pub fn is_stopped(&self) -> (stopped: bool)
        ensures
            stopped == self.stopped(),
    {
        self.stopped
    }

    /// Reacts to one tick or event. On a tick the subscription is looked up
    /// again, so that a notifier started on stale news stays silent.
    pub fn step(&mut self, input: NotifierInput, registry: &SubscriptionRegistry) -> (action: NotifierAction)
        requires
            registry.wf(),
        ensures
            final(self).connection() == old(self).connection(),
            final(self).characteristic() == old(self).characteristic(),
            final(self).stopped() == stopped_after(
                old(self).stopped(),
                old(self).connection(),
                old(self).characteristic(),
                input,
            ),
            action == notifier_action(
                old(self).stopped(),
                old(self).connection(),
                old(self).characteristic(),
                registry@,
                input,
            ),
    {
        if self.stopped {
            return NotifierAction::Stop;
        }
        match input {
            NotifierInput::Tick => {
                if registry.read(self.connection, self.characteristic) {
                    NotifierAction::Notify { connection: self.connection, characteristic: self.characteristic }
                } else {
                    NotifierAction::Wait
                }
            },
            NotifierInput::Event(event) => {
                let ends = match event {
                    AppEvent::Disconnected(c) => c == self.connection,
                    AppEvent::Unsubscribed(c, h) => c == self.connection && h == self.characteristic,
                    _ => false,
                };
                if ends {
                    self.stopped = true;
                    NotifierAction::Stop
                } else {
                    NotifierAction::Wait
                }
            },
        }
    }
}

/// A notifier that received the disconnect of its connection, or the
/// unsubscription from its characteristic, is stopped at once, and a stopped
/// notifier answers every later tick by stopping: it never notifies again.
pub proof fn law_ended_notifier_is_silent(
    stopped: bool,
    connection: u16,
    characteristic: u16,
    event: AppEvent,
    slots: Seq<ConfigSlot>,
    later: NotifierInput,
)
    requires
        ends_notifier(connection, characteristic, event),
    ensures
        notifier_action(stopped, connection, characteristic, slots, NotifierInput::Event(event))
            == NotifierAction::Stop,
        stopped_after(stopped, connection, characteristic, NotifierInput::Event(event)),
        notifier_action(true, connection, characteristic, slots, later) == NotifierAction::Stop,
        stopped_after(true, connection, characteristic, later),
{
}

/// A running notifier is stopped by nothing but an ending event: no tick,
/// whatever the registry says, and no other event stops it.
pub proof fn law_only_ending_events_stop(
    connection: u16,
    characteristic: u16,
    slots: Seq<ConfigSlot>,
    input: NotifierInput,
)
    ensures
        stopped_after(false, connection, characteristic, input) <==> (input matches NotifierInput::Event(event)
            && ends_notifier(connection, characteristic, event)),
        notifier_action(false, connection, characteristic, slots, NotifierInput::Tick) != NotifierAction::Stop,
{
}

} // verus!
