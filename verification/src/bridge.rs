use crate::events::{AppEvent, EventQueue};
use crate::gap_role::{gap_announcement, GapEvent, GapRoleState};
use crate::subscription::{cleared, is_enabled, ConfigSlot, SubscriptionRegistry};
use vstd::prelude::*;

verus! {

/// Microseconds between two runs of the stack's own processing. The stack
/// keeps its timing only if it is driven this often.
pub const STACK_PUMP_PERIOD_US: u64 = 300;

/// Milliseconds to wait after a connection before asking for new connection parameters.
pub const CONNECT_GRACE_MS: u32 = 1000;

/// Desired minimum connection interval, in units of 1.25 ms.
pub const DEFAULT_DESIRED_MIN_CONN_INTERVAL: u16 = 20;

/// Desired maximum connection interval, in units of 1.25 ms.
pub const DEFAULT_DESIRED_MAX_CONN_INTERVAL: u16 = 160;

/// Desired slave latency.
pub const DEFAULT_DESIRED_SLAVE_LATENCY: u16 = 1;

/// Desired supervision timeout, in units of 10 ms.
pub const DEFAULT_DESIRED_CONN_TIMEOUT: u16 = 1000;

/// A message of the protocol stack, by category.
#[derive(Clone, Copy, Debug, PartialEq, Eq, Structural)]
pub enum StackMessage {
    /// A scan request from a scanner.
    GapScanRequest,
    /// The link changed its PHY.
    GapPhyUpdate,
    /// The link changed its connection parameters.
    GapLinkParamUpdate,
    /// Any other GAP message, with its opcode.
    GapOther(u8),
    /// A GATT message, with its method.
    Gatt(u8),
    /// A message of another category, with its identifier.
    Other(u8),
}

/// Identifier of the stack's GAP messages.
pub const GAP_MSG_EVENT: u8 = 0xD0;

/// Identifier of the stack's GATT messages.
pub const GATT_MSG_EVENT: u8 = 0xB0;

/// Opcodes of the GAP messages that get a log line of their own.
pub const GAP_LINK_PARAM_UPDATE_EVENT: u8 = 0x07;

pub const GAP_PHY_UPDATE_EVENT: u8 = 0x11;

pub const GAP_SCAN_REQUEST_EVENT: u8 = 0x19;

/// The category of a message of the stack, from its identifier and from
/// the byte that follows its header: the opcode of a GAP message, the
/// method of a GATT message.
pub open spec fn message_category(message_id: u8, detail: u8) -> StackMessage {
    if message_id == GAP_MSG_EVENT {
        if detail == GAP_SCAN_REQUEST_EVENT {
            StackMessage::GapScanRequest
        } else if detail == GAP_PHY_UPDATE_EVENT {
            StackMessage::GapPhyUpdate
        } else if detail == GAP_LINK_PARAM_UPDATE_EVENT {
            StackMessage::GapLinkParamUpdate
        } else {
            StackMessage::GapOther(detail)
        }
    } else if message_id == GATT_MSG_EVENT {
        StackMessage::Gatt(detail)
    } else {
        StackMessage::Other(message_id)
    }
}

/// Sorts a message of the stack into its category.
pub fn classify_stack_message(message_id: u8, detail: u8) -> (message: StackMessage)
    ensures
        message == message_category(message_id, detail),
{
    if message_id == GAP_MSG_EVENT {
        if detail == GAP_SCAN_REQUEST_EVENT {
            StackMessage::GapScanRequest
        } else if detail == GAP_PHY_UPDATE_EVENT {
            StackMessage::GapPhyUpdate
        } else if detail == GAP_LINK_PARAM_UPDATE_EVENT {
            StackMessage::GapLinkParamUpdate
        } else {
            StackMessage::GapOther(detail)
        }
    } else if message_id == GATT_MSG_EVENT {
        StackMessage::Gatt(detail)
    } else {
        StackMessage::Other(message_id)
    }
}

/// The one event that an iteration of the event loop handles.
#[derive(Clone, Copy, Debug, PartialEq, Eq, Structural)]
pub enum BridgeInput {
    Stack(StackMessage),
    App(AppEvent),
}

/// The pair that a notifier serves.
#[derive(Clone, Copy, Debug, PartialEq, Eq, Structural)]
pub struct NotifierKey {
    pub connection: u16,
    pub characteristic: u16,
}

/// What the event loop is to do after an event.
#[derive(Clone, Copy, Debug, PartialEq, Eq, Structural)]
pub enum BridgeAction {
    /// Nothing.
    Nothing,
    /// Log the stack's message.
    Log(StackMessage),
    /// Wait `delay_ms`, then ask the central for these connection parameters.
    RequestConnParams {
        connection: u16,
        delay_ms: u32,
        min_interval: u16,
        max_interval: u16,
        latency: u16,
        timeout: u16,
    },
    /// Start a notifier for the pair.
    SpawnNotifier { connection: u16, characteristic: u16 },
    /// Pass the unsubscription on to the notifier of the pair, which ends.
    StopNotifier { connection: u16, characteristic: u16 },
    /// Pass the disconnect on to the notifiers of the connection, which end.
    StopNotifiers { connection: u16 },
}

/// The notifiers that run after `input`, given those that ran before it.
pub open spec fn active_after(active: Set<NotifierKey>, input: BridgeInput) -> Set<NotifierKey> {
    match input {
        BridgeInput::App(AppEvent::Subscribed(connection, characteristic)) => active.insert(
            NotifierKey { connection, characteristic },
        ),
        BridgeInput::App(AppEvent::Unsubscribed(connection, characteristic)) => active.remove(
            NotifierKey { connection, characteristic },
        ),
        BridgeInput::App(AppEvent::Disconnected(connection)) => Set::new(
            |k: NotifierKey| active.contains(k) && k.connection != connection,
        ),
        _ => active,
    }
}

/// The registry's slots after `input`: a disconnect frees the connection's slots.
pub open spec fn slots_after(slots: Seq<ConfigSlot>, input: BridgeInput) -> Seq<ConfigSlot> {
    match input {
        BridgeInput::App(AppEvent::Disconnected(connection)) => cleared(slots, connection),
        _ => slots,
    }
}

/// What the event loop is to do after `input`.
pub open spec fn bridge_action(active: Set<NotifierKey>, input: BridgeInput) -> BridgeAction {
    match input {
        BridgeInput::Stack(message) => BridgeAction::Log(message),
        BridgeInput::App(AppEvent::Connected(connection)) => BridgeAction::RequestConnParams {
            connection,
            delay_ms: CONNECT_GRACE_MS,
            min_interval: DEFAULT_DESIRED_MIN_CONN_INTERVAL,
            max_interval: DEFAULT_DESIRED_MAX_CONN_INTERVAL,
            latency: DEFAULT_DESIRED_SLAVE_LATENCY,
            timeout: DEFAULT_DESIRED_CONN_TIMEOUT,
        },
        BridgeInput::App(AppEvent::Disconnected(connection)) => BridgeAction::StopNotifiers { connection },
        BridgeInput::App(AppEvent::Subscribed(connection, characteristic)) => if active.contains(
            NotifierKey { connection, characteristic },
        ) {
            BridgeAction::Nothing
        } else {
            BridgeAction::SpawnNotifier { connection, characteristic }
        },
        BridgeInput::App(AppEvent::Unsubscribed(connection, characteristic)) => if active.contains(
            NotifierKey { connection, characteristic },
        ) {
            BridgeAction::StopNotifier { connection, characteristic }
        } else {
            BridgeAction::Nothing
        },
    }
}

/// The event loop's own state: which notifiers run.
pub struct EventBridge {
    notifiers: Vec<NotifierKey>,
}

impl EventBridge {
    /// The pairs whose notifier runs.
    pub closed spec fn active(&self) -> Set<NotifierKey> {
        self.notifiers@.to_set()
    }

    /// No pair is listed twice: there is one notifier per pair.
    pub closed spec fn wf(&self) -> bool {
        self.notifiers@.no_duplicates()
    }

    /// A loop with no notifier.
    pub fn new() -> (bridge: EventBridge)
        ensures
            bridge.wf(),
            bridge.active() == Set::<NotifierKey>::empty(),
    {
        let bridge = EventBridge { notifiers: Vec::new() };
        assert(bridge.notifiers@.to_set() =~= Set::<NotifierKey>::empty());
        bridge
    }

    /// Whether the notifier of the pair runs.
    pub fn is_active(&self, connection: u16, characteristic: u16) -> (yes: bool)
        ensures
            yes == self.active().contains(NotifierKey { connection, characteristic }),
    {
        let key = NotifierKey { connection, characteristic };
        let mut i: usize = 0;
        while i < self.notifiers.len()
            invariant
                i <= self.notifiers@.len(),
                key == (NotifierKey { connection, characteristic }),
                forall|j: int| 0 <= j < i ==> self.notifiers@[j] != key,
            decreases self.notifiers@.len() - i,
        {
            let k = self.notifiers[i];
            if k.connection == connection && k.characteristic == characteristic {
                assert(self.notifiers@[i as int] == key);
                return true;
            }
            i = i + 1;
        }
        false
    }

    /// Number of notifiers that run.
    pub fn notifier_count(&self) -> (n: usize)
        requires
            self.wf(),
        ensures
            self.active().finite(),
            n == self.active().len(),
    {
        proof {
            self.notifiers@.unique_seq_to_set();
        }
        self.notifiers.len()
    }

    fn retire(&mut self, connection: u16, characteristic: Option<u16>)
        requires
            old(self).wf(),
        ensures
            final(self).wf(),
            final(self).active() == match characteristic {
                Some(h) => old(self).active().remove(NotifierKey { connection, characteristic: h }),
                None => Set::new(|k: NotifierKey| old(self).active().contains(k) && k.connection != connection),
            },
    {
        let ghost before = self.notifiers@;
        let mut kept: Vec<NotifierKey> = Vec::new();
        let mut i: usize = 0;
        while i < self.notifiers.len()
            invariant
                i <= self.notifiers@.len(),
                self.notifiers@ == before,
                before.no_duplicates(),
                kept@.no_duplicates(),
                forall|k: NotifierKey| #[trigger]
                    kept@.contains(k) <==> (exists|j: int| 0 <= j < i && before[j] == k) && !leaves(
                        k,
                        connection,
                        characteristic,
                    ),
            decreases self.notifiers@.len() - i,
        {
            let k = self.notifiers[i];
            let goes = match characteristic {
                Some(h) => k.connection == connection && k.characteristic == h,
                None => k.connection == connection,
            };
            let ghost kept_before = kept@;
            if !goes {
                proof {
                    if kept_before.contains(k) {
                        let j = choose|j: int| 0 <= j < i && before[j] == k;
                        assert(before[j] == before[i as int]);
                    }
                }
                kept.push(k);
                assert(kept@.last() == k);
                assert(kept@.drop_last() =~= kept_before);
            }
            proof {
                assert forall|x: NotifierKey| #[trigger]
                    kept@.contains(x) <==> (exists|j: int| 0 <= j < i + 1 && before[j] == x) && !leaves(
                        x,
                        connection,
                        characteristic,
                    ) by {
                    if kept@.contains(x) {
                        let m = choose|m: int| 0 <= m < kept@.len() && kept@[m] == x;
                        if !goes && m == kept@.len() - 1 {
                            assert(before[i as int] == x);
                        } else {
                            assert(kept_before[m] == x);
                            assert(kept_before.contains(x));
                            let j = choose|j: int| 0 <= j < i && before[j] == x;
                            assert(0 <= j < i + 1 && before[j] == x);
                        }
                    }
                    if (exists|j: int| 0 <= j < i + 1 && before[j] == x) && !leaves(x, connection, characteristic) {
                        let j = choose|j: int| 0 <= j < i + 1 && before[j] == x;
                        if j < i {
                            assert(kept_before.contains(x));
                            let m = choose|m: int| 0 <= m < kept_before.len() && kept_before[m] == x;
                            assert(kept@[m] == x);
                        } else {
                            assert(x == k);
                            assert(kept@[kept@.len() - 1] == x);
                        }
                    }
                }
            }
            i = i + 1;
        }
        self.notifiers = kept;
        proof {
            let target = match characteristic {
                Some(h) => before.to_set().remove(NotifierKey { connection, characteristic: h }),
                None => Set::new(|k: NotifierKey| before.to_set().contains(k) && k.connection != connection),
            };
            assert forall|x: NotifierKey| self.notifiers@.to_set().contains(x) <==> target.contains(x) by {
                if self.notifiers@.contains(x) {
                    let j = choose|j: int| 0 <= j < before.len() && before[j] == x;
                    assert(before.contains(x));
                }
                if target.contains(x) {
                    assert(before.contains(x));
                    let j = choose|j: int| 0 <= j < before.len() && before[j] == x;
                    assert(0 <= j < i && before[j] == x);
                }
            }
            assert(self.notifiers@.to_set() =~= target);
        }
    }

    /// Handles one event, from the stack or from the queue.
    ///
    /// A connection is answered by a request for the preferred connection
    /// parameters after a grace delay; a disconnect frees the connection's
    /// client configuration and ends its notifiers; a subscription starts
    /// the pair's notifier unless it runs already; an unsubscription ends
    /// it. Messages of the stack are logged and change nothing.
    pub fn step(&mut self, input: BridgeInput, registry: &mut SubscriptionRegistry) -> (action: BridgeAction)
        requires
            old(self).wf(),
            old(registry).wf(),
        ensures
            final(self).wf(),
            final(registry).wf(),
            action == bridge_action(old(self).active(), input),
            final(self).active() == active_after(old(self).active(), input),
            final(registry)@ == slots_after(old(registry)@, input),
    {
        match input {
            BridgeInput::Stack(message) => BridgeAction::Log(message),
            BridgeInput::App(AppEvent::Connected(connection)) => BridgeAction::RequestConnParams {
                connection,
                delay_ms: CONNECT_GRACE_MS,
                min_interval: DEFAULT_DESIRED_MIN_CONN_INTERVAL,
                max_interval: DEFAULT_DESIRED_MAX_CONN_INTERVAL,
                latency: DEFAULT_DESIRED_SLAVE_LATENCY,
                timeout: DEFAULT_DESIRED_CONN_TIMEOUT,
            },
            BridgeInput::App(AppEvent::Disconnected(connection)) => {
                registry.init(connection);
                self.retire(connection, None);
                BridgeAction::StopNotifiers { connection }
            },
            BridgeInput::App(AppEvent::Subscribed(connection, characteristic)) => {
                if self.is_active(connection, characteristic) {
                    assert(self.active().insert(NotifierKey { connection, characteristic }) =~= self.active());
                    BridgeAction::Nothing
                } else {
                    let ghost before = self.notifiers@;
                    let key = NotifierKey { connection, characteristic };
                    self.notifiers.push(key);
                    proof {
                        assert(!before.contains(key));
                        assert(self.notifiers@ =~= before.push(key));
                        assert forall|x: NotifierKey|
                            self.notifiers@.to_set().contains(x) <==> before.to_set().insert(key).contains(x) by {
                            if self.notifiers@.contains(x) {
                                let m = choose|m: int| 0 <= m < self.notifiers@.len() && self.notifiers@[m] == x;
                                if m < before.len() {
                                    assert(before[m] == x);
                                    assert(before.contains(x));
                                }
                            }
                            if before.contains(x) {
                                let m = choose|m: int| 0 <= m < before.len() && before[m] == x;
                                assert(self.notifiers@[m] == x);
                            }
                            if x == key {
                                assert(self.notifiers@[before.len() as int] == x);
                            }
                        }
                        assert(self.notifiers@.to_set() =~= before.to_set().insert(key));
                    }
                    BridgeAction::SpawnNotifier { connection, characteristic }
                }
            },
            BridgeInput::App(AppEvent::Unsubscribed(connection, characteristic)) => {
                let active = self.is_active(connection, characteristic);
                self.retire(connection, Some(characteristic));
                if active {
                    BridgeAction::StopNotifier { connection, characteristic }
                } else {
                    BridgeAction::Nothing
                }
            },
        }
    }

    /// Takes the oldest event off the queue, if there is one, and handles it.
    pub fn pump(&mut self, queue: &mut EventQueue, registry: &mut SubscriptionRegistry) -> (action: Option<
        BridgeAction,
    >)
        requires
            old(self).wf(),
            old(queue).wf(),
            old(registry).wf(),
        ensures
            final(self).wf(),
            final(queue).wf(),
            final(registry).wf(),
            old(queue)@.len() == 0 ==> action.is_none() && final(queue)@ == old(queue)@ && final(self).active()
                == old(self).active() && final(registry)@ == old(registry)@,
            old(queue)@.len() > 0 ==> {
                let input = BridgeInput::App(old(queue)@[0]);
                &&& action == Some(bridge_action(old(self).active(), input))
                &&& final(self).active() == active_after(old(self).active(), input)
                &&& final(registry)@ == slots_after(old(registry)@, input)
                &&& final(queue)@ == old(queue)@.subrange(1, old(queue)@.len() as int)
            },
    {
        match queue.try_receive() {
            Some(event) => Some(self.step(BridgeInput::App(event), registry)),
            None => None,
        }
    }
}

/// Whether a notifier's pair is among those that an ending event names:
/// one pair, or every pair of a connection.
pub open spec fn leaves(k: NotifierKey, connection: u16, characteristic: Option<u16>) -> bool {
    match characteristic {
        Some(h) => k.connection == connection && k.characteristic == h,
        None => k.connection == connection,
    }
}

/// A subscription for a pair whose notifier runs already starts no second
/// one: nothing is asked of the loop and the set of notifiers stays as it is.
pub proof fn law_no_duplicate_notifier(active: Set<NotifierKey>, connection: u16, characteristic: u16)
    requires
        active.contains(NotifierKey { connection, characteristic }),
    ensures
        bridge_action(active, BridgeInput::App(AppEvent::Subscribed(connection, characteristic)))
            == BridgeAction::Nothing,
        active_after(active, BridgeInput::App(AppEvent::Subscribed(connection, characteristic))) == active,
{
    assert(active.insert(NotifierKey { connection, characteristic }) =~= active);
}

/// After a disconnect nothing is left of the connection: none of its
/// characteristics is enabled and none of its notifiers runs, so that the
/// next link may reuse the handle.
pub proof fn law_disconnect_leaves_nothing(
    slots: Seq<ConfigSlot>,
    active: Set<NotifierKey>,
    connection: u16,
    characteristic: u16,
)
    ensures
        !is_enabled(
            slots_after(slots, BridgeInput::App(AppEvent::Disconnected(connection))),
            connection,
            characteristic,
        ),
        !active_after(active, BridgeInput::App(AppEvent::Disconnected(connection))).contains(
            NotifierKey { connection, characteristic },
        ),
{
}

/// When the link is lost, whatever state follows, the role announces the
/// disconnect of the handle it held, and the loop's answer to that
/// announcement leaves none of the handle's characteristics enabled.
pub proof fn law_link_loss_resets(
    new: GapRoleState,
    event: GapEvent,
    held: u16,
    slots: Seq<ConfigSlot>,
    characteristic: u16,
)
    requires
        new != GapRoleState::Connected,
    ensures
        gap_announcement(GapRoleState::Connected, new, event, held) == Some(
            AppEvent::Disconnected(held),
        ),
        !is_enabled(
            slots_after(slots, BridgeInput::App(AppEvent::Disconnected(held))),
            held,
            characteristic,
        ),
{
}

/// A subscription for a pair without a notifier starts exactly one, and
/// after it the pair has a notifier whatever came before.
pub proof fn law_subscription_spawns_once(active: Set<NotifierKey>, connection: u16, characteristic: u16)
    ensures
        !active.contains(NotifierKey { connection, characteristic }) ==> bridge_action(
            active,
            BridgeInput::App(AppEvent::Subscribed(connection, characteristic)),
        ) == (BridgeAction::SpawnNotifier { connection, characteristic }),
        active_after(active, BridgeInput::App(AppEvent::Subscribed(connection, characteristic))).contains(
            NotifierKey { connection, characteristic },
        ),
{
}

} // verus!
