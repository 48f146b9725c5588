use crate::att::INVALID_CONNHANDLE;
use crate::devinfo::DeviceInfoService;
use crate::events::{offer, AppEvent, EventQueue};
use vstd::prelude::*;

verus! {

/// The states in which the stack reports the peripheral role.
#[derive(Clone, Copy, Debug, PartialEq, Eq, Structural)]
pub enum GapRoleState {
    Init,
    Started,
    Advertising,
    Waiting,
    Connected,
    ConnectedAdvertising,
    Error,
    /// A state that the stack reported under a number without a name.
    Other(u32),
}

/// What the stack's message said that came with a state change.
#[derive(Clone, Copy, Debug, PartialEq, Eq, Structural)]
pub enum GapEvent {
    /// A link was established; the stack gave it this connection handle.
    LinkEstablished { connection: u16 },
    /// Any other message.
    Other,
}

/// The numbers under which the stack reports the role's states.
pub const GAPROLE_INIT: u32 = 0;

pub const GAPROLE_STARTED: u32 = 1;

pub const GAPROLE_ADVERTISING: u32 = 2;

pub const GAPROLE_WAITING: u32 = 3;

pub const GAPROLE_CONNECTED: u32 = 4;

pub const GAPROLE_CONNECTED_ADV: u32 = 5;

pub const GAPROLE_ERROR: u32 = 6;

/// Opcode of the stack's message that a link was established.
pub const GAP_LINK_ESTABLISHED_EVENT: u8 = 0x05;

/// The state that the stack reports under the number `raw`.
pub open spec fn state_of_raw(raw: u32) -> GapRoleState {
    if raw == GAPROLE_INIT {
        GapRoleState::Init
    } else if raw == GAPROLE_STARTED {
        GapRoleState::Started
    } else if raw == GAPROLE_ADVERTISING {
        GapRoleState::Advertising
    } else if raw == GAPROLE_WAITING {
        GapRoleState::Waiting
    } else if raw == GAPROLE_CONNECTED {
        GapRoleState::Connected
    } else if raw == GAPROLE_CONNECTED_ADV {
        GapRoleState::ConnectedAdvertising
    } else if raw == GAPROLE_ERROR {
        GapRoleState::Error
    } else {
        GapRoleState::Other(raw)
    }
}

/// What a message of the stack with this opcode and connection handle says.
pub open spec fn event_of_message(opcode: u8, connection: u16) -> GapEvent {
    if opcode == GAP_LINK_ESTABLISHED_EVENT {
        GapEvent::LinkEstablished { connection }
    } else {
        GapEvent::Other
    }
}

impl GapRoleState {
    /// The state that the stack reports under the number `raw`.
    pub fn from_raw(raw: u32) -> (state: GapRoleState)
        ensures
            state == state_of_raw(raw),
    {
        if raw == GAPROLE_INIT {
            GapRoleState::Init
        } else if raw == GAPROLE_STARTED {
            GapRoleState::Started
        } else if raw == GAPROLE_ADVERTISING {
            GapRoleState::Advertising
        } else if raw == GAPROLE_WAITING {
            GapRoleState::Waiting
        } else if raw == GAPROLE_CONNECTED {
            GapRoleState::Connected
        } else if raw == GAPROLE_CONNECTED_ADV {
            GapRoleState::ConnectedAdvertising
        } else if raw == GAPROLE_ERROR {
            GapRoleState::Error
        } else {
            GapRoleState::Other(raw)
        }
    }
}

impl GapEvent {
    /// What a message of the stack says, from its opcode and from the
    /// connection handle it carries; the handle counts only where the
    /// message is that a link was established.
    pub fn from_message(opcode: u8, connection: u16) -> (event: GapEvent)
        ensures
            event == event_of_message(opcode, connection),
    {
        if opcode == GAP_LINK_ESTABLISHED_EVENT {
            GapEvent::LinkEstablished { connection }
        } else {
            GapEvent::Other
        }
    }
}

/// What the state machine asks of the stack after a state change.
#[derive(Clone, Copy, Debug, PartialEq, Eq, Structural)]
pub enum GapReaction {
    /// Nothing.
    Idle,
    /// Set both bounds of the advertising interval to `interval` and the
    /// advertising duration to `duration`, then enable advertising.
    Advertise { interval: u16, duration: u16 },
    /// The state has no rule; it is worth a log line and nothing else.
    Unhandled,
}

/// Advertising interval after a link loss, in units of 625 us.
pub const FAST_ADV_INTERVAL: u16 = 32;

/// How long fast advertising lasts, in milliseconds.
pub const FAST_ADV_DURATION: u16 = 30000;

/// Advertising interval once fast advertising timed out, in units of 625 us.
pub const SLOW_ADV_INTERVAL: u16 = 1600;

/// Slow advertising does not time out.
pub const SLOW_ADV_DURATION: u16 = 0;

/// The 8-byte system identifier of a 6-byte device address: the upper three
/// address bytes move to the end and two zero bytes fill the middle.
pub open spec fn derive_system_id(address: Seq<u8>) -> Seq<u8>
    recommends
        address.len() == 6,
{
    seq![address[0], address[1], address[2], 0u8, 0u8, address[3], address[4], address[5]]
}

/// What the stack is asked to do when the role goes from `last` to `new`.
/// `interval` is the advertising interval in force.
pub open spec fn gap_reaction(last: GapRoleState, new: GapRoleState, interval: u16) -> GapReaction {
    if new == GapRoleState::Connected {
        GapReaction::Idle
    } else if last == GapRoleState::Connected {
        GapReaction::Advertise { interval: FAST_ADV_INTERVAL, duration: FAST_ADV_DURATION }
    } else if new == GapRoleState::Waiting && last == GapRoleState::Advertising {
        if interval == FAST_ADV_INTERVAL {
            GapReaction::Advertise { interval: SLOW_ADV_INTERVAL, duration: SLOW_ADV_DURATION }
        } else {
            GapReaction::Idle
        }
    } else if new == GapRoleState::Started || new == GapRoleState::Advertising {
        GapReaction::Idle
    } else {
        GapReaction::Unhandled
    }
}

/// The event that a state change announces to the event loop, if any.
/// `held` is the connection handle remembered from the last link.
pub open spec fn gap_announcement(
    last: GapRoleState,
    new: GapRoleState,
    event: GapEvent,
    held: u16,
) -> Option<AppEvent> {
    if new == GapRoleState::Connected {
        match event {
            GapEvent::LinkEstablished { connection } => Some(AppEvent::Connected(connection)),
            GapEvent::Other => None,
        }
    } else if last == GapRoleState::Connected {
        Some(AppEvent::Disconnected(held))
    } else {
        None
    }
}

/// The connection handle remembered after a state change.
pub open spec fn gap_connection(new: GapRoleState, event: GapEvent, held: u16) -> u16 {
    match event {
        GapEvent::LinkEstablished { connection } => if new == GapRoleState::Connected {
            connection
        } else {
            held
        },
        GapEvent::Other => held,
    }
}

/// Whether a state change captures the device address.
pub open spec fn captures_address(last: GapRoleState, new: GapRoleState) -> bool {
    new == GapRoleState::Started && last != GapRoleState::Connected
}

/// The peripheral role as this device follows it: the state last observed
/// and the handle of the last link.
pub struct GapRole {
    last_state: GapRoleState,
    connection: u16,
}

impl GapRole {
    pub closed spec fn last_state(&self) -> GapRoleState {
        self.last_state
    }

    pub closed spec fn connection(&self) -> u16 {
        self.connection
    }

    /// The role before the stack reported anything.
    pub fn new() -> (role: GapRole)
        ensures
            role.last_state() == GapRoleState::Init,
            role.connection() == INVALID_CONNHANDLE,
    {
        GapRole { last_state: GapRoleState::Init, connection: INVALID_CONNHANDLE }
    }

    pub fn get_last_state(&self) -> (state: GapRoleState)
        ensures
            state == self.last_state(),
    {
        self.last_state
    }

    pub fn get_connection(&self) -> (connection: u16)
        ensures
            connection == self.connection(),
    {
        self.connection
    }

    /// Reacts to the stack's report that the role is now in `new_state`.
    ///
    /// `interval` is the advertising interval in force and `address` the
    /// device's public address, both as the stack gives them at this moment.
    /// On start the system identifier derived from the address is published
    /// through `info`. Events for the event loop are offered to `queue` and
    /// dropped if it is full.
    pub fn on_state_change(
        &mut self,
        new_state: GapRoleState,
        event: GapEvent,
        interval: u16,
        address: &[u8; 6],
        info: &mut DeviceInfoService,
        queue: &mut EventQueue,
    ) -> (reaction: GapReaction)
        requires
            old(queue).wf(),
        ensures
            final(queue).wf(),
            final(info).table() == old(info).table(),
            reaction == gap_reaction(old(self).last_state(), new_state, interval),
            final(queue)@ == match gap_announcement(
                old(self).last_state(),
                new_state,
                event,
                old(self).connection(),
            ) {
                Some(announced) => offer(old(queue)@, announced),
                None => old(queue)@,
            },
            final(self).last_state() == new_state,
            final(self).connection() == gap_connection(new_state, event, old(self).connection()),
            final(info).system_id() == if captures_address(old(self).last_state(), new_state) {
                derive_system_id(address@)
            } else {
                old(info).system_id()
            },
    {
        let last = self.last_state;
        self.last_state = new_state;
        if new_state == GapRoleState::Connected {
            match event {
                GapEvent::LinkEstablished { connection } => {
                    self.connection = connection;
                    let _ = queue.try_send(AppEvent::Connected(connection));
                },
                GapEvent::Other => {},
            }
            GapReaction::Idle
        } else if last == GapRoleState::Connected {
            let _ = queue.try_send(AppEvent::Disconnected(self.connection));
            GapReaction::Advertise { interval: FAST_ADV_INTERVAL, duration: FAST_ADV_DURATION }
        } else if new_state == GapRoleState::Waiting && last == GapRoleState::Advertising {
            if interval == FAST_ADV_INTERVAL {
                GapReaction::Advertise { interval: SLOW_ADV_INTERVAL, duration: SLOW_ADV_DURATION }
            } else {
                GapReaction::Idle
            }
        } else if new_state == GapRoleState::Started {
            info.set_system_id(system_id_of(address));
            GapReaction::Idle
        } else if new_state == GapRoleState::Advertising {
            GapReaction::Idle
        } else {
            GapReaction::Unhandled
        }
    }
}

/// The system identifier that goes with a device address.
pub fn system_id_of(address: &[u8; 6]) -> (id: [u8; 8])
    ensures
        id@ == derive_system_id(address@),
{
    let id: [u8; 8] = [address[0], address[1], address[2], 0, 0, address[3], address[4], address[5]];
    assert(id@ =~= derive_system_id(address@));
    id
}

/// A link-established message seen on entering the connected state puts
/// exactly one `Connected` event, with the message's handle, at the back of
/// a queue that has room; and whatever the queue held stays in front of it.
pub proof fn law_link_established_announced(
    last: GapRoleState,
    connection: u16,
    held: u16,
    queue: Seq<AppEvent>,
)
    requires
        queue.len() < crate::events::QUEUE_CAPACITY,
    ensures
        gap_announcement(last, GapRoleState::Connected, GapEvent::LinkEstablished { connection }, held) == Some(
            AppEvent::Connected(connection),
        ),
        offer(queue, AppEvent::Connected(connection)) == queue.push(AppEvent::Connected(connection)),
        gap_connection(GapRoleState::Connected, GapEvent::LinkEstablished { connection }, held) == connection,
{
}

} // verus!
