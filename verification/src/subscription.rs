use crate::att::{
    ATT_ERR_INSUFFICIENT_RESOURCES, ATT_ERR_INVALID_VALUE, ATT_ERR_INVALID_VALUE_SIZE, ATT_SUCCESS,
    INVALID_CONNHANDLE,
};
use vstd::prelude::*;

verus! {

/// One client configuration slot: whether one connection has enabled
/// notifications for one characteristic.
#[derive(Clone, Copy, Debug, PartialEq, Eq, Structural)]
pub struct ConfigSlot {
    pub used: bool,
    pub connection: u16,
    pub characteristic: u16,
    pub enabled: bool,
}

/// Slots kept for each subscribable characteristic: one per connection that
/// the stack can hold.
pub const SLOTS_PER_CHARACTERISTIC: usize = 4;

/// The slot that belongs to nobody.
pub open spec fn free_slot() -> ConfigSlot {
    ConfigSlot { used: false, connection: INVALID_CONNHANDLE, characteristic: 0, enabled: false }
}

/// The slot is taken by `connection` for `characteristic`.
pub open spec fn slot_matches(slot: ConfigSlot, connection: u16, characteristic: u16) -> bool {
    slot.used && slot.connection == connection && slot.characteristic == characteristic
}

/// Some slot is taken by `connection` for `characteristic`.
pub open spec fn holds(slots: Seq<ConfigSlot>, connection: u16, characteristic: u16) -> bool {
    exists|i: int| 0 <= i < slots.len() && slot_matches(#[trigger] slots[i], connection, characteristic)
}

/// `connection` has notifications enabled for `characteristic`.
pub open spec fn is_enabled(slots: Seq<ConfigSlot>, connection: u16, characteristic: u16) -> bool {
    exists|i: int|
        0 <= i < slots.len() && slot_matches(#[trigger] slots[i], connection, characteristic)
            && slots[i].enabled
}

/// Some slot is free.
pub open spec fn has_free(slots: Seq<ConfigSlot>) -> bool {
    exists|i: int| 0 <= i < slots.len() && !(#[trigger] slots[i]).used
}

/// The slots after `connection` let go of them. The invalid handle stands
/// for every connection: it frees the whole table.
pub open spec fn cleared(slots: Seq<ConfigSlot>, connection: u16) -> Seq<ConfigSlot> {
    Seq::new(
        slots.len(),
        |i: int|
            if connection == INVALID_CONNHANDLE || (slots[i].used && slots[i].connection
                == connection) {
                free_slot()
            } else {
                slots[i]
            },
    )
}

/// The 16-bit value that a two-byte payload encodes, low byte first.
pub open spec fn payload_value(payload: Seq<u8>) -> int
    recommends
        payload.len() == 2,
{
    payload[0] as int + 256 * (payload[1] as int)
}

/// The configuration that a write payload asks for, if it is one of the two
/// accepted encodings: exactly two bytes whose value is 0 (disable) or 1
/// (enable).
pub open spec fn payload_flag(payload: Seq<u8>) -> Option<bool> {
    if payload.len() == 2 && payload_value(payload) == 0 {
        Some(false)
    } else if payload.len() == 2 && payload_value(payload) == 1 {
        Some(true)
    } else {
        None
    }
}

/// The status with which a configuration write ends.
pub open spec fn write_status(
    slots: Seq<ConfigSlot>,
    connection: u16,
    characteristic: u16,
    payload: Seq<u8>,
) -> u8 {
    if payload.len() != 2 {
        ATT_ERR_INVALID_VALUE_SIZE
    } else if payload_flag(payload).is_none() {
        ATT_ERR_INVALID_VALUE
    } else if !holds(slots, connection, characteristic) && !has_free(slots) {
        ATT_ERR_INSUFFICIENT_RESOURCES
    } else {
        ATT_SUCCESS
    }
}

/// Where an accepted write lands: the slot that the pair already holds, or
/// else the first free one.
pub open spec fn is_target(slots: Seq<ConfigSlot>, connection: u16, characteristic: u16, i: int) -> bool {
    0 <= i < slots.len() && (slot_matches(slots[i], connection, characteristic) || (!holds(
        slots,
        connection,
        characteristic,
    ) && !slots[i].used && forall|j: int| 0 <= j < i ==> (#[trigger] slots[j]).used))
}

/// The index of the slot where an accepted write lands.
pub open spec fn target_slot(slots: Seq<ConfigSlot>, connection: u16, characteristic: u16) -> int {
    choose|i: int| is_target(slots, connection, characteristic, i)
}

/// The slots after an accepted write by `connection` for `characteristic`.
pub open spec fn written(
    slots: Seq<ConfigSlot>,
    connection: u16,
    characteristic: u16,
    enabled: bool,
) -> Seq<ConfigSlot> {
    slots.update(
        target_slot(slots, connection, characteristic),
        ConfigSlot { used: true, connection, characteristic, enabled },
    )
}

/// No pair of connection and characteristic holds two slots, and a free slot
/// carries nothing.
pub open spec fn slots_wf(slots: Seq<ConfigSlot>) -> bool {
    &&& forall|i: int| 0 <= i < slots.len() && !(#[trigger] slots[i]).used ==> slots[i] == free_slot()
    &&& forall|i: int, j: int|
        0 <= i < j < slots.len() && (#[trigger] slots[i]).used && (#[trigger] slots[j]).used ==> !(
        slots[i].connection == slots[j].connection && slots[i].characteristic
            == slots[j].characteristic)
}

/// The table of client configuration slots of all subscribable characteristics.
pub struct SubscriptionRegistry {
    slots: Vec<ConfigSlot>,
}

impl View for SubscriptionRegistry {
    type V = Seq<ConfigSlot>;

    closed spec fn view(&self) -> Seq<ConfigSlot> {
        self.slots@
    }
}

impl SubscriptionRegistry {
    pub open spec fn wf(&self) -> bool {
        slots_wf(self@)
    }

    /// A registry of `capacity` slots, all free.
    pub fn new(capacity: usize) -> (registry: SubscriptionRegistry)
        ensures
            registry.wf(),
            registry@ == Seq::new(capacity as nat, |i: int| free_slot()),
    {
        let mut slots: Vec<ConfigSlot> = Vec::new();
        let mut n: usize = 0;
        while n < capacity
            invariant
                n <= capacity,
                slots@ == Seq::new(n as nat, |i: int| free_slot()),
            decreases capacity - n,
        {
            slots.push(
                ConfigSlot { used: false, connection: INVALID_CONNHANDLE, characteristic: 0, enabled: false },
            );
            n = n + 1;
            assert(slots@ =~= Seq::new(n as nat, |i: int| free_slot()));
        }
        SubscriptionRegistry { slots }
    }

    /// Number of slots, taken or free.
    pub fn capacity(&self) -> (n: usize)
        ensures
            n == self@.len(),
    {
        self.slots.len()
    }

    fn find(&self, connection: u16, characteristic: u16) -> (found: Option<usize>)
        ensures
            match found {
                Some(i) => i < self@.len() && slot_matches(self@[i as int], connection, characteristic),
                None => !holds(self@, connection, characteristic),
            },
    {
        let mut i: usize = 0;
        while i < self.slots.len()
            invariant
                i <= self.slots@.len(),
                forall|j: int| 0 <= j < i ==> !slot_matches(#[trigger] self.slots@[j], connection, characteristic),
            decreases self.slots@.len() - i,
        {
            let slot = self.slots[i];
            if slot.used && slot.connection == connection && slot.characteristic == characteristic {
                return Some(i);
            }
            i = i + 1;
        }
        None
    }

    fn find_free(&self) -> (found: Option<usize>)
        ensures
            match found {
                Some(i) => i < self@.len() && !self@[i as int].used && forall|j: int|
                    0 <= j < i ==> (#[trigger] self@[j]).used,
                None => !has_free(self@),
            },
    {
        let mut i: usize = 0;
        while i < self.slots.len()
            invariant
                i <= self.slots@.len(),
                forall|j: int| 0 <= j < i ==> (#[trigger] self.slots@[j]).used,
            decreases self.slots@.len() - i,
        {
            if !self.slots[i].used {
                return Some(i);
            }
            i = i + 1;
        }
        None
    }

    /// Lets `connection` go: each of its slots becomes free. With the invalid
    /// handle, every slot becomes free.
    pub fn init(&mut self, connection: u16)
        requires
            old(self).wf(),
        ensures
            final(self).wf(),
            final(self)@ == cleared(old(self)@, connection),
            forall|characteristic: u16| !is_enabled(final(self)@, connection, characteristic),
    {
        let ghost before = self.slots@;
        let mut i: usize = 0;
        while i < self.slots.len()
            invariant
                i <= self.slots@.len(),
                self.slots@.len() == before.len(),
                forall|j: int| 0 <= j < i ==> #[trigger] self.slots@[j] == cleared(before, connection)[j],
                forall|j: int| i <= j < before.len() ==> #[trigger] self.slots@[j] == before[j],
            decreases self.slots@.len() - i,
        {
            let slot = self.slots[i];
            if connection == INVALID_CONNHANDLE || (slot.used && slot.connection == connection) {
                self.slots.set(
                    i,
                    ConfigSlot {
                        used: false,
                        connection: INVALID_CONNHANDLE,
                        characteristic: 0,
                        enabled: false,
                    },
                );
            }
            i = i + 1;
        }
        proof {
            assert(self.slots@ =~= cleared(before, connection));
            lemma_cleared(before, connection);
        }
    }

    /// Whether `connection` has notifications enabled for `characteristic`.
    pub fn read(&self, connection: u16, characteristic: u16) -> (enabled: bool)
        requires
            self.wf(),
        ensures
            enabled == is_enabled(self@, connection, characteristic),
    {
        match self.find(connection, characteristic) {
            Some(i) => {
                let slot = self.slots[i];
                proof {
                    if is_enabled(self@, connection, characteristic) {
                        let k = choose|k: int|
                            0 <= k < self@.len() && slot_matches(#[trigger] self@[k], connection, characteristic)
                                && self@[k].enabled;
                        assert(k == i);
                    }
                }
                slot.enabled
            },
            None => false,
        }
    }

    /// Handles a write of `payload` to the client configuration of
    /// `characteristic` by `connection`.
    ///
    /// Only the two-byte little-endian encodings of 0 (disable) and 1 (enable)
    /// are accepted. A rejected write leaves every slot as it was.
    pub fn write(&mut self, connection: u16, characteristic: u16, payload: &[u8]) -> (status: u8)
        requires
            old(self).wf(),
        ensures
            final(self).wf(),
            status == write_status(old(self)@, connection, characteristic, payload@),
            payload_flag(payload@) is None ==> status != ATT_SUCCESS,
            status != ATT_SUCCESS ==> final(self)@ == old(self)@,
            status == ATT_SUCCESS ==> final(self)@ == written(
                old(self)@,
                connection,
                characteristic,
                payload_flag(payload@).unwrap(),
            ),
            status == ATT_SUCCESS ==> is_enabled(final(self)@, connection, characteristic) == payload_flag(
                payload@,
            ).unwrap(),
            status == ATT_SUCCESS ==> forall|c: u16, h: u16|
                !(c == connection && h == characteristic) ==> is_enabled(final(self)@, c, h) == is_enabled(
                    old(self)@,
                    c,
                    h,
                ),
    {
        if payload.len() != 2 {
            return ATT_ERR_INVALID_VALUE_SIZE;
        }
        if payload[1] != 0 || payload[0] > 1 {
            return ATT_ERR_INVALID_VALUE;
        }
        assert(payload_value(payload@) == payload@[0]);
        let enabled = payload[0] == 1;
        let target = match self.find(connection, characteristic) {
            Some(i) => Some(i),
            None => self.find_free(),
        };
        match target {
            None => ATT_ERR_INSUFFICIENT_RESOURCES,
            Some(i) => {
                let ghost before = self.slots@;
                let slot = ConfigSlot { used: true, connection, characteristic, enabled };
                assert(is_target(before, connection, characteristic, i as int));
                self.slots.set(i, slot);
                proof {
                    lemma_target_unique(
                        before,
                        connection,
                        characteristic,
                        i as int,
                        target_slot(before, connection, characteristic),
                    );
                    lemma_stored(before, connection, characteristic, i as int, enabled);
                }
                ATT_SUCCESS
            },
        }
    }
}

/// After a connection let go, none of its characteristics is enabled, the
/// other connections keep what they had, and the table is still well formed.
pub proof fn lemma_cleared(slots: Seq<ConfigSlot>, connection: u16)
    requires
        slots_wf(slots),
    ensures
        slots_wf(cleared(slots, connection)),
        forall|characteristic: u16| !is_enabled(cleared(slots, connection), connection, characteristic),
        forall|characteristic: u16| !holds(cleared(slots, connection), connection, characteristic),
        forall|c: u16, h: u16|
            c != connection && connection != INVALID_CONNHANDLE ==> is_enabled(cleared(slots, connection), c, h)
                == is_enabled(slots, c, h),
{
    let after = cleared(slots, connection);
    assert forall|c: u16, h: u16|
        c != connection && connection != INVALID_CONNHANDLE implies is_enabled(after, c, h) == is_enabled(
        slots,
        c,
        h,
    ) by {
        if is_enabled(slots, c, h) {
            let k = choose|k: int|
                0 <= k < slots.len() && slot_matches(#[trigger] slots[k], c, h) && slots[k].enabled;
            assert(slot_matches(after[k], c, h) && after[k].enabled);
        }
        if is_enabled(after, c, h) {
            let k = choose|k: int|
                0 <= k < after.len() && slot_matches(#[trigger] after[k], c, h) && after[k].enabled;
            assert(slot_matches(slots[k], c, h) && slots[k].enabled);
        }
    }
}

/// An accepted write has exactly one slot to land in.
pub proof fn lemma_target_unique(slots: Seq<ConfigSlot>, connection: u16, characteristic: u16, i: int, j: int)
    requires
        slots_wf(slots),
        is_target(slots, connection, characteristic, i),
    ensures
        is_target(slots, connection, characteristic, target_slot(slots, connection, characteristic)),
        is_target(slots, connection, characteristic, j) ==> i == j,
{
    if is_target(slots, connection, characteristic, j) && i != j {
        if slot_matches(slots[i], connection, characteristic) {
            assert(holds(slots, connection, characteristic));
            assert(slot_matches(slots[j], connection, characteristic));
        } else if slot_matches(slots[j], connection, characteristic) {
            assert(holds(slots, connection, characteristic));
        } else if i < j {
            assert(slots[i].used);
        } else {
            assert(slots[j].used);
        }
    }
}

/// Below a free slot there is a first free slot.
proof fn lemma_first_free(slots: Seq<ConfigSlot>, n: int)
    requires
        0 <= n < slots.len(),
        !slots[n].used,
    ensures
        exists|i: int|
            0 <= i <= n && !(#[trigger] slots[i]).used && forall|j: int| 0 <= j < i ==> (#[trigger] slots[j]).used,
    decreases n,
{
    if forall|j: int| 0 <= j < n ==> (#[trigger] slots[j]).used {
        assert(!slots[n].used);
    } else {
        let j = choose|j: int| 0 <= j < n && !(#[trigger] slots[j]).used;
        lemma_first_free(slots, j);
    }
}

/// A write has a slot to land in whenever the pair holds one already or one is free.
pub proof fn lemma_target_exists(slots: Seq<ConfigSlot>, connection: u16, characteristic: u16)
    requires
        holds(slots, connection, characteristic) || has_free(slots),
    ensures
        is_target(slots, connection, characteristic, target_slot(slots, connection, characteristic)),
{
    if holds(slots, connection, characteristic) {
        let k = choose|k: int| 0 <= k < slots.len() && slot_matches(#[trigger] slots[k], connection, characteristic);
        assert(is_target(slots, connection, characteristic, k));
    } else {
        let n = choose|n: int| 0 <= n < slots.len() && !(#[trigger] slots[n]).used;
        lemma_first_free(slots, n);
        let i = choose|i: int|
            0 <= i <= n && !(#[trigger] slots[i]).used && forall|j: int| 0 <= j < i ==> (#[trigger] slots[j]).used;
        assert(is_target(slots, connection, characteristic, i));
    }
}

/// A write whose payload is not exactly two bytes, or whose two bytes encode
/// anything but 0 or 1, is rejected.
pub proof fn law_malformed_write_rejected(
    slots: Seq<ConfigSlot>,
    connection: u16,
    characteristic: u16,
    payload: Seq<u8>,
)
    requires
        payload.len() != 2 || !(payload_value(payload) == 0 || payload_value(payload) == 1),
    ensures
        write_status(slots, connection, characteristic, payload) != ATT_SUCCESS,
        payload.len() != 2 ==> write_status(slots, connection, characteristic, payload)
            == ATT_ERR_INVALID_VALUE_SIZE,
{
}

/// Writing the bytes 01 00 and then reading gives "enabled"; writing 00 00
/// and then reading gives "disabled". Both writes are accepted whenever the
/// pair already holds a slot or a slot is free.
pub proof fn law_write_then_read(slots: Seq<ConfigSlot>, connection: u16, characteristic: u16)
    requires
        slots_wf(slots),
        holds(slots, connection, characteristic) || has_free(slots),
    ensures
        write_status(slots, connection, characteristic, seq![1u8, 0u8]) == ATT_SUCCESS,
        payload_flag(seq![1u8, 0u8]) == Some(true),
        is_enabled(written(slots, connection, characteristic, true), connection, characteristic),
        write_status(slots, connection, characteristic, seq![0u8, 0u8]) == ATT_SUCCESS,
        payload_flag(seq![0u8, 0u8]) == Some(false),
        !is_enabled(written(slots, connection, characteristic, false), connection, characteristic),
{
    lemma_target_exists(slots, connection, characteristic);
    let i = target_slot(slots, connection, characteristic);
    lemma_stored(slots, connection, characteristic, i, true);
    lemma_stored(slots, connection, characteristic, i, false);
}

/// Whatever a connection had enabled, nothing is enabled for it once it let go.
pub proof fn law_disconnect_resets(slots: Seq<ConfigSlot>, connection: u16, characteristic: u16)
    ensures
        !is_enabled(cleared(slots, connection), connection, characteristic),
{
}

/// What an accepted write does to the subscriptions: the written pair has
/// the written value, and every other pair keeps its own.
pub proof fn lemma_stored(slots: Seq<ConfigSlot>, connection: u16, characteristic: u16, i: int, enabled: bool)
    requires
        slots_wf(slots),
        is_target(slots, connection, characteristic, i),
    ensures
        ({
            let after = slots.update(i, (ConfigSlot { used: true, connection, characteristic, enabled }));
            &&& slots_wf(after)
            &&& holds(after, connection, characteristic)
            &&& is_enabled(after, connection, characteristic) == enabled
            &&& forall|c: u16, h: u16|
                !(c == connection && h == characteristic) ==> is_enabled(after, c, h) == is_enabled(slots, c, h)
            &&& forall|c: u16, h: u16|
                !(c == connection && h == characteristic) ==> holds(after, c, h) == holds(slots, c, h)
        }),
{
    let slot = ConfigSlot { used: true, connection, characteristic, enabled };
    let after = slots.update(i, slot);
    assert(slot_matches(after[i], connection, characteristic));
    assert forall|a: int, b: int|
        0 <= a < b < after.len() && (#[trigger] after[a]).used && (#[trigger] after[b]).used implies !(
    after[a].connection == after[b].connection && after[a].characteristic == after[b].characteristic) by {
        if a == i {
            if slot_matches(slots[b], connection, characteristic) {
                assert(slots[i].used);
            }
        } else if b == i {
            if slot_matches(slots[a], connection, characteristic) {
                assert(slots[i].used);
            }
        }
    }
    if is_enabled(after, connection, characteristic) {
        let k = choose|k: int|
            0 <= k < after.len() && slot_matches(#[trigger] after[k], connection, characteristic)
                && after[k].enabled;
        assert(after[k].used && after[i].used);
        assert(k == i);
    }
    assert forall|c: u16, h: u16| !(c == connection && h == characteristic) implies is_enabled(after, c, h)
        == is_enabled(slots, c, h) by {
        if is_enabled(slots, c, h) {
            let k = choose|k: int|
                0 <= k < slots.len() && slot_matches(#[trigger] slots[k], c, h) && slots[k].enabled;
            assert(k != i);
            assert(slot_matches(after[k], c, h) && after[k].enabled);
        }
        if is_enabled(after, c, h) {
            let k = choose|k: int|
                0 <= k < after.len() && slot_matches(#[trigger] after[k], c, h) && after[k].enabled;
            assert(slot_matches(slots[k], c, h) && slots[k].enabled);
        }
    }
    assert forall|c: u16, h: u16| !(c == connection && h == characteristic) implies holds(after, c, h) == holds(
        slots,
        c,
        h,
    ) by {
        if holds(slots, c, h) {
            let k = choose|k: int| 0 <= k < slots.len() && slot_matches(#[trigger] slots[k], c, h);
            assert(k != i);
            assert(slot_matches(after[k], c, h));
        }
        if holds(after, c, h) {
            let k = choose|k: int| 0 <= k < after.len() && slot_matches(#[trigger] after[k], c, h);
            assert(slot_matches(slots[k], c, h));
        }
    }
}

} // verus!
