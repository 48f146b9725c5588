use crate::att::{ATT_ERR_ATTR_NOT_LONG, ATT_SUCCESS};
use crate::events::{offer, AppEvent, EventQueue};
use crate::subscription::{is_enabled, payload_flag, write_status, written, ConfigSlot, SubscriptionRegistry};
use vstd::prelude::*;

verus! {

/// The event that tells the event loop of an accepted configuration write.
pub open spec fn subscription_event(connection: u16, characteristic: u16, enabled: bool) -> AppEvent {
    if enabled {
        AppEvent::Subscribed(connection, characteristic)
    } else {
        AppEvent::Unsubscribed(connection, characteristic)
    }
}

/// The status of a write to a client configuration descriptor: the
/// descriptor cannot be written in parts, and the registry judges the rest.
pub open spec fn client_config_status(
    slots: Seq<ConfigSlot>,
    connection: u16,
    characteristic: u16,
    payload: Seq<u8>,
    offset: u16,
) -> u8 {
    if offset > 0 {
        ATT_ERR_ATTR_NOT_LONG
    } else {
        write_status(slots, connection, characteristic, payload)
    }
}

/// Replaces what `out` holds by `bytes`.
pub fn fill(out: &mut Vec<u8>, bytes: &[u8])
    ensures
        final(out)@ == bytes@,
{
    out.clear();
    let mut i: usize = 0;
    while i < bytes.len()
        invariant
            i <= bytes@.len(),
            out@ == bytes@.take(i as int),
        decreases bytes@.len() - i,
    {
        out.push(bytes[i]);
        assert(out@ =~= bytes@.take(i + 1));
        i = i + 1;
    }
    assert(bytes@.take(i as int) =~= bytes@);
}

/// Handles a write to the client configuration descriptor of
/// `characteristic`: the registry stores the setting, and the event loop is
/// told of it by a `Subscribed` or `Unsubscribed` event, which is dropped if
/// the queue is full. A rejected write changes nothing and tells nobody.
pub fn write_client_config(
    registry: &mut SubscriptionRegistry,
    queue: &mut EventQueue,
    connection: u16,
    characteristic: u16,
    payload: &[u8],
    offset: u16,
) -> (status: u8)
    requires
        old(registry).wf(),
        old(queue).wf(),
    ensures
        final(registry).wf(),
        final(queue).wf(),
        status == client_config_status(old(registry)@, connection, characteristic, payload@, offset),
        status != ATT_SUCCESS ==> final(registry)@ == old(registry)@ && final(queue)@ == old(queue)@,
        status == ATT_SUCCESS ==> final(registry)@ == written(
            old(registry)@,
            connection,
            characteristic,
            payload_flag(payload@).unwrap(),
        ) && final(queue)@ == offer(
            old(queue)@,
            subscription_event(connection, characteristic, payload_flag(payload@).unwrap()),
        ),
        status == ATT_SUCCESS ==> is_enabled(final(registry)@, connection, characteristic) == payload_flag(
            payload@,
        ).unwrap(),
{
    if offset > 0 {
        return ATT_ERR_ATTR_NOT_LONG;
    }
    let status = registry.write(connection, characteristic, payload);
    if status == ATT_SUCCESS {
        let event = if payload[0] == 1 {
            AppEvent::Subscribed(connection, characteristic)
        } else {
            AppEvent::Unsubscribed(connection, characteristic)
        };
        let _ = queue.try_send(event);
    }
    status
}

} // verus!
