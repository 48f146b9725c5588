use crate::att::{
    ATT_ERR_ATTR_NOT_FOUND, ATT_ERR_ATTR_NOT_LONG, ATT_ERR_INVALID_VALUE_SIZE, ATT_SUCCESS, CLIENT_CHAR_CFG_UUID,
    GATT_PERMIT_READ, GATT_PERMIT_WRITE, GATT_PROP_NOTIFY, GATT_PROP_READ, GATT_PROP_WRITE, INVALID_CONNHANDLE,
};
use crate::attr_table::{
    characteristic_declaration, characteristic_value, characteristics_layout, client_config_descriptor,
    lemma_layout_push, registration_result, service_declaration, service_layout, with_handles, Attribute,
    AttributeRegistry, CharacteristicSpec, RegistrationError, ServiceTable,
};
use crate::current_time::{clock_setting, decode, default_time, encode, seen_on_clock, CurrentTime, DateTime};
use crate::events::{offer, EventQueue};
use crate::router::{client_config_status, fill, subscription_event, write_client_config};
use crate::subscription::{cleared, is_enabled, payload_flag, written, ConfigSlot, SubscriptionRegistry};
use vstd::prelude::*;

verus! {

pub const CURRENT_TIME_SERV_UUID: u16 = 0x1805;

/// The Current Time characteristic: readable, writable, notifying; ten bytes.
pub const CURRENT_TIME_UUID: u16 = 0x2A2B;

/// The one characteristic of the service.
pub open spec fn current_time_characteristics() -> Seq<CharacteristicSpec> {
    seq![
        CharacteristicSpec {
            uuid: CURRENT_TIME_UUID,
            permissions: GATT_PERMIT_READ | GATT_PERMIT_WRITE,
            properties: GATT_PROP_READ | GATT_PROP_WRITE | GATT_PROP_NOTIFY,
            initial_value: None,
            client_config: true,
        },
    ]
}

/// The service's attributes before registration.
pub open spec fn current_time_layout() -> Seq<Attribute> {
    service_layout(CURRENT_TIME_SERV_UUID, current_time_characteristics())
}

/// The service has four attributes: its declaration, and the
/// characteristic's declaration, value and client configuration.
pub proof fn law_current_time_layout()
    ensures
        current_time_layout().len() == 4,
        current_time_layout() == seq![
            service_declaration(CURRENT_TIME_SERV_UUID),
            characteristic_declaration(current_time_characteristics()[0]),
            characteristic_value(current_time_characteristics()[0]),
            client_config_descriptor(),
        ],
{
    let c = current_time_characteristics();
    let none = Seq::<CharacteristicSpec>::empty();
    assert(c =~= none.push(c[0]));
    lemma_layout_push(none, c[0]);
    assert(characteristics_layout(none) =~= Seq::<Attribute>::empty());
    assert(current_time_layout() =~= seq![
        service_declaration(CURRENT_TIME_SERV_UUID),
        characteristic_declaration(c[0]),
        characteristic_value(c[0]),
        client_config_descriptor(),
    ]);
}

/// The status of a read: nothing here can be read in parts, and only the
/// time itself can be read.
pub open spec fn time_read_status(type_uuid: u16, offset: u16) -> u8 {
    if offset > 0 {
        ATT_ERR_ATTR_NOT_LONG
    } else if type_uuid == CURRENT_TIME_UUID {
        ATT_SUCCESS
    } else {
        ATT_ERR_ATTR_NOT_FOUND
    }
}

/// The status of a write. A time of fewer than ten bytes has the wrong
/// size; so, to the central, has every configuration write that the
/// registry turns down.
pub open spec fn time_write_status(
    slots: Seq<ConfigSlot>,
    connection: u16,
    type_uuid: u16,
    value: Seq<u8>,
    offset: u16,
) -> u8 {
    if offset > 0 {
        ATT_ERR_ATTR_NOT_LONG
    } else if type_uuid == CURRENT_TIME_UUID {
        if value.len() < 10 {
            ATT_ERR_INVALID_VALUE_SIZE
        } else {
            ATT_SUCCESS
        }
    } else if type_uuid == CLIENT_CHAR_CFG_UUID {
        if client_config_status(slots, connection, CURRENT_TIME_UUID, value, offset) == ATT_SUCCESS {
            ATT_SUCCESS
        } else {
            ATT_ERR_INVALID_VALUE_SIZE
        }
    } else {
        ATT_ERR_ATTR_NOT_FOUND
    }
}

/// Whether a write sets the clock.
pub open spec fn sets_clock(type_uuid: u16, value: Seq<u8>, offset: u16) -> bool {
    offset == 0 && type_uuid == CURRENT_TIME_UUID && value.len() >= 10
}

/// The Current Time service. It keeps the calendar as the device's clock
/// last gave it or as a central last set it.
pub struct CurrentTimeService {
    clock: DateTime,
    value: CurrentTime,
    table: ServiceTable,
}

impl CurrentTimeService {
    /// The calendar as the service knows it.
    pub closed spec fn clock(&self) -> DateTime {
        self.clock
    }

    /// The time last reported from the clock.
    pub closed spec fn value(&self) -> CurrentTime {
        self.value
    }

    /// The service's attribute table.
    pub closed spec fn table(&self) -> ServiceTable {
        self.table
    }

    /// The table is registered and is the service's layout with its handles.
    pub open spec fn wf(&self) -> bool {
        &&& self.table().wf()
        &&& self.table().is_registered()
        &&& self.table()@ == with_handles(current_time_layout(), self.table().first_handle() as int)
    }

    /// The handle of the time's value, under which its notifications go
    /// out: the third attribute of the table.
    pub fn time_handle(&self) -> (handle: u16)
        requires
            self.wf(),
        ensures
            handle == self.table().first_handle() + 2,
            handle != 0,
    {
        proof {
            law_current_time_layout();
        }
        match self.table.get(2) {
            Some(attribute) => attribute.handle,
            None => 0,
        }
    }

    pub fn attributes(&self) -> (table: &ServiceTable)
        ensures
            *table == self.table(),
    {
        &self.table
    }

    pub fn get_clock(&self) -> (clock: DateTime)
        ensures
            clock == self.clock(),
    {
        self.clock
    }

    /// Takes a reading `now` of the device's clock and reports it as a time.
    pub fn rtc_get_time(&mut self, now: DateTime) -> (ct: CurrentTime)
        ensures
            ct == seen_on_clock(now),
            final(self).clock() == now,
            final(self).value() == ct,
            final(self).table() == old(self).table(),
    {
        self.clock = now;
        self.value = CurrentTime::from_datetime(&now);
        self.value
    }

    /// Sets the calendar as `ct` asks and returns the setting for the
    /// device's clock.
    pub fn rtc_set_time(&mut self, ct: CurrentTime) -> (setting: DateTime)
        ensures
            setting == clock_setting(ct),
            final(self).clock() == setting,
            final(self).value() == old(self).value(),
            final(self).table() == old(self).table(),
    {
        let setting = ct.to_datetime();
        self.clock = setting;
        setting
    }

    /// Handles a read of `attribute` by `connection`, starting at `offset`.
    /// On success `out` holds the ten bytes of the calendar's time;
    /// otherwise it is left alone.
    pub fn on_read(&mut self, connection: u16, attribute: &Attribute, out: &mut Vec<u8>, offset: u16) -> (status:
        u8)
        ensures
            status == time_read_status(attribute.type_uuid, offset),
            final(self).clock() == old(self).clock(),
            final(self).table() == old(self).table(),
            status == ATT_SUCCESS ==> final(out)@ == encode(seen_on_clock(old(self).clock())) && final(self).value() == seen_on_clock(old(self).clock()),
            status != ATT_SUCCESS ==> final(out)@ == old(out)@ && final(self).value() == old(self).value(),
    {
        if offset > 0 {
            return ATT_ERR_ATTR_NOT_LONG;
        }
        if attribute.type_uuid == CURRENT_TIME_UUID {
            let now = self.clock;
            let ct = self.rtc_get_time(now);
            let bytes = ct.to_bytes();
            fill(out, bytes.as_slice());
            ATT_SUCCESS
        } else {
            ATT_ERR_ATTR_NOT_FOUND
        }
    }

    /// Handles a write of `value` to `attribute` by `connection`, starting at `offset`.
    ///
    /// A time of at least ten bytes sets the calendar; a write to the client
    /// configuration descriptor goes to the subscription registry and, if
    /// accepted, is announced on the queue. A rejected write changes nothing.
    pub fn on_write(
        &mut self,
        connection: u16,
        attribute: &Attribute,
        value: &[u8],
        offset: u16,
        registry: &mut SubscriptionRegistry,
        queue: &mut EventQueue,
    ) -> (status: u8)
        requires
            old(registry).wf(),
            old(queue).wf(),
        ensures
            final(registry).wf(),
            final(queue).wf(),
            final(self).table() == old(self).table(),
            final(self).value() == old(self).value(),
            status == time_write_status(old(registry)@, connection, attribute.type_uuid, value@, offset),
            final(self).clock() == if sets_clock(attribute.type_uuid, value@, offset) {
                clock_setting(decode(value@))
            } else {
                old(self).clock()
            },
            status == ATT_SUCCESS && attribute.type_uuid == CLIENT_CHAR_CFG_UUID ==> final(registry)@ == written(
                old(registry)@,
                connection,
                CURRENT_TIME_UUID,
                payload_flag(value@).unwrap(),
            ) && final(queue)@ == offer(
                old(queue)@,
                subscription_event(connection, CURRENT_TIME_UUID, payload_flag(value@).unwrap()),
            ),
            status == ATT_SUCCESS && attribute.type_uuid == CLIENT_CHAR_CFG_UUID ==> is_enabled(
                final(registry)@,
                connection,
                CURRENT_TIME_UUID,
            ) == payload_flag(value@).unwrap(),
            !(status == ATT_SUCCESS && attribute.type_uuid == CLIENT_CHAR_CFG_UUID) ==> final(registry)@ == old(registry)@ && final(queue)@ == old(queue)@,
    {
        if offset > 0 {
            return ATT_ERR_ATTR_NOT_LONG;
        }
        let uuid = attribute.type_uuid;
        if uuid == CURRENT_TIME_UUID {
            match CurrentTime::from_bytes(value) {
                Some(ct) => {
                    let _ = self.rtc_set_time(ct);
                    ATT_SUCCESS
                },
                None => ATT_ERR_INVALID_VALUE_SIZE,
            }
        } else if uuid == CLIENT_CHAR_CFG_UUID {
            let status = write_client_config(registry, queue, connection, CURRENT_TIME_UUID, value, offset);
            if status == ATT_SUCCESS {
                ATT_SUCCESS
            } else {
                ATT_ERR_INVALID_VALUE_SIZE
            }
        } else {
            ATT_ERR_ATTR_NOT_FOUND
        }
    }
}

/// Sets the service up: frees every client configuration slot, builds the
/// attribute table and registers it. The calendar starts at `now`.
pub fn current_time_init(
    attributes: &mut AttributeRegistry,
    subscriptions: &mut SubscriptionRegistry,
    now: DateTime,
) -> (result: Result<CurrentTimeService, RegistrationError>)
    requires
        old(attributes).wf(),
        old(subscriptions).wf(),
    ensures
        final(attributes).wf(),
        final(subscriptions).wf(),
        final(subscriptions)@ == cleared(old(subscriptions)@, INVALID_CONNHANDLE),
        result is Ok <==> old(attributes).next_handle() + 4 <= 0x1_0000,
        result matches Err(e) ==> e == RegistrationError::OutOfHandles,
        match result {
            Ok(service) => {
                &&& registration_result(current_time_layout(), false, old(attributes).next_handle()) is Ok
                &&& service.wf()
                &&& service.clock() == now
                &&& service.value() == default_time()
                &&& service.table()@ == with_handles(current_time_layout(), old(attributes).next_handle())
                &&& service.table().first_handle() == old(attributes).next_handle()
                &&& final(attributes).next_handle() == old(attributes).next_handle()
                    + current_time_layout().len()
            },
            Err(e) => {
                &&& registration_result(current_time_layout(), false, old(attributes).next_handle()) == Err::<
                    (),
                    RegistrationError,
                >(e)
                &&& final(attributes).next_handle() == old(attributes).next_handle()
            },
        },
{
    proof {
        law_current_time_layout();
    }
    subscriptions.init(INVALID_CONNHANDLE);
    let mut characteristics: Vec<CharacteristicSpec> = Vec::new();
    characteristics.push(
        CharacteristicSpec {
            uuid: CURRENT_TIME_UUID,
            permissions: GATT_PERMIT_READ | GATT_PERMIT_WRITE,
            properties: GATT_PROP_READ | GATT_PROP_WRITE | GATT_PROP_NOTIFY,
            initial_value: None,
            client_config: true,
        },
    );
    assert(characteristics@ =~= current_time_characteristics());
    let mut table = ServiceTable::build(CURRENT_TIME_SERV_UUID, &characteristics);
    match attributes.register_service(&mut table) {
        Ok(()) => Ok(CurrentTimeService { clock: now, value: CurrentTime::default(), table }),
        Err(e) => Err(e),
    }
}

} // verus!
