use crate::att::{
    ATT_ERR_ATTR_NOT_FOUND, ATT_ERR_ATTR_NOT_LONG, ATT_ERR_INVALID_VALUE_SIZE, ATT_SUCCESS, CLIENT_CHAR_CFG_UUID,
    GATT_PERMIT_READ, GATT_PERMIT_WRITE, GATT_PROP_NOTIFY, GATT_PROP_READ, GATT_PROP_WRITE, INVALID_CONNHANDLE,
};
use crate::attr_table::{
    characteristic_declaration, characteristic_value, characteristics_layout, client_config_descriptor,
    lemma_layout_push, registration_result, service_declaration, service_layout, with_handles, Attribute,
    AttributeRegistry, CharacteristicSpec, RegistrationError, ServiceTable,
};
use crate::events::{offer, EventQueue};
use crate::router::{client_config_status, fill, subscription_event, write_client_config};
use crate::subscription::{cleared, is_enabled, payload_flag, written, ConfigSlot, SubscriptionRegistry};
use vstd::prelude::*;

verus! {

pub const BLINKY_SERV_UUID: u16 = 0xFFE0;

/// The state characteristic: readable, notifying; one byte, 1 for on, 0 for off.
pub const BLINKY_DATA_UUID: u16 = 0xFFE1;

/// Reserved for configuration: writes are accepted and ignored.
pub const BLINKY_CONF_UUID: u16 = 0xFFE2;

/// The command characteristic: write-only; one byte, 1 to enable, 0 to disable.
pub const BLINKY_CMD_UUID: u16 = 0xFFE3;

/// Milliseconds between two toggles of the light while it blinks.
pub const BLINK_PERIOD_MS: u64 = 150;

/// The characteristics of the service, in table order.
pub open spec fn blinky_characteristics() -> Seq<CharacteristicSpec> {
    seq![
        CharacteristicSpec {
            uuid: BLINKY_DATA_UUID,
            permissions: GATT_PERMIT_READ,
            properties: GATT_PROP_NOTIFY | GATT_PROP_READ,
            initial_value: None,
            client_config: true,
        },
        CharacteristicSpec {
            uuid: BLINKY_CMD_UUID,
            permissions: GATT_PERMIT_WRITE,
            properties: GATT_PROP_WRITE,
            initial_value: None,
            client_config: false,
        },
    ]
}

/// The service's attributes before registration.
pub open spec fn blinky_layout() -> Seq<Attribute> {
    service_layout(BLINKY_SERV_UUID, blinky_characteristics())
}

/// The service has six attributes: its declaration; the state
/// characteristic's declaration, value and client configuration; the
/// command characteristic's declaration and value.
pub proof fn law_blinky_layout()
    ensures
        blinky_layout().len() == 6,
        blinky_layout() == seq![
            service_declaration(BLINKY_SERV_UUID),
            characteristic_declaration(blinky_characteristics()[0]),
            characteristic_value(blinky_characteristics()[0]),
            client_config_descriptor(),
            characteristic_declaration(blinky_characteristics()[1]),
            characteristic_value(blinky_characteristics()[1]),
        ],
{
    let c = blinky_characteristics();
    let none = Seq::<CharacteristicSpec>::empty();
    assert(c =~= none.push(c[0]).push(c[1]));
    lemma_layout_push(none, c[0]);
    lemma_layout_push(none.push(c[0]), c[1]);
    assert(characteristics_layout(none) =~= Seq::<Attribute>::empty());
    assert(blinky_layout() =~= seq![
        service_declaration(BLINKY_SERV_UUID),
        characteristic_declaration(c[0]),
        characteristic_value(c[0]),
        client_config_descriptor(),
        characteristic_declaration(c[1]),
        characteristic_value(c[1]),
    ]);
}

/// The byte that stands for the blinking state.
pub open spec fn state_byte(on: bool) -> u8 {
    if on {
        1
    } else {
        0
    }
}

/// The status of a read: nothing here can be read in parts, and only the
/// state characteristic can be read at all.
pub open spec fn blinky_read_status(type_uuid: u16, offset: u16) -> u8 {
    if offset > 0 {
        ATT_ERR_ATTR_NOT_LONG
    } else if type_uuid == BLINKY_DATA_UUID {
        ATT_SUCCESS
    } else {
        ATT_ERR_ATTR_NOT_FOUND
    }
}

/// The status of a write, by the attribute's type.
pub open spec fn blinky_write_status(
    slots: Seq<ConfigSlot>,
    connection: u16,
    type_uuid: u16,
    value: Seq<u8>,
    offset: u16,
) -> u8 {
    if type_uuid == BLINKY_CMD_UUID {
        if offset > 0 {
            ATT_ERR_ATTR_NOT_LONG
        } else if value.len() == 0 {
            ATT_ERR_INVALID_VALUE_SIZE
        } else {
            ATT_SUCCESS
        }
    } else if type_uuid == BLINKY_CONF_UUID {
        ATT_SUCCESS
    } else if type_uuid == CLIENT_CHAR_CFG_UUID {
        client_config_status(slots, connection, BLINKY_DATA_UUID, value, offset)
    } else {
        ATT_ERR_ATTR_NOT_FOUND
    }
}

/// The blinking state after a write: a command of 1 switches it on, a
/// command of 0 switches it off, and nothing else touches it.
pub open spec fn blinky_after_write(on: bool, type_uuid: u16, value: Seq<u8>, offset: u16) -> bool {
    if type_uuid == BLINKY_CMD_UUID && offset == 0 && value.len() > 0 && value[0] == 1 {
        true
    } else if type_uuid == BLINKY_CMD_UUID && offset == 0 && value.len() > 0 && value[0] == 0 {
        false
    } else {
        on
    }
}

/// The control service of the blinking light.
pub struct BlinkyService {
    on: bool,
    table: ServiceTable,
}

impl BlinkyService {
    /// Whether the light blinks.
    pub closed spec fn on(&self) -> bool {
        self.on
    }

    /// The service's attribute table.
    pub closed spec fn table(&self) -> ServiceTable {
        self.table
    }

    /// The table is registered and is the service's layout with its handles.
    pub open spec fn wf(&self) -> bool {
        &&& self.table().wf()
        &&& self.table().is_registered()
        &&& self.table()@ == with_handles(blinky_layout(), self.table().first_handle() as int)
    }

    /// The handle of the state characteristic's value, under which its
    /// notifications go out: the third attribute of the table.
    pub fn data_handle(&self) -> (handle: u16)
        requires
            self.wf(),
        ensures
            handle == self.table().first_handle() + 2,
            handle != 0,
    {
        proof {
            law_blinky_layout();
        }
        match self.table.get(2) {
            Some(attribute) => attribute.handle,
            None => 0,
        }
    }

    pub fn is_on(&self) -> (on: bool)
        ensures
            on == self.on(),
    {
        self.on
    }

    pub fn attributes(&self) -> (table: &ServiceTable)
        ensures
            *table == self.table(),
    {
        &self.table
    }

    /// Handles a read of `attribute` by `connection`, starting at `offset`.
    /// On success `out` holds the value; otherwise it is left alone.
    pub fn on_read(&self, connection: u16, attribute: &Attribute, out: &mut Vec<u8>, offset: u16) -> (status: u8)
        ensures
            status == blinky_read_status(attribute.type_uuid, offset),
            status == ATT_SUCCESS ==> final(out)@ == seq![state_byte(self.on())],
            status != ATT_SUCCESS ==> final(out)@ == old(out)@,
    {
        if offset > 0 {
            return ATT_ERR_ATTR_NOT_LONG;
        }
        if attribute.type_uuid == BLINKY_DATA_UUID {
            let value: [u8; 1] = [if self.on {
                1
            } else {
                0
            }];
            fill(out, value.as_slice());
            assert(out@ =~= seq![state_byte(self.on())]);
            ATT_SUCCESS
        } else {
            ATT_ERR_ATTR_NOT_FOUND
        }
    }

    /// Handles a write of `value` to `attribute` by `connection`, starting at `offset`.
    ///
    /// A command switches the light; a write to the client configuration
    /// descriptor goes to the subscription registry and, if accepted, is
    /// announced on the queue. A rejected write changes nothing.
    pub fn on_write(
        &mut self,
        connection: u16,
        attribute: &Attribute,
        value: &[u8],
        offset: u16,
        registry: &mut SubscriptionRegistry,
        queue: &mut EventQueue,
    ) -> (status: u8)
        requires
            old(registry).wf(),
            old(queue).wf(),
        ensures
            final(registry).wf(),
            final(queue).wf(),
            final(self).table() == old(self).table(),
            status == blinky_write_status(old(registry)@, connection, attribute.type_uuid, value@, offset),
            final(self).on() == blinky_after_write(old(self).on(), attribute.type_uuid, value@, offset),
            status == ATT_SUCCESS && attribute.type_uuid == CLIENT_CHAR_CFG_UUID ==> final(registry)@ == written(
                old(registry)@,
                connection,
                BLINKY_DATA_UUID,
                payload_flag(value@).unwrap(),
            ) && final(queue)@ == offer(
                old(queue)@,
                subscription_event(connection, BLINKY_DATA_UUID, payload_flag(value@).unwrap()),
            ),
            status == ATT_SUCCESS && attribute.type_uuid == CLIENT_CHAR_CFG_UUID ==> is_enabled(
                final(registry)@,
                connection,
                BLINKY_DATA_UUID,
            ) == payload_flag(value@).unwrap(),
            !(status == ATT_SUCCESS && attribute.type_uuid == CLIENT_CHAR_CFG_UUID) ==> final(registry)@ == old(registry)@ && final(queue)@ == old(queue)@,
    {
        let uuid = attribute.type_uuid;
        if uuid == BLINKY_CMD_UUID {
            if offset > 0 {
                return ATT_ERR_ATTR_NOT_LONG;
            }
            if value.len() == 0 {
                return ATT_ERR_INVALID_VALUE_SIZE;
            }
            let command = value[0];
            if command == 1 {
                self.on = true;
            } else if command == 0 {
                self.on = false;
            }
            ATT_SUCCESS
        } else if uuid == BLINKY_CONF_UUID {
            ATT_SUCCESS
        } else if uuid == CLIENT_CHAR_CFG_UUID {
            write_client_config(registry, queue, connection, BLINKY_DATA_UUID, value, offset)
        } else {
            ATT_ERR_ATTR_NOT_FOUND
        }
    }

    /// The payload of a notification of the state characteristic: the state
    /// byte, then a zero byte.
    pub fn notification_payload(&self) -> (payload: [u8; 2])
        ensures
            payload@ == seq![state_byte(self.on()), 0u8],
    {
        let payload: [u8; 2] = [if self.on {
            1
        } else {
            0
        }, 0];
        assert(payload@ =~= seq![state_byte(self.on()), 0u8]);
        payload
    }
}

/// Sets the service up: frees every client configuration slot, builds the
/// attribute table and registers it. The light starts switched on.
pub fn blinky_init(attributes: &mut AttributeRegistry, subscriptions: &mut SubscriptionRegistry) -> (result: Result<
    BlinkyService,
    RegistrationError,
>)
    requires
        old(attributes).wf(),
        old(subscriptions).wf(),
    ensures
        final(attributes).wf(),
        final(subscriptions).wf(),
        final(subscriptions)@ == cleared(old(subscriptions)@, INVALID_CONNHANDLE),
        result is Ok <==> old(attributes).next_handle() + 6 <= 0x1_0000,
        result matches Err(e) ==> e == RegistrationError::OutOfHandles,
        match result {
            Ok(service) => {
                &&& registration_result(blinky_layout(), false, old(attributes).next_handle()) is Ok
                &&& service.wf()
                &&& service.on()
                &&& service.table()@ == with_handles(blinky_layout(), old(attributes).next_handle())
                &&& service.table().first_handle() == old(attributes).next_handle()
                &&& final(attributes).next_handle() == old(attributes).next_handle() + blinky_layout().len()
            },
            Err(e) => {
                &&& registration_result(blinky_layout(), false, old(attributes).next_handle()) == Err::<
                    (),
                    RegistrationError,
                >(e)
                &&& final(attributes).next_handle() == old(attributes).next_handle()
            },
        },
{
    proof {
        law_blinky_layout();
    }
    subscriptions.init(INVALID_CONNHANDLE);
    let mut characteristics: Vec<CharacteristicSpec> = Vec::new();
    characteristics.push(
        CharacteristicSpec {
            uuid: BLINKY_DATA_UUID,
            permissions: GATT_PERMIT_READ,
            properties: GATT_PROP_NOTIFY | GATT_PROP_READ,
            initial_value: None,
            client_config: true,
        },
    );
    characteristics.push(
        CharacteristicSpec {
            uuid: BLINKY_CMD_UUID,
            permissions: GATT_PERMIT_WRITE,
            properties: GATT_PROP_WRITE,
            initial_value: None,
            client_config: false,
        },
    );
    assert(characteristics@ =~= blinky_characteristics());
    let mut table = ServiceTable::build(BLINKY_SERV_UUID, &characteristics);
    match attributes.register_service(&mut table) {
        Ok(()) => Ok(BlinkyService { on: true, table }),
        Err(e) => Err(e),
    }
}

} // verus!
