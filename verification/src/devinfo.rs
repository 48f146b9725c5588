use crate::att::{ATT_ERR_ATTR_NOT_FOUND, ATT_ERR_ATTR_NOT_LONG, ATT_SUCCESS, GATT_PERMIT_READ, GATT_PROP_READ};
use crate::attr_table::{
    characteristic_declaration, characteristic_value, characteristics_layout, lemma_layout_push,
    registration_result, service_declaration, service_layout, with_handles, Attribute, AttributeRegistry,
    CharacteristicSpec, RegistrationError, ServiceTable,
};
use crate::router::fill;
use vstd::prelude::*;

verus! {

pub const DEVINFO_SERV_UUID: u16 = 0x180A;

pub const SYSTEM_ID_UUID: u16 = 0x2A23;

pub const SERIAL_NUMBER_UUID: u16 = 0x2A25;

pub const TEMP_UUID: u16 = 0x2A6E;

/// Length of the system identifier in bytes.
pub const DEVINFO_SYSTEM_ID_LEN: usize = 8;

/// The temperature reported, in hundredths of a degree Celsius.
pub const MOCK_TEMPERATURE: i16 = 3200;

/// The three read-only characteristics, in table order. Only the system
/// identifier has a stored value.
pub open spec fn devinfo_characteristics() -> Seq<CharacteristicSpec> {
    seq![
        CharacteristicSpec {
            uuid: SYSTEM_ID_UUID,
            permissions: GATT_PERMIT_READ,
            properties: GATT_PROP_READ,
            initial_value: Some(0u16),
            client_config: false,
        },
        CharacteristicSpec {
            uuid: SERIAL_NUMBER_UUID,
            permissions: GATT_PERMIT_READ,
            properties: GATT_PROP_READ,
            initial_value: None,
            client_config: false,
        },
        CharacteristicSpec {
            uuid: TEMP_UUID,
            permissions: GATT_PERMIT_READ,
            properties: GATT_PROP_READ,
            initial_value: None,
            client_config: false,
        },
    ]
}

/// The service's attributes before registration.
pub open spec fn devinfo_layout() -> Seq<Attribute> {
    service_layout(DEVINFO_SERV_UUID, devinfo_characteristics())
}

/// The service has seven attributes: its declaration, and the declaration
/// and value of each of the three characteristics.
pub proof fn law_devinfo_layout()
    ensures
        devinfo_layout().len() == 7,
        devinfo_layout() == seq![
            service_declaration(DEVINFO_SERV_UUID),
            characteristic_declaration(devinfo_characteristics()[0]),
            characteristic_value(devinfo_characteristics()[0]),
            characteristic_declaration(devinfo_characteristics()[1]),
            characteristic_value(devinfo_characteristics()[1]),
            characteristic_declaration(devinfo_characteristics()[2]),
            characteristic_value(devinfo_characteristics()[2]),
        ],
{
    let c = devinfo_characteristics();
    let none = Seq::<CharacteristicSpec>::empty();
    assert(c =~= none.push(c[0]).push(c[1]).push(c[2]));
    lemma_layout_push(none, c[0]);
    lemma_layout_push(none.push(c[0]), c[1]);
    lemma_layout_push(none.push(c[0]).push(c[1]), c[2]);
    assert(characteristics_layout(none) =~= Seq::<Attribute>::empty());
    assert(devinfo_layout() =~= seq![
        service_declaration(DEVINFO_SERV_UUID),
        characteristic_declaration(c[0]),
        characteristic_value(c[0]),
        characteristic_declaration(c[1]),
        characteristic_value(c[1]),
        characteristic_declaration(c[2]),
        characteristic_value(c[2]),
    ]);
}

/// The serial number: the text "No. 9527".
pub open spec fn serial_number() -> Seq<u8> {
    seq![0x4Eu8, 0x6Fu8, 0x2Eu8, 0x20u8, 0x39u8, 0x35u8, 0x32u8, 0x37u8]
}

/// The temperature as a signed 16-bit number, low byte first.
pub open spec fn temperature_bytes() -> Seq<u8> {
    seq![(MOCK_TEMPERATURE % 256) as u8, (MOCK_TEMPERATURE / 256) as u8]
}

/// Whether the service has a value of this type.
pub open spec fn devinfo_knows(type_uuid: u16) -> bool {
    type_uuid == SYSTEM_ID_UUID || type_uuid == SERIAL_NUMBER_UUID || type_uuid == TEMP_UUID
}

/// The status of a read: an unknown type is not found, and no value can be
/// read in parts.
pub open spec fn devinfo_read_status(type_uuid: u16, offset: u16) -> u8 {
    if !devinfo_knows(type_uuid) {
        ATT_ERR_ATTR_NOT_FOUND
    } else if offset > 0 {
        ATT_ERR_ATTR_NOT_LONG
    } else {
        ATT_SUCCESS
    }
}

/// The value read from an attribute of a known type.
pub open spec fn devinfo_value(system_id: Seq<u8>, type_uuid: u16) -> Seq<u8> {
    if type_uuid == SYSTEM_ID_UUID {
        system_id
    } else if type_uuid == SERIAL_NUMBER_UUID {
        serial_number()
    } else {
        temperature_bytes()
    }
}

/// The read-only device information service.
pub struct DeviceInfoService {
    system_id: [u8; 8],
    table: ServiceTable,
}

impl DeviceInfoService {
    pub closed spec fn system_id(&self) -> Seq<u8> {
        self.system_id@
    }

    /// The service's attribute table.
    pub closed spec fn table(&self) -> ServiceTable {
        self.table
    }

    /// The table is registered and is the service's layout with its handles.
    pub open spec fn wf(&self) -> bool {
        &&& self.table().wf()
        &&& self.table().is_registered()
        &&& self.table()@ == with_handles(devinfo_layout(), self.table().first_handle() as int)
    }

    pub fn attributes(&self) -> (table: &ServiceTable)
        ensures
            *table == self.table(),
    {
        &self.table
    }

    pub fn get_system_id(&self) -> (id: [u8; 8])
        ensures
            id@ == self.system_id(),
    {
        self.system_id
    }

    /// Publishes the system identifier derived when the role started.
    pub fn set_system_id(&mut self, id: [u8; 8])
        ensures
            final(self).system_id() == id@,
            final(self).table() == old(self).table(),
    {
        self.system_id = id;
    }

    /// Handles a read of `attribute` by `connection`, starting at `offset`.
    /// On success `out` holds the value; otherwise it is left alone.
    pub fn on_read(&self, connection: u16, attribute: &Attribute, out: &mut Vec<u8>, offset: u16) -> (status: u8)
        ensures
            status == devinfo_read_status(attribute.type_uuid, offset),
            status == ATT_SUCCESS ==> final(out)@ == devinfo_value(self.system_id(), attribute.type_uuid),
            status != ATT_SUCCESS ==> final(out)@ == old(out)@,
    {
        let uuid = attribute.type_uuid;
        if uuid != SYSTEM_ID_UUID && uuid != SERIAL_NUMBER_UUID && uuid != TEMP_UUID {
            return ATT_ERR_ATTR_NOT_FOUND;
        }
        if offset > 0 {
            return ATT_ERR_ATTR_NOT_LONG;
        }
        if uuid == SYSTEM_ID_UUID {
            fill(out, self.system_id.as_slice());
        } else if uuid == SERIAL_NUMBER_UUID {
            let text: [u8; 8] = [0x4E, 0x6F, 0x2E, 0x20, 0x39, 0x35, 0x32, 0x37];
            fill(out, text.as_slice());
            assert(out@ =~= serial_number());
        } else {
            let reading: [u8; 2] = [(MOCK_TEMPERATURE % 256) as u8, (MOCK_TEMPERATURE / 256) as u8];
            fill(out, reading.as_slice());
            assert(out@ =~= temperature_bytes());
        }
        ATT_SUCCESS
    }
}

/// Sets the service up: builds the attribute table and registers it. The
/// system identifier is all zero until the role has started.
pub fn devinfo_init(attributes: &mut AttributeRegistry) -> (result: Result<DeviceInfoService, RegistrationError>)
    requires
        old(attributes).wf(),
    ensures
        final(attributes).wf(),
        result is Ok <==> old(attributes).next_handle() + 7 <= 0x1_0000,
        result matches Err(e) ==> e == RegistrationError::OutOfHandles,
        match result {
            Ok(service) => {
                &&& registration_result(devinfo_layout(), false, old(attributes).next_handle()) is Ok
                &&& service.wf()
                &&& service.system_id() == Seq::new(8, |i: int| 0u8)
                &&& service.table()@ == with_handles(devinfo_layout(), old(attributes).next_handle())
                &&& service.table().first_handle() == old(attributes).next_handle()
                &&& final(attributes).next_handle() == old(attributes).next_handle() + devinfo_layout().len()
            },
            Err(e) => {
                &&& registration_result(devinfo_layout(), false, old(attributes).next_handle()) == Err::<
                    (),
                    RegistrationError,
                >(e)
                &&& final(attributes).next_handle() == old(attributes).next_handle()
            },
        },
{
    proof {
        law_devinfo_layout();
    }
    let mut characteristics: Vec<CharacteristicSpec> = Vec::new();
    characteristics.push(
        CharacteristicSpec {
            uuid: SYSTEM_ID_UUID,
            permissions: GATT_PERMIT_READ,
            properties: GATT_PROP_READ,
            initial_value: Some(0),
            client_config: false,
        },
    );
    characteristics.push(
        CharacteristicSpec {
            uuid: SERIAL_NUMBER_UUID,
            permissions: GATT_PERMIT_READ,
            properties: GATT_PROP_READ,
            initial_value: None,
            client_config: false,
        },
    );
    characteristics.push(
        CharacteristicSpec {
            uuid: TEMP_UUID,
            permissions: GATT_PERMIT_READ,
            properties: GATT_PROP_READ,
            initial_value: None,
            client_config: false,
        },
    );
    assert(characteristics@ =~= devinfo_characteristics());
    let mut table = ServiceTable::build(DEVINFO_SERV_UUID, &characteristics);
    match attributes.register_service(&mut table) {
        Ok(()) => {
            let service = DeviceInfoService { system_id: [0u8; 8], table };
            assert(service.system_id@ =~= Seq::new(8, |i: int| 0u8));
            Ok(service)
        },
        Err(e) => Err(e),
    }
}

} // verus!
