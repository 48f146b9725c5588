use crate::att::{
    CHARACTERISTIC_UUID, CLIENT_CHAR_CFG_UUID, GATT_PERMIT_READ, GATT_PERMIT_WRITE, PRIMARY_SERVICE_UUID,
};
use vstd::prelude::*;

verus! {

/// What an attribute's value refers to.
#[derive(Clone, Copy, Debug, PartialEq, Eq, Structural)]
pub enum AttrValue {
    /// The 16-bit identifier of the service that a service declaration opens.
    ServiceUuid(u16),
    /// The property bits that a characteristic declaration announces.
    Properties(u8),
    /// The client configuration slots kept by the subscription registry.
    ClientConfig,
    /// A value stored under this index by the service that owns the table.
    Stored(u16),
    /// A value that the service's read and write handlers produce on demand.
    Handler,
}

/// One attribute of a service table.
#[derive(Clone, Copy, Debug, PartialEq, Eq, Structural)]
pub struct Attribute {
    pub type_uuid: u16,
    pub permissions: u8,
    /// 0 until the table is registered.
    pub handle: u16,
    pub value: AttrValue,
}

/// What the builder is told about one characteristic.
#[derive(Clone, Copy, Debug, PartialEq, Eq, Structural)]
pub struct CharacteristicSpec {
    pub uuid: u16,
    /// Permission bits of the value attribute.
    pub permissions: u8,
    /// Property bits announced in the declaration.
    pub properties: u8,
    /// Index of the stored initial value, if the value is not produced by a handler.
    pub initial_value: Option<u16>,
    /// Whether a client configuration descriptor follows the value.
    pub client_config: bool,
}

/// Why a table was not registered.
#[derive(Clone, Copy, Debug, PartialEq, Eq, Structural)]
pub enum RegistrationError {
    /// The table has no attribute.
    EmptyTable,
    /// The table does not begin with a primary-service declaration.
    MissingServiceDeclaration,
    /// The table has its handles already.
    AlreadyRegistered,
    /// Fewer handles are left than the table has attributes.
    OutOfHandles,
}

/// The declaration that opens the service `service_uuid`.
pub open spec fn service_declaration(service_uuid: u16) -> Attribute {
    Attribute {
        type_uuid: PRIMARY_SERVICE_UUID,
        permissions: GATT_PERMIT_READ,
        handle: 0,
        value: AttrValue::ServiceUuid(service_uuid),
    }
}

/// The declaration of a characteristic.
pub open spec fn characteristic_declaration(c: CharacteristicSpec) -> Attribute {
    Attribute {
        type_uuid: CHARACTERISTIC_UUID,
        permissions: GATT_PERMIT_READ,
        handle: 0,
        value: AttrValue::Properties(c.properties),
    }
}

/// The value attribute of a characteristic.
pub open spec fn characteristic_value(c: CharacteristicSpec) -> Attribute {
    Attribute {
        type_uuid: c.uuid,
        permissions: c.permissions,
        handle: 0,
        value: match c.initial_value {
            Some(index) => AttrValue::Stored(index),
            None => AttrValue::Handler,
        },
    }
}

/// The client configuration descriptor: readable and writable.
pub open spec fn client_config_descriptor() -> Attribute {
    Attribute {
        type_uuid: CLIENT_CHAR_CFG_UUID,
        permissions: 0x03,
        handle: 0,
        value: AttrValue::ClientConfig,
    }
}

/// The attributes of one characteristic: declaration, value, and the
/// descriptor if it has one.
pub open spec fn characteristic_attributes(c: CharacteristicSpec) -> Seq<Attribute> {
    if c.client_config {
        seq![characteristic_declaration(c), characteristic_value(c), client_config_descriptor()]
    } else {
        seq![characteristic_declaration(c), characteristic_value(c)]
    }
}

/// The attributes of a list of characteristics, in the order of the list.
pub open spec fn characteristics_layout(characteristics: Seq<CharacteristicSpec>) -> Seq<Attribute>
    decreases characteristics.len(),
{
    if characteristics.len() == 0 {
        Seq::empty()
    } else {
        characteristics_layout(characteristics.drop_last()) + characteristic_attributes(characteristics.last())
    }
}

/// The attribute sequence of a service: its declaration, then its characteristics.
pub open spec fn service_layout(service_uuid: u16, characteristics: Seq<CharacteristicSpec>) -> Seq<Attribute> {
    seq![service_declaration(service_uuid)] + characteristics_layout(characteristics)
}

/// The attributes with every handle set back to 0.
pub open spec fn without_handles(attributes: Seq<Attribute>) -> Seq<Attribute> {
    Seq::new(
        attributes.len(),
        |i: int|
            Attribute {
                type_uuid: attributes[i].type_uuid,
                permissions: attributes[i].permissions,
                handle: 0,
                value: attributes[i].value,
            },
    )
}

/// The attributes with consecutive handles, the first one being `first`.
pub open spec fn with_handles(attributes: Seq<Attribute>, first: int) -> Seq<Attribute> {
    Seq::new(
        attributes.len(),
        |i: int|
            Attribute {
                type_uuid: attributes[i].type_uuid,
                permissions: attributes[i].permissions,
                handle: (first + i) as u16,
                value: attributes[i].value,
            },
    )
}

/// The table begins with a primary-service declaration.
pub open spec fn begins_with_service(attributes: Seq<Attribute>) -> bool {
    attributes.len() > 0 && attributes[0].type_uuid == PRIMARY_SERVICE_UUID
        && attributes[0].value is ServiceUuid
}

/// The handle of the first attribute of type `type_uuid`, if there is one.
pub open spec fn handle_of_type(attributes: Seq<Attribute>, type_uuid: u16) -> Option<u16>
    decreases attributes.len(),
{
    if attributes.len() == 0 {
        None
    } else if attributes[0].type_uuid == type_uuid {
        Some(attributes[0].handle)
    } else {
        handle_of_type(attributes.subrange(1, attributes.len() as int), type_uuid)
    }
}

/// The ordered attributes of one service. Its length is fixed when it is made.
pub struct ServiceTable {
    attributes: Vec<Attribute>,
    /// Handle of the first attribute; 0 until the table is registered.
    first_handle: u16,
}

impl View for ServiceTable {
    type V = Seq<Attribute>;

    closed spec fn view(&self) -> Seq<Attribute> {
        self.attributes@
    }
}

impl ServiceTable {
    /// Handle of the first attribute, 0 while the table is not registered.
    pub closed spec fn first_handle(&self) -> u16 {
        self.first_handle
    }

    pub open spec fn is_registered(&self) -> bool {
        self.first_handle() != 0
    }

    /// Every handle is 0 before registration; after it the handles count up
    /// from the first one and none is 0.
    pub open spec fn wf(&self) -> bool {
        &&& !self.is_registered() ==> self@ == without_handles(self@)
        &&& self.is_registered() ==> self@ == with_handles(self@, self.first_handle() as int)
            && self.first_handle() + self@.len() <= 0x1_0000 && self@.len() > 0
    }

    /// The table of the service `service_uuid` with the given characteristics.
    pub fn build(service_uuid: u16, characteristics: &Vec<CharacteristicSpec>) -> (table: ServiceTable)
        ensures
            table.wf(),
            !table.is_registered(),
            table@ == service_layout(service_uuid, characteristics@),
            begins_with_service(table@),
    {
        let mut attributes: Vec<Attribute> = Vec::new();
        attributes.push(
            Attribute {
                type_uuid: PRIMARY_SERVICE_UUID,
                permissions: GATT_PERMIT_READ,
                handle: 0,
                value: AttrValue::ServiceUuid(service_uuid),
            },
        );
        assert(characteristics@.take(0) =~= Seq::<CharacteristicSpec>::empty());
        assert(attributes@ =~= service_layout(service_uuid, characteristics@.take(0)));
        let mut n: usize = 0;
        while n < characteristics.len()
            invariant
                n <= characteristics@.len(),
                attributes@ == service_layout(service_uuid, characteristics@.take(n as int)),
                attributes@ == without_handles(attributes@),
            decreases characteristics@.len() - n,
        {
            let c = characteristics[n];
            attributes.push(
                Attribute {
                    type_uuid: CHARACTERISTIC_UUID,
                    permissions: GATT_PERMIT_READ,
                    handle: 0,
                    value: AttrValue::Properties(c.properties),
                },
            );
            attributes.push(
                Attribute {
                    type_uuid: c.uuid,
                    permissions: c.permissions,
                    handle: 0,
                    value: match c.initial_value {
                        Some(index) => AttrValue::Stored(index),
                        None => AttrValue::Handler,
                    },
                },
            );
            if c.client_config {
                attributes.push(
                    Attribute {
                        type_uuid: CLIENT_CHAR_CFG_UUID,
                        permissions: GATT_PERMIT_READ | GATT_PERMIT_WRITE,
                        handle: 0,
                        value: AttrValue::ClientConfig,
                    },
                );
                assert(GATT_PERMIT_READ | GATT_PERMIT_WRITE == 0x03u8) by (bit_vector);
            }
            proof {
                let next = characteristics@.take(n + 1);
                assert(next.drop_last() =~= characteristics@.take(n as int));
                assert(next.last() == c);
                assert(attributes@ =~= service_layout(service_uuid, next));
                assert(attributes@ =~= without_handles(attributes@));
            }
            n = n + 1;
        }
        assert(characteristics@.take(n as int) =~= characteristics@);
        ServiceTable { attributes, first_handle: 0 }
    }

    /// A table made of attributes written out by hand. Handles among them
    /// are set back to 0: only registration gives handles.
    pub fn from_attributes(attributes: Vec<Attribute>) -> (table: ServiceTable)
        ensures
            table.wf(),
            !table.is_registered(),
            table@ == without_handles(attributes@),
    {
        let mut attributes = attributes;
        let ghost given = attributes@;
        let mut i: usize = 0;
        while i < attributes.len()
            invariant
                i <= attributes@.len(),
                attributes@.len() == given.len(),
                forall|j: int| 0 <= j < i ==> #[trigger] attributes@[j] == without_handles(given)[j],
                forall|j: int| i <= j < given.len() ==> #[trigger] attributes@[j] == given[j],
            decreases attributes@.len() - i,
        {
            let mut a = attributes[i];
            a.handle = 0;
            attributes.set(i, a);
            i = i + 1;
        }
        assert(attributes@ =~= without_handles(given));
        assert(attributes@ =~= without_handles(attributes@));
        ServiceTable { attributes, first_handle: 0 }
    }

    /// Number of attributes.
    pub fn len(&self) -> (n: usize)
        ensures
            n == self@.len(),
    {
        self.attributes.len()
    }

    /// The attribute at `index`, if the table is that long.
    pub fn get(&self, index: usize) -> (attribute: Option<Attribute>)
        ensures
            attribute == if index < self@.len() {
                Some(self@[index as int])
            } else {
                None
            },
    {
        if index < self.attributes.len() {
            Some(self.attributes[index])
        } else {
            None
        }
    }

    /// Whether `register` has given the table its handles.
    pub fn registered(&self) -> (yes: bool)
        ensures
            yes == self.is_registered(),
    {
        self.first_handle != 0
    }

    /// The handle of the first attribute whose type is `type_uuid`.
    pub fn handle_of(&self, type_uuid: u16) -> (handle: Option<u16>)
        ensures
            handle == handle_of_type(self@, type_uuid),
    {
        let mut i: usize = 0;
        assert(self.attributes@.subrange(0, self.attributes@.len() as int) =~= self.attributes@);
        while i < self.attributes.len()
            invariant
                i <= self.attributes@.len(),
                handle_of_type(self.attributes@, type_uuid) == handle_of_type(
                    self.attributes@.subrange(i as int, self.attributes@.len() as int),
                    type_uuid,
                ),
            decreases self.attributes@.len() - i,
        {
            let ghost rest = self.attributes@.subrange(i as int, self.attributes@.len() as int);
            assert(rest[0] == self.attributes@[i as int]);
            if self.attributes[i].type_uuid == type_uuid {
                return Some(self.attributes[i].handle);
            }
            assert(rest.subrange(1, rest.len() as int) =~= self.attributes@.subrange(
                i + 1,
                self.attributes@.len() as int,
            ));
            i = i + 1;
        }
        assert(self.attributes@.subrange(i as int, self.attributes@.len() as int).len() == 0);
        None
    }
}

/// The status with which registering `attributes` ends when `next` is the
/// next handle to give out and `registered` says whether the table has its
/// handles already.
pub open spec fn registration_result(
    attributes: Seq<Attribute>,
    registered: bool,
    next: int,
) -> Result<(), RegistrationError> {
    if attributes.len() == 0 {
        Err(RegistrationError::EmptyTable)
    } else if !begins_with_service(attributes) {
        Err(RegistrationError::MissingServiceDeclaration)
    } else if registered {
        Err(RegistrationError::AlreadyRegistered)
    } else if next + attributes.len() > 0x1_0000 {
        Err(RegistrationError::OutOfHandles)
    } else {
        Ok(())
    }
}

/// Gives out attribute handles: each handle once, in rising order, never 0.
pub struct AttributeRegistry {
    next_handle: u32,
}

impl AttributeRegistry {
    /// The next handle that will be given out; 0x10000 when none is left.
    pub closed spec fn next_handle(&self) -> int {
        self.next_handle as int
    }

    pub open spec fn wf(&self) -> bool {
        1 <= self.next_handle() <= 0x1_0000
    }

    /// A registry that has given out no handle yet. The first will be 1.
    pub fn new() -> (registry: AttributeRegistry)
        ensures
            registry.wf(),
            registry.next_handle() == 1,
    {
        AttributeRegistry { next_handle: 1 }
    }

    /// Moves on to `next` as the next handle to give out, where handles
    /// below it are taken by services registered elsewhere. The registry
    /// never goes back: a `next` below its own, or 0, is refused.
    pub fn skip_to(&mut self, next: u16) -> (moved: bool)
        requires
            old(self).wf(),
        ensures
            final(self).wf(),
            moved == (next as int >= old(self).next_handle()),
            final(self).next_handle() == if moved {
                next as int
            } else {
                old(self).next_handle()
            },
    {
        if next as u32 >= self.next_handle {
            self.next_handle = next as u32;
            true
        } else {
            false
        }
    }

    /// Registers `table` as one unit: either every attribute gets its
    /// handle, counting up from the next free one, or nothing changes.
    pub fn register_service(&mut self, table: &mut ServiceTable) -> (result: Result<(), RegistrationError>)
        requires
            old(self).wf(),
            old(table).wf(),
        ensures
            final(self).wf(),
            final(table).wf(),
            result == registration_result(old(table)@, old(table).is_registered(), old(self).next_handle()),
            result.is_err() ==> final(table)@ == old(table)@ && final(table).first_handle() == old(table).first_handle() && final(self).next_handle() == old(self).next_handle(),
            result.is_ok() ==> final(table)@ == with_handles(old(table)@, old(self).next_handle())
                && final(table).first_handle() == old(self).next_handle() && final(self).next_handle() == old(self).next_handle() + old(table)@.len(),
    {
        let n = table.attributes.len();
        if n == 0 {
            return Err(RegistrationError::EmptyTable);
        }
        let head = table.attributes[0];
        let leads = match head.value {
            AttrValue::ServiceUuid(_) => head.type_uuid == PRIMARY_SERVICE_UUID,
            _ => false,
        };
        if !leads {
            return Err(RegistrationError::MissingServiceDeclaration);
        }
        if table.first_handle != 0 {
            return Err(RegistrationError::AlreadyRegistered);
        }
        if n > 0x1_0000 || self.next_handle + (n as u32) > 0x1_0000 {
            return Err(RegistrationError::OutOfHandles);
        }
        let first: u32 = self.next_handle;
        let ghost given = table.attributes@;
        let mut i: usize = 0;
        while i < n
            invariant
                i <= n,
                n == given.len(),
                table.attributes@.len() == given.len(),
                1 <= first,
                first + n <= 0x1_0000,
                forall|j: int| 0 <= j < i ==> #[trigger] table.attributes@[j] == with_handles(given, first as int)[j],
                forall|j: int| i <= j < given.len() ==> #[trigger] table.attributes@[j] == given[j],
            decreases n - i,
        {
            let mut a = table.attributes[i];
            a.handle = (first + i as u32) as u16;
            table.attributes.set(i, a);
            i = i + 1;
        }
        table.first_handle = first as u16;
        self.next_handle = first + n as u32;
        proof {
            assert(table.attributes@ =~= with_handles(given, first as int));
            assert(table.attributes@ =~= with_handles(table.attributes@, first as int));
        }
        Ok(())
    }
}

/// One more characteristic adds its attributes at the end of the layout.
pub proof fn lemma_layout_push(characteristics: Seq<CharacteristicSpec>, c: CharacteristicSpec)
    ensures
        characteristics_layout(characteristics.push(c)) == characteristics_layout(characteristics)
            + characteristic_attributes(c),
{
    assert(characteristics.push(c).drop_last() =~= characteristics);
    assert(characteristics.push(c).last() == c);
}

/// An attribute's handle is 0 exactly as long as its table is not registered.
pub proof fn law_handle_zero_until_registered(table: ServiceTable, i: int)
    requires
        table.wf(),
        0 <= i < table@.len(),
    ensures
        table@[i].handle == 0 <==> !table.is_registered(),
{
    if table.is_registered() {
        assert(table@[i] == with_handles(table@, table.first_handle() as int)[i]);
    } else {
        assert(table@[i] == without_handles(table@)[i]);
    }
}

/// Once a table is registered, no handle in it is 0 and each attribute's
/// handle is one more than that of the attribute before it.
pub proof fn law_handles_rise(attributes: Seq<Attribute>, first: int, i: int)
    requires
        1 <= first,
        first + attributes.len() <= 0x1_0000,
        0 <= i < attributes.len(),
    ensures
        with_handles(attributes, first)[i].handle == first + i,
        with_handles(attributes, first)[i].handle != 0,
        i + 1 < attributes.len() ==> with_handles(attributes, first)[i + 1].handle == with_handles(
            attributes,
            first,
        )[i].handle + 1,
{
}

} // verus!
