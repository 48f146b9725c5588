use vstd::prelude::*;

verus! {

/// Status codes handed back to the remote central, as the attribute
/// protocol numbers them.
pub const ATT_SUCCESS: u8 = 0x00;

pub const ATT_ERR_ATTR_NOT_FOUND: u8 = 0x0A;

pub const ATT_ERR_ATTR_NOT_LONG: u8 = 0x0B;

pub const ATT_ERR_INVALID_VALUE_SIZE: u8 = 0x0D;

pub const ATT_ERR_INSUFFICIENT_RESOURCES: u8 = 0x11;

pub const ATT_ERR_INVALID_VALUE: u8 = 0x80;

/// Connection handle that stands for "no connection".
pub const INVALID_CONNHANDLE: u16 = 0xFFFF;

/// Attribute permission bits.
pub const GATT_PERMIT_READ: u8 = 0x01;

pub const GATT_PERMIT_WRITE: u8 = 0x02;

/// Characteristic property bits.
pub const GATT_PROP_READ: u8 = 0x02;

pub const GATT_PROP_WRITE: u8 = 0x08;

pub const GATT_PROP_NOTIFY: u8 = 0x10;

/// Attribute types of the declarations and of the client configuration descriptor.
pub const PRIMARY_SERVICE_UUID: u16 = 0x2800;

pub const CHARACTERISTIC_UUID: u16 = 0x2803;

pub const CLIENT_CHAR_CFG_UUID: u16 = 0x2902;

/// Number of bytes of a 16-bit attribute type on the wire.
pub const ATT_BT_UUID_SIZE: usize = 2;

/// The 16-bit attribute type that `bytes` spell, low byte first, if they
/// are exactly two.
pub open spec fn uuid16(bytes: Seq<u8>) -> Option<u16> {
    if bytes.len() == ATT_BT_UUID_SIZE {
        Some((bytes[0] as int + 256 * (bytes[1] as int)) as u16)
    } else {
        None
    }
}

/// Reads a 16-bit attribute type from its bytes on the wire.
pub fn uuid16_of(bytes: &[u8]) -> (uuid: Option<u16>)
    ensures
        uuid == uuid16(bytes@),
{
    if bytes.len() == ATT_BT_UUID_SIZE {
        Some(bytes[0] as u16 + 256 * (bytes[1] as u16))
    } else {
        None
    }
}

} // verus!
