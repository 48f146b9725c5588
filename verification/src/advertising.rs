use crate::current_time_service::CURRENT_TIME_UUID;
use vstd::prelude::*;

verus! {

/// Company identifier carried in the manufacturer-specific field.
pub const GAP_PAPAJ: u16 = 0x049F;

/// Types of the fields of advertising data.
pub const GAP_ADTYPE_FLAGS: u8 = 0x01;

pub const GAP_ADTYPE_16BIT_MORE: u8 = 0x02;

pub const GAP_ADTYPE_LOCAL_NAME_COMPLETE: u8 = 0x09;

pub const GAP_ADTYPE_POWER_LEVEL: u8 = 0x0A;

pub const GAP_ADTYPE_SLAVE_CONN_INTERVAL_RANGE: u8 = 0x12;

pub const GAP_ADTYPE_MANUFACTURER_SPECIFIC: u8 = 0xFF;

/// Flag: classic Bluetooth is not supported.
pub const GAP_ADTYPE_FLAGS_BREDR_NOT_SUPPORTED: u8 = 0x04;

/// Most bytes that advertising or scan response data may have.
pub const MAX_ADVERT_LEN: usize = 31;

/// The low byte of `x`.
pub fn lo_u16(x: u16) -> (b: u8)
    ensures
        b == x % 256,
{
    (x % 256) as u8
}

/// The high byte of `x`.
pub fn hi_u16(x: u16) -> (b: u8)
    ensures
        b == x / 256,
{
    (x / 256) as u8
}

/// One field of advertising data: its length (type byte included), its
/// type, its bytes.
pub open spec fn ad_field(ad_type: u8, data: Seq<u8>) -> Seq<u8>
    recommends
        data.len() < 255,
{
    seq![(data.len() + 1) as u8, ad_type] + data
}

/// The name under which the device answers scans: "Papajbadge-2136.9".
pub open spec fn local_name() -> Seq<u8> {
    seq![
        0x50u8,
        0x61u8,
        0x70u8,
        0x61u8,
        0x6Au8,
        0x62u8,
        0x61u8,
        0x64u8,
        0x67u8,
        0x65u8,
        0x2Du8,
        0x32u8,
        0x31u8,
        0x33u8,
        0x36u8,
        0x2Eu8,
        0x39u8,
    ]
}

/// The scan response: the complete name, the connection interval range of
/// 80 to 800 units of 1.25 ms, and a transmit power of 0 dBm.
pub open spec fn scan_response() -> Seq<u8> {
    ad_field(GAP_ADTYPE_LOCAL_NAME_COMPLETE, local_name()) + ad_field(
        GAP_ADTYPE_SLAVE_CONN_INTERVAL_RANGE,
        seq![80u8, 0u8, 0x20u8, 0x03u8],
    ) + ad_field(GAP_ADTYPE_POWER_LEVEL, seq![0u8])
}

/// The advertisement: the flags, the manufacturer's field and the
/// advertised 16-bit identifier.
pub open spec fn advertisement() -> Seq<u8> {
    ad_field(GAP_ADTYPE_FLAGS, seq![GAP_ADTYPE_FLAGS_BREDR_NOT_SUPPORTED]) + ad_field(
        GAP_ADTYPE_MANUFACTURER_SPECIFIC,
        seq![(GAP_PAPAJ % 256) as u8, (GAP_PAPAJ / 256) as u8, 1u8],
    ) + ad_field(GAP_ADTYPE_16BIT_MORE, seq![(CURRENT_TIME_UUID % 256) as u8, (CURRENT_TIME_UUID / 256) as u8])
}

/// Appends one field to `out`.
pub fn push_field(out: &mut Vec<u8>, ad_type: u8, data: &[u8])
    requires
        data@.len() < 255,
    ensures
        final(out)@ == old(out)@ + ad_field(ad_type, data@),
{
    let ghost before = out@;
    out.push((data.len() + 1) as u8);
    out.push(ad_type);
    let mut i: usize = 0;
    while i < data.len()
        invariant
            i <= data@.len(),
            data@.len() < 255,
            out@ == before + seq![(data@.len() + 1) as u8, ad_type] + data@.take(i as int),
        decreases data@.len() - i,
    {
        out.push(data[i]);
        assert(out@ =~= before + seq![(data@.len() + 1) as u8, ad_type] + data@.take(i + 1));
        i = i + 1;
    }
    assert(data@.take(i as int) =~= data@);
    assert(out@ =~= before + ad_field(ad_type, data@));
}

/// The data with which the device answers a scan request.
pub fn scan_response_data() -> (data: Vec<u8>)
    ensures
        data@ == scan_response(),
        data@.len() == 28,
{
    let name: [u8; 17] = [
        0x50,
        0x61,
        0x70,
        0x61,
        0x6A,
        0x62,
        0x61,
        0x64,
        0x67,
        0x65,
        0x2D,
        0x32,
        0x31,
        0x33,
        0x36,
        0x2E,
        0x39,
    ];
    assert(name@ =~= local_name());
    let range: [u8; 4] = [lo_u16(80), hi_u16(80), lo_u16(800), hi_u16(800)];
    assert(range@ =~= seq![80u8, 0u8, 0x20u8, 0x03u8]);
    let power: [u8; 1] = [0];
    assert(power@ =~= seq![0u8]);
    let mut data: Vec<u8> = Vec::new();
    push_field(&mut data, GAP_ADTYPE_LOCAL_NAME_COMPLETE, name.as_slice());
    push_field(&mut data, GAP_ADTYPE_SLAVE_CONN_INTERVAL_RANGE, range.as_slice());
    push_field(&mut data, GAP_ADTYPE_POWER_LEVEL, power.as_slice());
    assert(data@ =~= scan_response());
    data
}

/// The data that the device advertises.
pub fn advert_data() -> (data: Vec<u8>)
    ensures
        data@ == advertisement(),
        data@.len() == 12,
{
    let flags: [u8; 1] = [GAP_ADTYPE_FLAGS_BREDR_NOT_SUPPORTED];
    assert(flags@ =~= seq![GAP_ADTYPE_FLAGS_BREDR_NOT_SUPPORTED]);
    let maker: [u8; 3] = [lo_u16(GAP_PAPAJ), hi_u16(GAP_PAPAJ), 0x01];
    assert(maker@ =~= seq![(GAP_PAPAJ % 256) as u8, (GAP_PAPAJ / 256) as u8, 1u8]);
    let advertised: [u8; 2] = [lo_u16(CURRENT_TIME_UUID), hi_u16(CURRENT_TIME_UUID)];
    assert(advertised@ =~= seq![(CURRENT_TIME_UUID % 256) as u8, (CURRENT_TIME_UUID / 256) as u8]);
    let mut data: Vec<u8> = Vec::new();
    push_field(&mut data, GAP_ADTYPE_FLAGS, flags.as_slice());
    push_field(&mut data, GAP_ADTYPE_MANUFACTURER_SPECIFIC, maker.as_slice());
    push_field(&mut data, GAP_ADTYPE_16BIT_MORE, advertised.as_slice());
    assert(data@ =~= advertisement());
    data
}

} // verus!
