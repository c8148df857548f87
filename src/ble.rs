//! Bluetooth identifiers of the heart-rate profile, as 128-bit integers.
use vstd::prelude::*;

verus! {

/// The Bluetooth Base UUID, into which a short identifier is placed.
pub const BLUETOOTH_BASE_UUID: u128 = 0x0000_0000_0000_1000_8000_0080_5f9b_34fb;

/// Short identifier of the heart-rate service.
pub const HEART_RATE_SERVICE_SHORT: u16 = 0x180D;

/// Short identifier of the heart-rate measurement characteristic.
pub const HEART_RATE_MEASUREMENT_SHORT: u16 = 0x2A37;

/// The full 128-bit UUID of a 16-bit Bluetooth short identifier.
pub open spec fn full_uuid(short: u16) -> u128 {
    BLUETOOTH_BASE_UUID | ((short as u128) << 96u128)
}

/// The full UUID of the heart-rate service.
pub open spec fn heart_rate_service_uuid() -> u128 {
    full_uuid(HEART_RATE_SERVICE_SHORT)
}

/// The full UUID of the heart-rate measurement characteristic.
pub open spec fn heart_rate_measurement_uuid() -> u128 {
    full_uuid(HEART_RATE_MEASUREMENT_SHORT)
}

/// Places a 16-bit short identifier into the Bluetooth Base UUID.
pub fn uuid_from_u16(short: u16) -> (r: u128)
    ensures
        r == full_uuid(short),
{
    BLUETOOTH_BASE_UUID | ((short as u128) << 96u128)
}

/// The full UUID of the heart-rate service (short form 0x180D).
pub fn heart_rate_service() -> (r: u128)
    ensures
        r == heart_rate_service_uuid(),
{
    uuid_from_u16(HEART_RATE_SERVICE_SHORT)
}

/// The full UUID of the heart-rate measurement characteristic (short form 0x2A37).
pub fn heart_rate_measurement() -> (r: u128)
    ensures
        r == heart_rate_measurement_uuid(),
{
    uuid_from_u16(HEART_RATE_MEASUREMENT_SHORT)
}

} // verus!
