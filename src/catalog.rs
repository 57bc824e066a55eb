//! The field catalog: each semantic field and the GATT service and
//! characteristic that carry it.
use vstd::prelude::*;

verus! {

/// A semantic field that the camera exposes over GATT.
#[derive(Clone, Copy, Debug, PartialEq, Eq, Structural)]
pub enum FieldName {
    HwRevision,
    FwRevision,
    SwRevision,
    SerialNumber,
    ModelNumber,
    ManufacturerName,
    WifiSsid,
    WifiPassword,
    BatteryLevel,
    TxPowerLevel,
    ClientCharacteristicConfig,
    UnknownField,
}

/// How the raw bytes of a characteristic are turned into a value.
#[derive(Clone, Copy, Debug, PartialEq, Eq, Structural)]
pub enum DecodePolicy {
    /// UTF-8 text.
    Text,
    /// A single unsigned byte.
    Unsigned8,
    /// A single two's-complement byte.
    Signed8,
    /// Bytes of unknown meaning, kept as they are.
    Opaque,
}

/// Where a field lives and how it is decoded. Service and characteristic
/// identifiers are 128-bit UUIDs, most significant byte first.
#[derive(Clone, Copy, Debug, PartialEq, Eq, Structural)]
pub struct FieldDescriptor {
    pub field: FieldName,
    pub service: u128,
    pub characteristic: u128,
    pub policy: DecodePolicy,
}

/// Standard Device Information service.
pub const DEVICE_INFORMATION_SERVICE: u128 = 0x0000180a_0000_1000_8000_00805f9b34fb;

/// The camera's vendor service for Wi-Fi access point settings.
pub const WIFI_ACCESS_POINT_SERVICE: u128 = 0xb5f90001_aa8d_11e3_9046_0002a5d5c51b;

/// Standard Battery service.
pub const BATTERY_SERVICE: u128 = 0x0000180f_0000_1000_8000_00805f9b34fb;

/// Standard Tx Power service.
pub const TX_POWER_SERVICE: u128 = 0x00001804_0000_1000_8000_00805f9b34fb;

/// The variant of a UUID: the two most significant bits of its ninth byte.
pub open spec fn uuid_variant(u: u128) -> int {
    (u as int / 0x4000_0000_0000_0000) % 4
}

/// The version of a UUID: the high nibble of its seventh byte.
pub open spec fn uuid_version(u: u128) -> int {
    (u as int / 0x1000_0000_0000_0000_0000) % 16
}

/// A UUID of the RFC 4122 variant with one of the versions 1 to 5.
pub open spec fn uuid_well_formed(u: u128) -> bool {
    uuid_variant(u) == 2 && 1 <= uuid_version(u) <= 5
}

/// The catalog itself.
pub open spec fn descriptor_of(name: FieldName) -> FieldDescriptor {
    let (service, characteristic, policy) = match name {
        FieldName::HwRevision => (
            DEVICE_INFORMATION_SERVICE,
            0x00002a27_0000_1000_8000_00805f9b34fb_u128,
            DecodePolicy::Text,
        ),
        FieldName::FwRevision => (
            DEVICE_INFORMATION_SERVICE,
            0x00002a26_0000_1000_8000_00805f9b34fb_u128,
            DecodePolicy::Text,
        ),
        FieldName::SwRevision => (
            DEVICE_INFORMATION_SERVICE,
            0x00002a28_0000_1000_8000_00805f9b34fb_u128,
            DecodePolicy::Text,
        ),
        FieldName::SerialNumber => (
            DEVICE_INFORMATION_SERVICE,
            0x00002a25_0000_1000_8000_00805f9b34fb_u128,
            DecodePolicy::Text,
        ),
        FieldName::ModelNumber => (
            DEVICE_INFORMATION_SERVICE,
            0x00002a24_0000_1000_8000_00805f9b34fb_u128,
            DecodePolicy::Text,
        ),
        FieldName::ManufacturerName => (
            DEVICE_INFORMATION_SERVICE,
            0x00002a29_0000_1000_8000_00805f9b34fb_u128,
            DecodePolicy::Text,
        ),
        FieldName::WifiSsid => (
            WIFI_ACCESS_POINT_SERVICE,
            0xb5f90002_aa8d_11e3_9046_0002a5d5c51b_u128,
            DecodePolicy::Text,
        ),
        FieldName::WifiPassword => (
            WIFI_ACCESS_POINT_SERVICE,
            0xb5f90003_aa8d_11e3_9046_0002a5d5c51b_u128,
            DecodePolicy::Text,
        ),
        FieldName::BatteryLevel => (
            BATTERY_SERVICE,
            0x00002a19_0000_1000_8000_00805f9b34fb_u128,
            DecodePolicy::Unsigned8,
        ),
        FieldName::TxPowerLevel => (
            TX_POWER_SERVICE,
            0x00002a07_0000_1000_8000_00805f9b34fb_u128,
            DecodePolicy::Signed8,
        ),
        FieldName::ClientCharacteristicConfig => (
            WIFI_ACCESS_POINT_SERVICE,
            0xb5f90005_aa8d_11e3_9046_0002a5d5c51b_u128,
            DecodePolicy::Text,
        ),
        FieldName::UnknownField => (
            WIFI_ACCESS_POINT_SERVICE,
            0xb5f90006_aa8d_11e3_9046_0002a5d5c51b_u128,
            DecodePolicy::Opaque,
        ),
    };
    FieldDescriptor { field: name, service, characteristic, policy }
}

/// Looks up the descriptor of a field. Total: every field has exactly one.
pub fn lookup(name: FieldName) -> (d: FieldDescriptor)
    ensures
        d == descriptor_of(name),
{
    let (service, characteristic, policy) = match name {
        FieldName::HwRevision => (
            DEVICE_INFORMATION_SERVICE,
            0x00002a27_0000_1000_8000_00805f9b34fb_u128,
            DecodePolicy::Text,
        ),
        FieldName::FwRevision => (
            DEVICE_INFORMATION_SERVICE,
            0x00002a26_0000_1000_8000_00805f9b34fb_u128,
            DecodePolicy::Text,
        ),
        FieldName::SwRevision => (
            DEVICE_INFORMATION_SERVICE,
            0x00002a28_0000_1000_8000_00805f9b34fb_u128,
            DecodePolicy::Text,
        ),
        FieldName::SerialNumber => (
            DEVICE_INFORMATION_SERVICE,
            0x00002a25_0000_1000_8000_00805f9b34fb_u128,
            DecodePolicy::Text,
        ),
        FieldName::ModelNumber => (
            DEVICE_INFORMATION_SERVICE,
            0x00002a24_0000_1000_8000_00805f9b34fb_u128,
            DecodePolicy::Text,
        ),
        FieldName::ManufacturerName => (
            DEVICE_INFORMATION_SERVICE,
            0x00002a29_0000_1000_8000_00805f9b34fb_u128,
            DecodePolicy::Text,
        ),
        FieldName::WifiSsid => (
            WIFI_ACCESS_POINT_SERVICE,
            0xb5f90002_aa8d_11e3_9046_0002a5d5c51b_u128,
            DecodePolicy::Text,
        ),
        FieldName::WifiPassword => (
            WIFI_ACCESS_POINT_SERVICE,
            0xb5f90003_aa8d_11e3_9046_0002a5d5c51b_u128,
            DecodePolicy::Text,
        ),
        FieldName::BatteryLevel => (
            BATTERY_SERVICE,
            0x00002a19_0000_1000_8000_00805f9b34fb_u128,
            DecodePolicy::Unsigned8,
        ),
        FieldName::TxPowerLevel => (
            TX_POWER_SERVICE,
            0x00002a07_0000_1000_8000_00805f9b34fb_u128,
            DecodePolicy::Signed8,
        ),
        FieldName::ClientCharacteristicConfig => (
            WIFI_ACCESS_POINT_SERVICE,
            0xb5f90005_aa8d_11e3_9046_0002a5d5c51b_u128,
            DecodePolicy::Text,
        ),
        FieldName::UnknownField => (
            WIFI_ACCESS_POINT_SERVICE,
            0xb5f90006_aa8d_11e3_9046_0002a5d5c51b_u128,
            DecodePolicy::Opaque,
        ),
    };
    FieldDescriptor { field: name, service, characteristic, policy }
}

proof fn lemma_descriptor_uuids_well_formed(a: FieldName)
    ensures
        uuid_well_formed(descriptor_of(a).service),
        uuid_well_formed(descriptor_of(a).characteristic),
{
    match a {
        FieldName::HwRevision => {
            assert(uuid_well_formed(DEVICE_INFORMATION_SERVICE));
            assert(uuid_well_formed(0x00002a27_0000_1000_8000_00805f9b34fb_u128));
        },
        FieldName::FwRevision => {
            assert(uuid_well_formed(DEVICE_INFORMATION_SERVICE));
            assert(uuid_well_formed(0x00002a26_0000_1000_8000_00805f9b34fb_u128));
        },
        FieldName::SwRevision => {
            assert(uuid_well_formed(DEVICE_INFORMATION_SERVICE));
            assert(uuid_well_formed(0x00002a28_0000_1000_8000_00805f9b34fb_u128));
        },
        FieldName::SerialNumber => {
            assert(uuid_well_formed(DEVICE_INFORMATION_SERVICE));
            assert(uuid_well_formed(0x00002a25_0000_1000_8000_00805f9b34fb_u128));
        },
        FieldName::ModelNumber => {
            assert(uuid_well_formed(DEVICE_INFORMATION_SERVICE));
            assert(uuid_well_formed(0x00002a24_0000_1000_8000_00805f9b34fb_u128));
        },
        FieldName::ManufacturerName => {
            assert(uuid_well_formed(DEVICE_INFORMATION_SERVICE));
            assert(uuid_well_formed(0x00002a29_0000_1000_8000_00805f9b34fb_u128));
        },
        FieldName::WifiSsid => {
            assert(uuid_well_formed(WIFI_ACCESS_POINT_SERVICE));
            assert(uuid_well_formed(0xb5f90002_aa8d_11e3_9046_0002a5d5c51b_u128));
        },
        FieldName::WifiPassword => {
            assert(uuid_well_formed(WIFI_ACCESS_POINT_SERVICE));
            assert(uuid_well_formed(0xb5f90003_aa8d_11e3_9046_0002a5d5c51b_u128));
        },
        FieldName::BatteryLevel => {
            assert(uuid_well_formed(BATTERY_SERVICE));
            assert(uuid_well_formed(0x00002a19_0000_1000_8000_00805f9b34fb_u128));
        },
        FieldName::TxPowerLevel => {
            assert(uuid_well_formed(TX_POWER_SERVICE));
            assert(uuid_well_formed(0x00002a07_0000_1000_8000_00805f9b34fb_u128));
        },
        FieldName::ClientCharacteristicConfig => {
            assert(uuid_well_formed(WIFI_ACCESS_POINT_SERVICE));
            assert(uuid_well_formed(0xb5f90005_aa8d_11e3_9046_0002a5d5c51b_u128));
        },
        FieldName::UnknownField => {
            assert(uuid_well_formed(WIFI_ACCESS_POINT_SERVICE));
            assert(uuid_well_formed(0xb5f90006_aa8d_11e3_9046_0002a5d5c51b_u128));
        },
    }
}

/// Every descriptor of the catalog belongs to the field it is looked up by
/// and names well-formed service and characteristic UUIDs; two distinct
/// fields never share a (service, characteristic) pair.
pub proof fn lemma_catalog_well_formed(a: FieldName, b: FieldName)
    ensures
        descriptor_of(a).field == a,
        uuid_well_formed(descriptor_of(a).service),
        uuid_well_formed(descriptor_of(a).characteristic),
        a != b ==> (descriptor_of(a).service, descriptor_of(a).characteristic) != (
            descriptor_of(b).service,
            descriptor_of(b).characteristic,
        ),
{
    lemma_descriptor_uuids_well_formed(a);
}

} // verus!
