//! The info assemblers: each declares the fields it needs and packages the
//! outcomes of their reads, in that order, into a record.
use vstd::prelude::*;
use crate::catalog::{FieldName, descriptor_of, lookup};
use crate::connection::RetrievalError;
use crate::locator::{NameFilter, find_device};
use crate::reader::{FieldModel, FieldValue, ReadError, decode_model, read_field};

verus! {

/// The outcome of reading one characteristic: its bytes, or why the read failed.
pub type ReadOutcome = Result<Vec<u8>, ReadError>;

/// Wi-Fi access point settings of the camera.
#[derive(Clone, Debug, PartialEq, Eq)]
pub struct WifiInfo {
    pub wifi_ssid: FieldValue,
    pub wifi_password: FieldValue,
}

/// Identity and factory information of the camera.
#[derive(Clone, Debug, PartialEq, Eq)]
pub struct FactoryInfo {
    pub hw_revision: FieldValue,
    pub fw_revision: FieldValue,
    pub sw_revision: FieldValue,
    pub serial_number: FieldValue,
    pub model_number: FieldValue,
    pub manufacturer_name: FieldValue,
}

/// Live status of the camera.
#[derive(Clone, Debug, PartialEq, Eq)]
pub struct StatusInfo {
    pub battery_level: FieldValue,
    pub tx_power_level: FieldValue,
}

/// Factory information together with the Wi-Fi settings.
#[derive(Clone, Debug, PartialEq, Eq)]
pub struct CameraInfo {
    pub hw_revision: FieldValue,
    pub fw_revision: FieldValue,
    pub sw_revision: FieldValue,
    pub serial_number: FieldValue,
    pub model_number: FieldValue,
    pub manufacturer_name: FieldValue,
    pub wifi_ssid: FieldValue,
    pub wifi_password: FieldValue,
}

/// The value of `field` in a record, given the outcomes of the reads and
/// the position of the field's read among them. A failed or missing read
/// leaves the field "not available".
pub open spec fn slot_model(field: FieldName, reads: Seq<ReadOutcome>, i: int) -> FieldModel {
    if 0 <= i < reads.len() {
        match reads[i] {
            Ok(bytes) => decode_model(descriptor_of(field).policy, bytes@),
            Err(_) => FieldModel::NotAvailable,
        }
    } else {
        FieldModel::NotAvailable
    }
}

fn slot(field: FieldName, reads: &Vec<ReadOutcome>, i: usize) -> (v: FieldValue)
    ensures
        v@ == slot_model(field, reads@, i as int),
{
    if i < reads.len() {
        match read_field(&lookup(field), &reads[i]) {
            Ok(v) => v,
            Err(_) => FieldValue::NotAvailable,
        }
    } else {
        FieldValue::NotAvailable
    }
}

/// The fields a Wi-Fi record is made of, in the order they are read.
pub fn wifi_fields() -> (r: Vec<FieldName>)
    ensures
        r@ == seq![FieldName::WifiSsid, FieldName::WifiPassword],
{
    vec![FieldName::WifiSsid, FieldName::WifiPassword]
}

/// The fields a factory record is made of, in the order they are read.
pub fn factory_fields() -> (r: Vec<FieldName>)
    ensures
        r@ == seq![
            FieldName::HwRevision,
            FieldName::FwRevision,
            FieldName::SwRevision,
            FieldName::SerialNumber,
            FieldName::ModelNumber,
            FieldName::ManufacturerName,
        ],
{
    vec![
        FieldName::HwRevision,
        FieldName::FwRevision,
        FieldName::SwRevision,
        FieldName::SerialNumber,
        FieldName::ModelNumber,
        FieldName::ManufacturerName,
    ]
}

/// The fields a status record is made of, in the order they are read.
pub fn status_fields() -> (r: Vec<FieldName>)
    ensures
        r@ == seq![FieldName::BatteryLevel, FieldName::TxPowerLevel],
{
    vec![FieldName::BatteryLevel, FieldName::TxPowerLevel]
}

/// The fields a camera record is made of, in the order they are read.
pub fn camera_fields() -> (r: Vec<FieldName>)
    ensures
        r@ == seq![
            FieldName::HwRevision,
            FieldName::FwRevision,
            FieldName::SwRevision,
            FieldName::SerialNumber,
            FieldName::ModelNumber,
            FieldName::ManufacturerName,
            FieldName::WifiSsid,
            FieldName::WifiPassword,
        ],
{
    vec![
        FieldName::HwRevision,
        FieldName::FwRevision,
        FieldName::SwRevision,
        FieldName::SerialNumber,
        FieldName::ModelNumber,
        FieldName::ManufacturerName,
        FieldName::WifiSsid,
        FieldName::WifiPassword,
    ]
}

/// Packages the reads of [`wifi_fields`], in that order, into a record.
pub fn assemble_wifi_info(reads: &Vec<ReadOutcome>) -> (r: WifiInfo)
    ensures
        r.wifi_ssid@ == slot_model(FieldName::WifiSsid, reads@, 0),
        r.wifi_password@ == slot_model(FieldName::WifiPassword, reads@, 1),
{
    WifiInfo {
        wifi_ssid: slot(FieldName::WifiSsid, reads, 0),
        wifi_password: slot(FieldName::WifiPassword, reads, 1),
    }
}

/// Packages the reads of [`factory_fields`], in that order, into a record.
pub fn assemble_factory_info(reads: &Vec<ReadOutcome>) -> (r: FactoryInfo)
    ensures
        r.hw_revision@ == slot_model(FieldName::HwRevision, reads@, 0),
        r.fw_revision@ == slot_model(FieldName::FwRevision, reads@, 1),
        r.sw_revision@ == slot_model(FieldName::SwRevision, reads@, 2),
        r.serial_number@ == slot_model(FieldName::SerialNumber, reads@, 3),
        r.model_number@ == slot_model(FieldName::ModelNumber, reads@, 4),
        r.manufacturer_name@ == slot_model(FieldName::ManufacturerName, reads@, 5),
{
    FactoryInfo {
        hw_revision: slot(FieldName::HwRevision, reads, 0),
        fw_revision: slot(FieldName::FwRevision, reads, 1),
        sw_revision: slot(FieldName::SwRevision, reads, 2),
        serial_number: slot(FieldName::SerialNumber, reads, 3),
        model_number: slot(FieldName::ModelNumber, reads, 4),
        manufacturer_name: slot(FieldName::ManufacturerName, reads, 5),
    }
}

/// Packages the reads of [`status_fields`], in that order, into a record.
pub fn assemble_status_info(reads: &Vec<ReadOutcome>) -> (r: StatusInfo)
    ensures
        r.battery_level@ == slot_model(FieldName::BatteryLevel, reads@, 0),
        r.tx_power_level@ == slot_model(FieldName::TxPowerLevel, reads@, 1),
{
    StatusInfo {
        battery_level: slot(FieldName::BatteryLevel, reads, 0),
        tx_power_level: slot(FieldName::TxPowerLevel, reads, 1),
    }
}

/// Packages the reads of [`camera_fields`], in that order, into a record.
pub fn assemble_camera_info(reads: &Vec<ReadOutcome>) -> (r: CameraInfo)
    ensures
        r.hw_revision@ == slot_model(FieldName::HwRevision, reads@, 0),
        r.fw_revision@ == slot_model(FieldName::FwRevision, reads@, 1),
        r.sw_revision@ == slot_model(FieldName::SwRevision, reads@, 2),
        r.serial_number@ == slot_model(FieldName::SerialNumber, reads@, 3),
        r.model_number@ == slot_model(FieldName::ModelNumber, reads@, 4),
        r.manufacturer_name@ == slot_model(FieldName::ManufacturerName, reads@, 5),
        r.wifi_ssid@ == slot_model(FieldName::WifiSsid, reads@, 6),
        r.wifi_password@ == slot_model(FieldName::WifiPassword, reads@, 7),
{
    CameraInfo {
        hw_revision: slot(FieldName::HwRevision, reads, 0),
        fw_revision: slot(FieldName::FwRevision, reads, 1),
        sw_revision: slot(FieldName::SwRevision, reads, 2),
        serial_number: slot(FieldName::SerialNumber, reads, 3),
        model_number: slot(FieldName::ModelNumber, reads, 4),
        manufacturer_name: slot(FieldName::ManufacturerName, reads, 5),
        wifi_ssid: slot(FieldName::WifiSsid, reads, 6),
        wifi_password: slot(FieldName::WifiPassword, reads, 7),
    }
}

/// Picks the camera among the scanned peripherals' advertised names, or
/// fails the retrieval with `DiscoveryFailed` when none matches.
pub fn locate_camera(names: &Vec<Option<String>>, filter: &NameFilter) -> (r: Result<
    usize,
    RetrievalError,
>)
    ensures
        match r {
            Ok(k) => {
                &&& k < names@.len()
                &&& filter.selects(names@[k as int])
                &&& forall|i: int| 0 <= i < k ==> !filter.selects(#[trigger] names@[i])
            },
            Err(e) => {
                &&& e == RetrievalError::DiscoveryFailed
                &&& forall|i: int| 0 <= i < names@.len() ==> !filter.selects(#[trigger] names@[i])
            },
        },
{
    match find_device(names, filter) {
        Some(k) => Ok(k),
        None => Err(RetrievalError::DiscoveryFailed),
    }
}

/// A read that fails or does not decode leaves only its own field "not
/// available": every other field of the record is what its own read gives.
pub proof fn lemma_failed_read_is_isolated(
    reads: Seq<ReadOutcome>,
    i: int,
    cause: ReadError,
    field: FieldName,
    j: int,
)
    requires
        0 <= i < reads.len(),
        j != i,
    ensures
        slot_model(field, reads.update(i, Err(cause)), i) == FieldModel::NotAvailable,
        slot_model(field, reads.update(i, Err(cause)), j) == slot_model(field, reads, j),
{
}

} // verus!
