pub mod discovery;
pub mod errors;
pub mod reading;
pub mod scan;

pub use discovery::{
    contains_marker, find_by_name, find_characteristic, select_adapter,
    ADVERTISED_SERVICE_UUID, CURRENT_READINGS_CHARACTERISTIC,
};
pub use errors::{ConnectionError, DeviceError};
pub use reading::{encode_data, parse_data, parse_data_at, DecodeError, SensorData};
pub use scan::{
    handle_advertisement, process_manufacturer_event, ScanResult, WatermarkTable,
    ADVERTISEMENT_HEADER_LEN, MANUFACTURER_CODE,
};
