/// protocol-defined enumerations
pub mod enums;
/// object variations
pub mod variations;
/// conversions of objects into measurements
pub mod conversion;
