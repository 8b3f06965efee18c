//! Decoder for BTHome-style tag-value telemetry carried in BLE
//! advertisement payloads: typed sensor fields, device identity
//! derivation, and vendor record selection.

pub mod decoder;
pub mod identity;
pub mod vendor;
