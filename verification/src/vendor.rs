//! Vendor record selection and the composed advertisement decode:
//! pick the recognized vendor's payload out of a manufacturer-data
//! mapping, validate its length, and hand it to the field decoder and
//! the identity extractor.

use std::collections::HashMap;
use vstd::prelude::*;
use crate::decoder::{parse_bthome_data, spec_decode, BthomeFields};
use crate::identity::{extract_identity, spec_identity, MIN_IDENTITY_LEN};

verus! {

broadcast use vstd::std_specs::hash::group_hash_axioms;

/// The 16-bit manufacturer identifier of the recognized device family.
pub const SHELLY_VENDOR_ID: u16 = 2985;

/// One decoded advertisement of the recognized device family.
#[derive(Clone, Debug, PartialEq, Eq)]
pub struct SensorReading {
    /// Canonical identity: colon-separated upper-case hex pairs, the
    /// payload's last byte first.
    pub device_id: String,
    /// Motion flag: a nonzero data byte means motion.
    pub motion: Option<bool>,
    /// Raw 24-bit illuminance; the lux value is this times 0.01.
    pub illuminance: Option<u32>,
    /// Battery value, the raw byte taken verbatim.
    pub battery: Option<u8>,
    /// Button event code, a little-endian 16-bit value.
    pub button_event: Option<u16>,
}

/// The sensor fields of a reading, gathered back into one record.
pub open spec fn spec_reading_fields(r: SensorReading) -> BthomeFields {
    BthomeFields {
        motion: r.motion,
        illuminance: r.illuminance,
        battery: r.battery,
        button_event: r.button_event,
    }
}

/// Pick the recognized vendor's payload out of a manufacturer-data
/// mapping. Absent when the mapping lacks the recognized identifier,
/// and absent when the mapped payload is too short to hold a usable
/// identity, whatever other identifiers are present.
pub fn select_vendor_record<'a>(records: &'a HashMap<u16, Vec<u8>>) -> (r: Option<&'a Vec<u8>>)
    ensures
        match r {
            Some(payload) => records@.contains_key(SHELLY_VENDOR_ID)
                && payload@ == records@[SHELLY_VENDOR_ID]@
                && payload@.len() >= 8,
            None => !records@.contains_key(SHELLY_VENDOR_ID)
                || records@[SHELLY_VENDOR_ID]@.len() < 8,
        },
{
    match records.get(&SHELLY_VENDOR_ID) {
        Some(data) => {
            if data.len() < MIN_IDENTITY_LEN {
                None
            } else {
                Some(data)
            }
        },
        None => None,
    }
}

/// Decode the recognized vendor's record out of a manufacturer-data
/// mapping: absent when no usable record is present; otherwise the
/// identity of its trailing bytes together with the decoded fields.
pub fn parse_shelly_blu_motion(manufacturer_data: &HashMap<u16, Vec<u8>>) -> (r: Option<
    SensorReading,
>)
    ensures
        match r {
            Some(reading) => {
                &&& manufacturer_data@.contains_key(SHELLY_VENDOR_ID)
                &&& manufacturer_data@[SHELLY_VENDOR_ID]@.len() >= 8
                &&& reading.device_id@ == spec_identity(manufacturer_data@[SHELLY_VENDOR_ID]@)
                &&& spec_reading_fields(reading) == spec_decode(manufacturer_data@[SHELLY_VENDOR_ID]@)
            },
            None => !manufacturer_data@.contains_key(SHELLY_VENDOR_ID)
                || manufacturer_data@[SHELLY_VENDOR_ID]@.len() < 8,
        },
{
    match select_vendor_record(manufacturer_data) {
        Some(data) => {
            match extract_identity(data.as_slice()) {
                Some(device_id) => {
                    let fields = parse_bthome_data(data.as_slice());
                    Some(
                        SensorReading {
                            device_id,
                            motion: fields.motion,
                            illuminance: fields.illuminance,
                            battery: fields.battery,
                            button_event: fields.button_event,
                        },
                    )
                },
                None => None,  // cannot happen: the payload is at least eight bytes
            }
        },
        None => None,
    }
}

} // verus!
