//! The BTHome tag-value decoder: a tolerant, bounds-safe scan over an
//! immutable byte buffer, accumulating optional sensor fields.

use vstd::prelude::*;

verus! {

/// Tag byte of the packet counter field (one data byte, not retained).
pub const TAG_PACKET_ID: u8 = 0x00;

/// Tag byte of the battery field (one data byte, taken verbatim).
pub const TAG_BATTERY: u8 = 0x01;

/// Tag byte of the illuminance field (three data bytes, little-endian).
pub const TAG_ILLUMINANCE: u8 = 0x05;

/// Tag byte of the motion field (one data byte, nonzero means motion).
pub const TAG_MOTION: u8 = 0x21;

/// Tag byte of the button event field (two data bytes, little-endian).
pub const TAG_BUTTON_EVENT: u8 = 0x3A;

/// The decoded optional sensor fields of one tag-value stream.
///
/// Every field is either fully decoded at its fixed width or absent;
/// a truncated field is never surfaced partially.
#[derive(Clone, Copy, Debug, PartialEq, Eq)]
pub struct BthomeFields {
    /// Motion flag: a nonzero data byte means motion.
    pub motion: Option<bool>,
    /// Raw 24-bit illuminance; the lux value is this times 0.01.
    pub illuminance: Option<u32>,
    /// Battery value, the raw byte taken verbatim.
    pub battery: Option<u8>,
    /// Button event code, a little-endian 16-bit value.
    pub button_event: Option<u16>,
}

/// The record with every field absent.
pub open spec fn unset_fields() -> BthomeFields {
    BthomeFields { motion: None, illuminance: None, battery: None, button_event: None }
}

/// The little-endian 16-bit value read at offset `i`.
pub open spec fn spec_le16(data: Seq<u8>, i: int) -> u16
    recommends
        0 <= i,
        i + 1 < data.len(),
{
    (data[i] + data[i + 1] * 0x100) as u16
}

/// The little-endian 24-bit value read at offset `i`.
pub open spec fn spec_le24(data: Seq<u8>, i: int) -> u32
    recommends
        0 <= i,
        i + 2 < data.len(),
{
    (data[i] + data[i + 1] * 0x100 + data[i + 2] * 0x10000) as u32
}

/// The fields decoded from `data` when the scan stands at offset `i`
/// with `acc` already accumulated. Each step reads the tag byte at `i`
/// and, when enough bytes remain for the tag's fixed width, consumes
/// them and records the field; a truncated field is left unset. A tag
/// with no data byte left ends the scan; a tag whose multi-byte field
/// is truncated leaves the scan standing on the byte after the tag.
pub open spec fn spec_decode_from(data: Seq<u8>, i: nat, acc: BthomeFields) -> BthomeFields
    decreases data.len() - i,
{
    if i >= data.len() {
        acc
    } else {
        let tag = data[i as int];
        let j = (i + 1) as nat;
        if tag == TAG_BATTERY {
            if j < data.len() {
                spec_decode_from(
                    data,
                    (j + 1) as nat,
                    BthomeFields { battery: Some(data[j as int]), ..acc },
                )
            } else {
                acc
            }
        } else if tag == TAG_ILLUMINANCE {
            if j + 2 < data.len() {
                spec_decode_from(
                    data,
                    (j + 3) as nat,
                    BthomeFields { illuminance: Some(spec_le24(data, j as int)), ..acc },
                )
            } else {
                spec_decode_from(data, j, acc)
            }
        } else if tag == TAG_MOTION {
            if j < data.len() {
                spec_decode_from(
                    data,
                    (j + 1) as nat,
                    BthomeFields { motion: Some(data[j as int] != 0), ..acc },
                )
            } else {
                acc
            }
        } else if tag == TAG_BUTTON_EVENT {
            if j + 1 < data.len() {
                spec_decode_from(
                    data,
                    (j + 2) as nat,
                    BthomeFields { button_event: Some(spec_le16(data, j as int)), ..acc },
                )
            } else {
                spec_decode_from(data, j, acc)
            }
        } else {
            // The packet counter and every unrecognized tag skip one
            // data byte, for best-effort resynchronization.
            if j < data.len() {
                spec_decode_from(data, (j + 1) as nat, acc)
            } else {
                acc
            }
        }
    }
}

/// The fields decoded from a whole buffer.
pub open spec fn spec_decode(data: Seq<u8>) -> BthomeFields {
    spec_decode_from(data, 0, unset_fields())
}

/// Decode a BTHome tag-value stream into its optional sensor fields.
///
/// The scan never fails: missing, truncated or unknown-tagged bytes
/// only reduce the number of populated fields.
pub fn parse_bthome_data(data: &[u8]) -> (r: BthomeFields)
    ensures
        r == spec_decode(data@),
{
    let mut fields = BthomeFields {
        motion: None,
        illuminance: None,
        battery: None,
        button_event: None,
    };
    let mut i: usize = 0;
    while i < data.len()
        invariant
            i <= data.len(),
            spec_decode_from(data@, i as nat, fields) == spec_decode(data@),
        decreases data.len() - i,
    {
        let tag = data[i];
        i = i + 1;
        if tag == TAG_BATTERY {
            if i < data.len() {
                fields.battery = Some(data[i]);
                i = i + 1;
            }
        } else if tag == TAG_ILLUMINANCE {
            if data.len() - i > 2 {
                let raw: u32 = (data[i] as u32) + (data[i + 1] as u32) * 0x100 + (data[i + 2]
                    as u32) * 0x10000;
                fields.illuminance = Some(raw);
                i = i + 3;
            }
        } else if tag == TAG_MOTION {
            if i < data.len() {
                fields.motion = Some(data[i] != 0);
                i = i + 1;
            }
        } else if tag == TAG_BUTTON_EVENT {
            if data.len() - i > 1 {
                let raw: u16 = (data[i] as u16) + (data[i + 1] as u16) * 0x100;
                fields.button_event = Some(raw);
                i = i + 2;
            }
        } else {
            if i < data.len() {
                i = i + 1;
            }
        }
    }
    fields
}

/// One decoded field of a service-data stream, in scan order.
///
/// Unlike the manufacturer-data decode, the service-data scan keeps
/// the packet counter, reports every unrecognized tag, and knows no
/// button event: such a tag counts as unrecognized.
#[derive(Clone, Copy, Debug, PartialEq, Eq)]
pub enum ServiceDataEvent {
    /// Packet counter value.
    PacketId(u8),
    /// Battery value, the raw byte taken verbatim.
    Battery(u8),
    /// Raw 24-bit illuminance; the lux value is this times 0.01.
    Illuminance(u32),
    /// Motion flag: a nonzero data byte means motion.
    Motion(bool),
    /// An unrecognized tag byte, whose single assumed data byte is
    /// skipped when one is present.
    Unknown(u8),
}

/// The events of a service-data stream from offset `i` on. A known tag
/// whose fixed-width field fits yields its event and consumes the
/// field; a known tag whose field is truncated yields nothing for it;
/// an unrecognized tag always yields its event and skips at most one
/// byte.
pub open spec fn spec_service_events(data: Seq<u8>, i: nat) -> Seq<ServiceDataEvent>
    decreases data.len() - i,
{
    if i >= data.len() {
        Seq::empty()
    } else {
        let tag = data[i as int];
        let j = (i + 1) as nat;
        if tag == TAG_PACKET_ID {
            if j < data.len() {
                seq![ServiceDataEvent::PacketId(data[j as int])] + spec_service_events(
                    data,
                    (j + 1) as nat,
                )
            } else {
                Seq::empty()
            }
        } else if tag == TAG_BATTERY {
            if j < data.len() {
                seq![ServiceDataEvent::Battery(data[j as int])] + spec_service_events(
                    data,
                    (j + 1) as nat,
                )
            } else {
                Seq::empty()
            }
        } else if tag == TAG_ILLUMINANCE {
            if j + 2 < data.len() {
                seq![ServiceDataEvent::Illuminance(spec_le24(data, j as int))]
                    + spec_service_events(data, (j + 3) as nat)
            } else {
                spec_service_events(data, j)
            }
        } else if tag == TAG_MOTION {
            if j < data.len() {
                seq![ServiceDataEvent::Motion(data[j as int] != 0)] + spec_service_events(
                    data,
                    (j + 1) as nat,
                )
            } else {
                Seq::empty()
            }
        } else {
            if j < data.len() {
                seq![ServiceDataEvent::Unknown(tag)] + spec_service_events(data, (j + 1) as nat)
            } else {
                seq![ServiceDataEvent::Unknown(tag)]
            }
        }
    }
}

/// Decode a service-data tag-value stream into its events, in scan
/// order. Like the field decode, the scan never fails on missing,
/// truncated or unknown-tagged bytes.
pub fn parse_bthome_service_data(data: &[u8]) -> (r: Vec<ServiceDataEvent>)
    ensures
        r@ == spec_service_events(data@, 0),
{
    let mut events: Vec<ServiceDataEvent> = Vec::new();
    let mut i: usize = 0;
    while i < data.len()
        invariant
            i <= data.len(),
            events@ + spec_service_events(data@, i as nat) == spec_service_events(data@, 0),
        decreases data.len() - i,
    {
        let ghost prev = events@;
        let ghost at = i as nat;
        let tag = data[i];
        i = i + 1;
        if tag == TAG_PACKET_ID {
            if i < data.len() {
                events.push(ServiceDataEvent::PacketId(data[i]));
                i = i + 1;
            }
        } else if tag == TAG_BATTERY {
            if i < data.len() {
                events.push(ServiceDataEvent::Battery(data[i]));
                i = i + 1;
            }
        } else if tag == TAG_ILLUMINANCE {
            if data.len() - i > 2 {
                let raw: u32 = (data[i] as u32) + (data[i + 1] as u32) * 0x100 + (data[i + 2]
                    as u32) * 0x10000;
                events.push(ServiceDataEvent::Illuminance(raw));
                i = i + 3;
            }
        } else if tag == TAG_MOTION {
            if i < data.len() {
                events.push(ServiceDataEvent::Motion(data[i] != 0));
                i = i + 1;
            }
        } else {
            events.push(ServiceDataEvent::Unknown(tag));
            if i < data.len() {
                i = i + 1;
            }
        }
        proof {
            assert(events@ + spec_service_events(data@, i as nat) =~= prev + spec_service_events(
                data@,
                at,
            ));
        }
    }
    events
}

} // verus!
