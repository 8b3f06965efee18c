use shelly_blu::decoder::{parse_bthome_data, parse_bthome_service_data, ServiceDataEvent};

#[test]
fn decode_empty_leaves_every_field_unset() {
    let r = parse_bthome_data(&[]);
    assert_eq!(r.motion, None);
    assert_eq!(r.illuminance, None);
    assert_eq!(r.battery, None);
    assert_eq!(r.button_event, None);
}

#[test]
fn decode_battery() {
    let r = parse_bthome_data(&[0x01, 0x55]);
    assert_eq!(r.battery, Some(0x55));
    assert_eq!(r.motion, None);
    assert_eq!(r.illuminance, None);
    assert_eq!(r.button_event, None);
}

#[test]
fn decode_illuminance() {
    let r = parse_bthome_data(&[0x05, 0x10, 0x02, 0x00]);
    assert_eq!(r.illuminance, Some(0x0210));
    let lux = r.illuminance.unwrap() as f32 * 0.01;
    assert!((lux - 5.28).abs() < 1e-5);
    assert_eq!(r.motion, None);
    assert_eq!(r.battery, None);
    assert_eq!(r.button_event, None);
}

#[test]
fn decode_motion_true_and_false() {
    let r = parse_bthome_data(&[0x21, 0x01]);
    assert_eq!(r.motion, Some(true));
    let r = parse_bthome_data(&[0x21, 0x00]);
    assert_eq!(r.motion, Some(false));
    let r = parse_bthome_data(&[0x21, 0x7F]);
    assert_eq!(r.motion, Some(true));
}

#[test]
fn decode_button_event() {
    let r = parse_bthome_data(&[0x3A, 0x01, 0x02]);
    assert_eq!(r.button_event, Some(513));
    assert_eq!(r.motion, None);
    assert_eq!(r.illuminance, None);
    assert_eq!(r.battery, None);
}

#[test]
fn decode_resynchronizes_after_unknown_tag() {
    let r = parse_bthome_data(&[0x99, 0xFF, 0x01, 0x2A]);
    assert_eq!(r.battery, Some(42));
    assert_eq!(r.motion, None);
    assert_eq!(r.illuminance, None);
    assert_eq!(r.button_event, None);
}

#[test]
fn decode_skips_packet_counter() {
    let r = parse_bthome_data(&[0x00, 0x07, 0x01, 0x55]);
    assert_eq!(r.battery, Some(0x55));
    assert_eq!(r.motion, None);
}

#[test]
fn decode_leaves_truncated_battery_unset() {
    let r = parse_bthome_data(&[0x01]);
    assert_eq!(r.battery, None);
}

#[test]
fn decode_leaves_truncated_illuminance_unset() {
    let r = parse_bthome_data(&[0x05, 0x10, 0x02]);
    assert_eq!(r.illuminance, None);
}

#[test]
fn decode_leaves_truncated_button_event_unset() {
    let r = parse_bthome_data(&[0x3A, 0x01]);
    assert_eq!(r.button_event, None);
}

#[test]
fn decode_gathers_every_field_of_one_stream() {
    let data = vec![
        0x00, 0x4E, // packet counter, not retained
        0x01, 0x5A, // battery
        0x05, 0x10, 0x02, 0x00, // illuminance
        0x21, 0x01, // motion
        0x3A, 0x01, 0x02, // button event
    ];
    let r = parse_bthome_data(&data);
    assert_eq!(r.battery, Some(0x5A));
    assert_eq!(r.illuminance, Some(528));
    assert_eq!(r.motion, Some(true));
    assert_eq!(r.button_event, Some(513));
}

#[test]
fn decode_keeps_the_last_of_repeated_fields() {
    let r = parse_bthome_data(&[0x01, 0x10, 0x01, 0x20]);
    assert_eq!(r.battery, Some(0x20));
}

#[test]
fn decode_terminates_on_arbitrary_bytes() {
    // A deterministic pseudo-random stream of every length up to 64:
    // decoding must terminate and return a (possibly all-unset) record.
    let mut state: u32 = 0x1234_5678;
    for len in 0..64usize {
        let mut data = Vec::new();
        for _ in 0..len {
            state = state.wrapping_mul(1664525).wrapping_add(1013904223);
            data.push((state >> 24) as u8);
        }
        let _ = parse_bthome_data(&data);
    }
}

#[test]
fn service_data_events_in_scan_order() {
    let events = parse_bthome_service_data(&[0x00, 0x07, 0x01, 0x55, 0x21, 0x01, 0x99]);
    assert_eq!(
        events,
        vec![
            ServiceDataEvent::PacketId(7),
            ServiceDataEvent::Battery(0x55),
            ServiceDataEvent::Motion(true),
            ServiceDataEvent::Unknown(0x99),
        ]
    );
}

#[test]
fn service_data_illuminance() {
    let events = parse_bthome_service_data(&[0x05, 0x10, 0x02, 0x00]);
    assert_eq!(events, vec![ServiceDataEvent::Illuminance(528)]);
}

#[test]
fn service_data_truncated_illuminance_rescans_its_bytes() {
    let events = parse_bthome_service_data(&[0x05, 0x10, 0x02]);
    assert_eq!(events, vec![ServiceDataEvent::Unknown(0x10)]);
}

#[test]
fn service_data_treats_button_event_tag_as_unknown() {
    let events = parse_bthome_service_data(&[0x3A, 0x01, 0x02]);
    assert_eq!(
        events,
        vec![ServiceDataEvent::Unknown(0x3A), ServiceDataEvent::Unknown(0x02)]
    );
}

#[test]
fn service_data_empty() {
    let events = parse_bthome_service_data(&[]);
    assert!(events.is_empty());
}
