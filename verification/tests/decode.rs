use tablet_link::events::{DecodeError, Event};

fn padded(prefix: &[u8]) -> Vec<u8> {
    let mut v = prefix.to_vec();
    while v.len() < 10 {
        v.push(0);
    }
    v
}

#[test]
fn short_buffer_fails() {
    assert_eq!(Event::parse(&[]), Err(DecodeError::BufferTooShort));
    assert_eq!(Event::parse(&[0x02]), Err(DecodeError::BufferTooShort));
    assert_eq!(
        Event::parse(&[0x02, 0xf2, 0, 0, 0, 0, 0, 0, 0]),
        Err(DecodeError::BufferTooShort)
    );
}

#[test]
fn wrong_report_type_fails() {
    assert_eq!(
        Event::parse(&padded(&[0x00, 0xf2])),
        Err(DecodeError::InvalidReportType)
    );
    assert_eq!(
        Event::parse(&padded(&[0x01, 0xf2])),
        Err(DecodeError::InvalidReportType)
    );
    assert_eq!(
        Event::parse(&padded(&[0xff, 0xa0])),
        Err(DecodeError::InvalidReportType)
    );
}

#[test]
fn battery_status_decodes() {
    assert_eq!(
        Event::parse(&padded(&[0x02, 0xf2, 0x00, 0x37, 0x01])),
        Ok(Event::BatteryStatus {
            level: 0x37,
            charging: true
        })
    );
    assert_eq!(
        Event::parse(&padded(&[0x02, 0xf2, 0x00, 0x64, 0x00])),
        Ok(Event::BatteryStatus {
            level: 100,
            charging: false
        })
    );
}

#[test]
fn shortcut_buttons_decode() {
    assert_eq!(
        Event::parse(&padded(&[0x02, 0xf0, 0b0000_0101])),
        Ok(Event::ShortcutButtons {
            buttons: 0b0000_0101
        })
    );
    assert_eq!(
        Event::parse(&padded(&[0x02, 0xf0, 0x00])),
        Ok(Event::ShortcutButtons { buttons: 0 })
    );
}

#[test]
fn stylus_decodes_flags_and_fields() {
    // selector 0xa5: low bits 101 -> tip pressed, lower released, upper pressed
    let buf = [
        0x02, 0xa5, 0x34, 0x12, 0x78, 0x56, 0x10, 0x20, 0x05, 0xfb,
    ];
    assert_eq!(
        Event::parse(&buf),
        Ok(Event::Stylus {
            tip_pressed: true,
            lower_button: false,
            upper_button: true,
            x_pos: 0x1234,
            y_pos: 0x5678,
            // raw pressure 0x2010 little-endian minus the 8192 bias
            tip_pressure: 0x2010 - 8192,
            tilt_x: 5,
            tilt_y: -5,
        })
    );
}

#[test]
fn stylus_all_flags_released() {
    let buf = [0x02, 0xa0, 0x00, 0x00, 0x00, 0x00, 0x00, 0x20, 0x00, 0x00];
    assert_eq!(
        Event::parse(&buf),
        Ok(Event::Stylus {
            tip_pressed: false,
            lower_button: false,
            upper_button: false,
            x_pos: 0,
            y_pos: 0,
            tip_pressure: 0,
            tilt_x: 0,
            tilt_y: 0,
        })
    );
}

#[test]
fn stylus_pressure_below_bias_saturates_to_zero() {
    // raw pressure 0x1000 = 4096 < 8192: saturates, no wraparound
    let buf = [0x02, 0xa1, 0x00, 0x00, 0x00, 0x00, 0x00, 0x10, 0x00, 0x00];
    match Event::parse(&buf) {
        Ok(Event::Stylus { tip_pressure, .. }) => assert_eq!(tip_pressure, 0),
        other => panic!("expected stylus event, got {:?}", other),
    }
}

#[test]
fn stylus_tilt_is_twos_complement() {
    let buf = [0x02, 0xa0, 0x00, 0x00, 0x00, 0x00, 0x00, 0x20, 0xff, 0x80];
    match Event::parse(&buf) {
        Ok(Event::Stylus { tilt_x, tilt_y, .. }) => {
            assert_eq!(tilt_x, -1);
            assert_eq!(tilt_y, -128);
        }
        other => panic!("expected stylus event, got {:?}", other),
    }
}

#[test]
fn pen_left_decodes_positions() {
    assert_eq!(
        Event::parse(&padded(&[0x02, 0xc0, 0xcd, 0xab, 0x01, 0xff])),
        Ok(Event::PenLeft {
            x_pos: 0xabcd,
            y_pos: 0xff01
        })
    );
}

#[test]
fn wireless_adapter_status_decodes() {
    assert_eq!(
        Event::parse(&padded(&[0x02, 0xf8, 0b10])),
        Ok(Event::WirelessAdapterStatus { connected: true })
    );
    assert_eq!(
        Event::parse(&padded(&[0x02, 0xf8, 0b00])),
        Ok(Event::WirelessAdapterStatus { connected: false })
    );
    // other bits of the status byte do not matter
    assert_eq!(
        Event::parse(&padded(&[0x02, 0xf8, 0b1101])),
        Ok(Event::WirelessAdapterStatus { connected: false })
    );
}

#[test]
fn unhandled_selectors_fail() {
    for sel in [0x00u8, 0x9f, 0xa8, 0xc1, 0xf1, 0xf7, 0xf9, 0xff] {
        assert_eq!(
            Event::parse(&padded(&[0x02, sel])),
            Err(DecodeError::UnhandledReportSubtype),
            "selector {:#04x}",
            sel
        );
    }
}

#[test]
fn decoding_twice_gives_identical_results() {
    let buffers: [&[u8]; 5] = [
        &[],
        &[0x02, 0xf2, 0x00, 0x37, 0x01, 0, 0, 0, 0, 0],
        &[0x02, 0xa5, 0x34, 0x12, 0x78, 0x56, 0x10, 0x20, 0x05, 0xfb],
        &[0x03, 0xf2, 0x00, 0x37, 0x01, 0, 0, 0, 0, 0],
        &[0x02, 0x42, 0, 0, 0, 0, 0, 0, 0, 0],
    ];
    for buf in buffers {
        assert_eq!(Event::parse(buf), Event::parse(buf));
    }
}
