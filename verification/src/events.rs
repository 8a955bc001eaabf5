//! Decoder for the tablet's fixed-layout binary reports.
//!
//! A report is a byte buffer of at least ten bytes. The first byte is a fixed
//! report-type marker, the second selects the field layout; multi-byte fields
//! are little-endian.

use vstd::prelude::*;

verus! {

/// One decoded report from the tablet.
#[derive(Clone, Copy, Debug, PartialEq, Eq, Structural)]
pub enum Event {
    /// Battery status update.
    BatteryStatus {
        /// Battery level, from 0 to 100.
        level: u8,
        charging: bool,
    },
    /// Shortcut button status: one bit per physical button.
    ShortcutButtons { buttons: u8 },
    /// Stylus movement update.
    Stylus {
        tip_pressed: bool,
        lower_button: bool,
        upper_button: bool,
        x_pos: u16,
        y_pos: u16,
        /// Raw pressure minus the device's fixed bias, saturating at zero.
        tip_pressure: u16,
        tilt_x: i8,
        tilt_y: i8,
    },
    /// The stylus moved out of proximity range.
    PenLeft { x_pos: u16, y_pos: u16 },
    /// Link state reported by the bundled USB wireless adapter.
    WirelessAdapterStatus { connected: bool },
}

/// Why a report buffer could not be decoded.
#[derive(Clone, Copy, Debug, PartialEq, Eq, Structural)]
pub enum DecodeError {
    /// The buffer holds fewer than ten bytes.
    BufferTooShort,
    /// The first byte is not the fixed report-type marker.
    InvalidReportType,
    /// The selector byte names no known field layout.
    UnhandledReportSubtype,
}

/// The fixed first byte of every well-formed report.
pub const REPORT_TYPE_MARKER: u8 = 2;

/// Every report carries at least this many bytes.
pub const MIN_REPORT_LEN: usize = 10;

/// The device reports tip pressure with this fixed additive bias.
pub const PRESSURE_BIAS: u16 = 8192;

/// The 16-bit value stored little-endian in two bytes.
pub open spec fn le16(lo: u8, hi: u8) -> u16 {
    (lo + hi * 256) as u16
}

/// The two's-complement signed reading of a byte.
pub open spec fn as_signed(b: u8) -> i8 {
    if b < 128 {
        b as i8
    } else {
        (b - 256) as i8
    }
}

/// Raw pressure corrected for the device's fixed bias; a raw value below the
/// bias saturates to zero rather than wrapping.
pub open spec fn corrected_pressure(raw: u16) -> u16 {
    if raw >= PRESSURE_BIAS {
        (raw - PRESSURE_BIAS) as u16
    } else {
        0u16
    }
}

/// The selector bytes that name a known field layout.
pub open spec fn known_selector(sel: u8) -> bool {
    sel == 0xf2 || sel == 0xf0 || (0xa0 <= sel && sel <= 0xa7) || sel == 0xc0 || sel == 0xf8
}

/// The decoded meaning of a report buffer: exactly one event variant per
/// well-formed buffer, or the error naming what is wrong with it.
pub open spec fn spec_decode(s: Seq<u8>) -> Result<Event, DecodeError> {
    if s.len() < MIN_REPORT_LEN {
        Err(DecodeError::BufferTooShort)
    } else if s[0] != REPORT_TYPE_MARKER {
        Err(DecodeError::InvalidReportType)
    } else if s[1] == 0xf2 {
        Ok(Event::BatteryStatus { level: s[3], charging: s[4] == 1 })
    } else if s[1] == 0xf0 {
        Ok(Event::ShortcutButtons { buttons: s[2] })
    } else if 0xa0 <= s[1] && s[1] <= 0xa7 {
        Ok(Event::Stylus {
            tip_pressed: s[1] & 0b001 != 0,
            lower_button: s[1] & 0b010 != 0,
            upper_button: s[1] & 0b100 != 0,
            x_pos: le16(s[2], s[3]),
            y_pos: le16(s[4], s[5]),
            tip_pressure: corrected_pressure(le16(s[6], s[7])),
            tilt_x: as_signed(s[8]),
            tilt_y: as_signed(s[9]),
        })
    } else if s[1] == 0xc0 {
        Ok(Event::PenLeft { x_pos: le16(s[2], s[3]), y_pos: le16(s[4], s[5]) })
    } else if s[1] == 0xf8 {
        Ok(Event::WirelessAdapterStatus { connected: s[2] & 0b10 != 0 })
    } else {
        Err(DecodeError::UnhandledReportSubtype)
    }
}

/// The 16-bit value stored little-endian in two bytes.
fn read_le16(lo: u8, hi: u8) -> (r: u16)
    ensures
        r == le16(lo, hi),
{
    lo as u16 + (hi as u16) * 256
}

/// The two's-complement signed reading of a byte.
fn read_signed(b: u8) -> (r: i8)
    ensures
        r == as_signed(b),
{
    if b < 128 {
        b as i8
    } else {
        ((b as i16) - 256) as i8
    }
}

/// Raw pressure corrected for the device's fixed bias, saturating at zero.
fn bias_corrected_pressure(raw: u16) -> (r: u16)
    ensures
        r == corrected_pressure(raw),
{
    if raw >= PRESSURE_BIAS {
        raw - PRESSURE_BIAS
    } else {
        0
    }
}

impl Event {
    /// Decode one report buffer into an event.
    ///
    /// Decoding reads the buffer alone: it never mutates its input, and equal
    /// buffers decode to equal results.
    pub fn parse(buf_slice: &[u8]) -> (r: Result<Event, DecodeError>)
        ensures
            r == spec_decode(buf_slice@),
            buf_slice@.len() < MIN_REPORT_LEN ==> r == Err::<Event, DecodeError>(
                DecodeError::BufferTooShort,
            ),
            buf_slice@.len() >= MIN_REPORT_LEN && buf_slice@[0] != REPORT_TYPE_MARKER ==> r
                == Err::<Event, DecodeError>(DecodeError::InvalidReportType),
            buf_slice@.len() >= MIN_REPORT_LEN && buf_slice@[0] == REPORT_TYPE_MARKER
                && !known_selector(buf_slice@[1]) ==> r == Err::<Event, DecodeError>(
                DecodeError::UnhandledReportSubtype,
            ),
    {
        if buf_slice.len() < MIN_REPORT_LEN {
            return Err(DecodeError::BufferTooShort);
        }
        let report_type: u8 = buf_slice[0];
        if report_type != REPORT_TYPE_MARKER {
            return Err(DecodeError::InvalidReportType);
        }
        let field_type: u8 = buf_slice[1];
        if field_type == 0xf2 {
            let level: u8 = buf_slice[3];
            let charging: bool = buf_slice[4] == 1;
            Ok(Event::BatteryStatus { level, charging })
        } else if field_type == 0xf0 {
            let buttons: u8 = buf_slice[2];
            Ok(Event::ShortcutButtons { buttons })
        } else if 0xa0 <= field_type && field_type <= 0xa7 {
            let tip_pressed = (field_type & 0b001) != 0;
            let lower_button = (field_type & 0b010) != 0;
            let upper_button = (field_type & 0b100) != 0;
            let x_pos = read_le16(buf_slice[2], buf_slice[3]);
            let y_pos = read_le16(buf_slice[4], buf_slice[5]);
            let tip_pressure = bias_corrected_pressure(read_le16(buf_slice[6], buf_slice[7]));
            let tilt_x = read_signed(buf_slice[8]);
            let tilt_y = read_signed(buf_slice[9]);
            Ok(Event::Stylus {
                tip_pressed,
                lower_button,
                upper_button,
                x_pos,
                y_pos,
                tip_pressure,
                tilt_x,
                tilt_y,
            })
        } else if field_type == 0xc0 {
            let x_pos = read_le16(buf_slice[2], buf_slice[3]);
            let y_pos = read_le16(buf_slice[4], buf_slice[5]);
            Ok(Event::PenLeft { x_pos, y_pos })
        } else if field_type == 0xf8 {
            let connected = (buf_slice[2] & 0b10) != 0;
            Ok(Event::WirelessAdapterStatus { connected })
        } else {
            Err(DecodeError::UnhandledReportSubtype)
        }
    }
}

/// Decoding succeeds — with exactly one event variant — if and only if the
/// buffer is long enough, opens with the report-type marker, and its
/// selector byte names a known field layout.
pub proof fn lemma_decode_total(s: Seq<u8>)
    ensures
        spec_decode(s) is Ok <==> (s.len() >= MIN_REPORT_LEN && s[0] == REPORT_TYPE_MARKER
            && known_selector(s[1])),
{
}

/// Decoding is a pure function of the buffer contents: equal buffers decode
/// to equal results, however often they are decoded.
pub proof fn lemma_decode_deterministic(a: Seq<u8>, b: Seq<u8>)
    requires
        a == b,
    ensures
        spec_decode(a) == spec_decode(b),
{
}

/// A stylus report whose selector has low bits one-zero-one decodes with the
/// tip pressed, the lower button released and the upper button pressed, and
/// with each numeric field read little-endian from its two bytes, the
/// pressure corrected for the fixed bias.
pub proof fn lemma_stylus_report(s: Seq<u8>)
    requires
        s.len() >= MIN_REPORT_LEN,
        s[0] == REPORT_TYPE_MARKER,
        s[1] == 0xa5,
    ensures
        spec_decode(s) == Ok::<Event, DecodeError>(
            Event::Stylus {
                tip_pressed: true,
                lower_button: false,
                upper_button: true,
                x_pos: le16(s[2], s[3]),
                y_pos: le16(s[4], s[5]),
                tip_pressure: corrected_pressure(le16(s[6], s[7])),
                tilt_x: as_signed(s[8]),
                tilt_y: as_signed(s[9]),
            },
        ),
{
    assert(0xa5u8 & 0b001 != 0) by (bit_vector);
    assert(0xa5u8 & 0b010 == 0) by (bit_vector);
    assert(0xa5u8 & 0b100 != 0) by (bit_vector);
}

/// A pen-left report decodes to the position read little-endian from its
/// two coordinate fields.
pub proof fn lemma_pen_left_report(s: Seq<u8>)
    requires
        s.len() >= MIN_REPORT_LEN,
        s[0] == REPORT_TYPE_MARKER,
        s[1] == 0xc0,
    ensures
        spec_decode(s) == Ok::<Event, DecodeError>(
            Event::PenLeft { x_pos: le16(s[2], s[3]), y_pos: le16(s[4], s[5]) },
        ),
{
}

/// A wireless-adapter report decodes to connected exactly when bit one of
/// its status byte is set.
pub proof fn lemma_wireless_adapter_report(s: Seq<u8>)
    requires
        s.len() >= MIN_REPORT_LEN,
        s[0] == REPORT_TYPE_MARKER,
        s[1] == 0xf8,
    ensures
        spec_decode(s) == Ok::<Event, DecodeError>(
            Event::WirelessAdapterStatus { connected: s[2] & 0b10 != 0 },
        ),
{
}

} // verus!
