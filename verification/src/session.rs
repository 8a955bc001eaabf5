//! The session state machine around one transport.
//!
//! A session starts with the device in an unmanaged mode. A fixed ten-byte
//! control write switches it to managed mode, in which it emits the
//! structured reports the decoder understands. The session then loops:
//! read one buffer, decode it, emit the event. Decode failures are reported
//! and the loop continues; read or write failures are fatal to the session.
//! Whenever a decoded report says the wireless adapter (re)connected, the
//! device has fallen back to unmanaged mode and the control write must be
//! re-issued before the loop continues.

use vstd::prelude::*;

use crate::events::{spec_decode, DecodeError, Event};

verus! {

/// A session-fatal failure.
#[derive(Clone, Copy, Debug, PartialEq, Eq, Structural)]
pub enum SessionError {
    /// A read, write or open syscall failed with this OS error code
    /// (would-block never surfaces here: the transport absorbs it).
    OsError { code: i32 },
    /// The managed-mode control write was only partially accepted, leaving
    /// the device in an unknown mode.
    HandshakeIncomplete,
    /// A precondition of the session did not hold: the device reports
    /// itself not connected.
    ProtocolPreconditionFailed,
}

/// Whether the device has been switched to managed mode.
#[derive(Clone, Copy, Debug, PartialEq, Eq, Structural)]
pub enum SessionMode {
    /// Initial state, and the state after the wireless adapter reconnects:
    /// the control write must be (re-)issued.
    Unmanaged,
    /// The handshake went through; the device emits structured reports.
    Managed,
}

/// What the session decides about one report buffer.
#[derive(Clone, Copy, Debug, PartialEq, Eq)]
pub struct ReportOutcome {
    /// The decoded event, or the per-report error; either way the session
    /// continues.
    pub decoded: Result<Event, DecodeError>,
    /// The report says the wireless adapter (re)connected, which resets the
    /// device's mode: the handshake must be re-issued before the next read.
    pub rehandshake: bool,
}

/// The number of bytes of the managed-mode control write.
pub const MANAGED_COMMAND_LEN: usize = 10;

/// The bytes of the managed-mode control write.
pub open spec fn spec_managed_command() -> Seq<u8> {
    seq![0x02u8, 0xb0, 0x04, 0x00, 0x00, 0x00, 0x00, 0x00, 0x00, 0x00]
}

/// The fixed ten-byte control write that switches the device to managed
/// mode.
pub fn switch_to_managed_command() -> (r: Vec<u8>)
    ensures
        r@ == spec_managed_command(),
        r@.len() == MANAGED_COMMAND_LEN,
{
    let mut v: Vec<u8> = Vec::new();
    v.push(0x02);
    v.push(0xb0);
    v.push(0x04);
    v.push(0x00);
    v.push(0x00);
    v.push(0x00);
    v.push(0x00);
    v.push(0x00);
    v.push(0x00);
    v.push(0x00);
    proof {
        assert(v@ =~= spec_managed_command());
    }
    v
}

/// Whether a decoded report forces the handshake to be re-issued: exactly a
/// wireless-adapter report saying the adapter is connected.
pub open spec fn spec_forces_rehandshake(d: Result<Event, DecodeError>) -> bool {
    d == Ok::<Event, DecodeError>(Event::WirelessAdapterStatus { connected: true })
}

/// One session over one transport.
pub struct Session {
    pub mode: SessionMode,
}

impl Session {
    /// A fresh session: the device starts unmanaged.
    pub fn new() -> (s: Session)
        ensures
            s.mode == SessionMode::Unmanaged,
    {
        Session { mode: SessionMode::Unmanaged }
    }

    /// Gate at session start: the device must report itself connected
    /// before anything is written to it.
    pub fn check_connected(connected: bool) -> (r: Result<(), SessionError>)
        ensures
            connected ==> r == Ok::<(), SessionError>(()),
            !connected ==> r == Err::<(), SessionError>(SessionError::ProtocolPreconditionFailed),
    {
        if connected {
            Ok(())
        } else {
            Err(SessionError::ProtocolPreconditionFailed)
        }
    }

    /// Judge the managed-mode control write by the byte count the transport
    /// accepted: only the full command switches the device, so any other
    /// count is a failed handshake, never silently treated as success.
    pub fn on_handshake_written(&mut self, written: usize) -> (r: Result<(), SessionError>)
        ensures
            written == MANAGED_COMMAND_LEN ==> r == Ok::<(), SessionError>(()) && final(self).mode
                == SessionMode::Managed,
            written != MANAGED_COMMAND_LEN ==> r == Err::<(), SessionError>(
                SessionError::HandshakeIncomplete,
            ) && final(self).mode == old(self).mode,
    {
        if written == MANAGED_COMMAND_LEN {
            self.mode = SessionMode::Managed;
            Ok(())
        } else {
            Err(SessionError::HandshakeIncomplete)
        }
    }

    /// Decode one report buffer and decide how the loop goes on: the decoded
    /// event (or per-report error) is emitted either way, and exactly a
    /// report of the wireless adapter connecting demands a re-handshake,
    /// which resets the session to unmanaged until the control write is
    /// re-issued.
    pub fn on_report(&mut self, buf: &[u8]) -> (r: ReportOutcome)
        requires
            old(self).mode == SessionMode::Managed,
        ensures
            r.decoded == spec_decode(buf@),
            r.rehandshake == spec_forces_rehandshake(spec_decode(buf@)),
            r.rehandshake ==> final(self).mode == SessionMode::Unmanaged,
            !r.rehandshake ==> final(self).mode == old(self).mode,
    {
        let decoded = Event::parse(buf);
        let rehandshake = match decoded {
            Ok(Event::WirelessAdapterStatus { connected }) => connected,
            _ => false,
        };
        if rehandshake {
            self.mode = SessionMode::Unmanaged;
        }
        ReportOutcome { decoded, rehandshake }
    }
}

} // verus!
