//! The retry discipline of the non-blocking transport.
//!
//! The transport wraps one readiness-pollable descriptor. Each read or write
//! is a loop: suspend until the readiness primitive reports the descriptor
//! ready, attempt one non-blocking syscall, and either deliver the result,
//! surface a real failure, or — on a would-block report — clear the readiness
//! flag and suspend again. The suspension and the syscall themselves live
//! outside this library; [`IoDriver`] is the state machine that dictates each
//! step, so the discipline itself is checked: an operation can complete only
//! after the descriptor reported ready at least once, and a would-block
//! report always routes back through the readiness wait, never into an error
//! and never into an attempt without a fresh readiness report.

use vstd::prelude::*;

verus! {

/// What one non-blocking syscall attempt reported.
#[derive(Clone, Copy, Debug, PartialEq, Eq, Structural)]
pub enum IoAttempt {
    /// The descriptor was not actually ready: the syscall failed with the
    /// would-block code.
    WouldBlock,
    /// The syscall failed with any other OS error code.
    OsFailure { code: i32 },
    /// The syscall transferred this many bytes (possibly zero, and possibly
    /// fewer than requested).
    Transferred { len: usize },
}

/// What the caller of the transport must do next.
#[derive(Clone, Copy, Debug, PartialEq, Eq, Structural)]
pub enum IoDirective {
    /// Clear the readiness flag, then suspend until the descriptor reports
    /// ready again.
    ClearReadyAndRewait,
    /// Surface the OS error; the operation is over.
    Fail { code: i32 },
    /// Deliver the transferred byte count; the operation is over.
    Complete { len: usize },
}

/// Where one read or write operation stands.
#[derive(Clone, Copy, Debug, PartialEq, Eq, Structural)]
pub enum IoPhase {
    /// Suspended until the readiness primitive reports the descriptor ready.
    AwaitingReadiness,
    /// Ready was reported; one syscall attempt may be made.
    ReadyToAttempt,
    /// The operation delivered a result or surfaced an error.
    Done,
}

/// Drives one read or write operation over a non-blocking descriptor.
pub struct IoDriver {
    pub phase: IoPhase,
    /// How often the readiness primitive reported ready during this
    /// operation (saturating).
    pub readiness_count: u64,
}

impl IoDriver {
    /// A syscall attempt or a completed operation is only reachable after
    /// the readiness primitive reported ready at least once.
    pub open spec fn wf(self) -> bool {
        self.phase != IoPhase::AwaitingReadiness ==> self.readiness_count >= 1
    }

    /// Start one read or write operation: first suspend for readiness.
    pub fn new() -> (d: IoDriver)
        ensures
            d.phase == IoPhase::AwaitingReadiness,
            d.readiness_count == 0,
            d.wf(),
    {
        IoDriver { phase: IoPhase::AwaitingReadiness, readiness_count: 0 }
    }

    /// The readiness primitive reported the descriptor ready: one syscall
    /// attempt may now be made.
    pub fn on_ready(&mut self)
        requires
            old(self).phase == IoPhase::AwaitingReadiness,
            old(self).wf(),
        ensures
            final(self).phase == IoPhase::ReadyToAttempt,
            final(self).readiness_count == (if old(self).readiness_count < u64::MAX {
                old(self).readiness_count + 1
            } else {
                u64::MAX as int
            }),
            final(self).readiness_count >= 1,
            final(self).wf(),
    {
        if self.readiness_count < u64::MAX {
            self.readiness_count = self.readiness_count + 1;
        }
        self.phase = IoPhase::ReadyToAttempt;
    }

    /// Decide the next step from what the syscall attempt reported: a
    /// would-block report re-suspends (after clearing the readiness flag,
    /// so the next attempt waits for a fresh report rather than spinning);
    /// any other failure surfaces its OS code; a transfer completes the
    /// operation with the byte count the OS reported.
    pub fn on_attempt(&mut self, attempt: IoAttempt) -> (r: IoDirective)
        requires
            old(self).phase == IoPhase::ReadyToAttempt,
            old(self).wf(),
        ensures
            final(self).readiness_count == old(self).readiness_count,
            final(self).wf(),
            attempt == IoAttempt::WouldBlock ==> r == IoDirective::ClearReadyAndRewait
                && final(self).phase == IoPhase::AwaitingReadiness,
            forall|code: i32|
                attempt == (IoAttempt::OsFailure { code }) ==> r == (IoDirective::Fail { code })
                    && final(self).phase == IoPhase::Done,
            forall|len: usize|
                attempt == (IoAttempt::Transferred { len }) ==> r == (IoDirective::Complete {
                    len,
                }) && final(self).phase == IoPhase::Done,
    {
        match attempt {
            IoAttempt::WouldBlock => {
                self.phase = IoPhase::AwaitingReadiness;
                IoDirective::ClearReadyAndRewait
            },
            IoAttempt::OsFailure { code } => {
                self.phase = IoPhase::Done;
                IoDirective::Fail { code }
            },
            IoAttempt::Transferred { len } => {
                self.phase = IoPhase::Done;
                IoDirective::Complete { len }
            },
        }
    }
}

/// Classify the raw return of a non-blocking read or write syscall: a
/// non-negative return is the transferred byte count; a negative return is
/// a would-block report when the captured error code is the would-block
/// code, and a real OS failure otherwise.
pub fn classify_attempt(ret: isize, err_code: i32, would_block_code: i32) -> (r: IoAttempt)
    ensures
        ret >= 0 ==> r == (IoAttempt::Transferred { len: ret as usize }),
        ret < 0 && err_code == would_block_code ==> r == IoAttempt::WouldBlock,
        ret < 0 && err_code != would_block_code ==> r == (IoAttempt::OsFailure { code: err_code }),
{
    if ret >= 0 {
        IoAttempt::Transferred { len: ret as usize }
    } else if err_code == would_block_code {
        IoAttempt::WouldBlock
    } else {
        IoAttempt::OsFailure { code: err_code }
    }
}

/// A read or write operation never completes before the readiness primitive
/// reported the descriptor ready at least once.
pub proof fn lemma_done_needs_readiness(d: IoDriver)
    requires
        d.wf(),
        d.phase == IoPhase::Done,
    ensures
        d.readiness_count >= 1,
{
}

} // verus!
