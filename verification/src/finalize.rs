//! The finalizer: deadline selection for the encoder's blocking finalization
//! call, classification of how the bounded wait ended, and the one flag flip
//! that gates delivery.

use vstd::prelude::*;
use crate::session::SessionContext;

verus! {

/// How the bounded wait on the finalization thread's completion signal ended.
#[derive(Clone, Copy, Debug, PartialEq, Eq, Structural)]
pub enum FinalizeWait {
    /// The finalization call returned before the deadline; the payload says
    /// whether it returned success.
    Finished(bool),
    /// The deadline elapsed first. The finalization thread is abandoned — it
    /// may still be running inside the encoder — and the artifact file's
    /// on-disk state is trusted as ground truth.
    TimedOut,
}

/// The outcome the finalizer reports.
#[derive(Clone, Copy, Debug, PartialEq, Eq, Structural)]
pub enum FinalizeOutcome {
    /// Graceful finalization succeeded.
    Completed,
    /// The deadline elapsed; the artifact holds whatever was flushed.
    PartialTimeout,
    /// The finalization call returned an error; non-fatal to the stop flow.
    Error,
}

/// An artifact file larger than this before finalization begins already
/// holds substantial flushed content and is likely usable as it stands.
pub const USABLE_DATA_THRESHOLD_BYTES: u64 = 1048576;

/// A file with substantial flushed data warrants only a short wait.
pub const SHORT_FINALIZE_DEADLINE_MS: u64 = 5000;

/// A file still in need of finalization warrants a longer wait.
pub const LONG_FINALIZE_DEADLINE_MS: u64 = 10000;

/// Pick the finalization deadline from the artifact file's size before
/// finalization begins: short when the file already holds more than
/// `USABLE_DATA_THRESHOLD_BYTES`, long otherwise.
pub fn finalize_deadline_ms(pre_finalize_size: u64) -> (deadline: u64)
    ensures
        deadline == if pre_finalize_size > USABLE_DATA_THRESHOLD_BYTES {
            SHORT_FINALIZE_DEADLINE_MS
        } else {
            LONG_FINALIZE_DEADLINE_MS
        },
{
    if pre_finalize_size > USABLE_DATA_THRESHOLD_BYTES {
        SHORT_FINALIZE_DEADLINE_MS
    } else {
        LONG_FINALIZE_DEADLINE_MS
    }
}

/// Classify how the bounded wait ended.
pub fn classify_finalize(wait: FinalizeWait) -> (outcome: FinalizeOutcome)
    ensures
        outcome == spec_classify_finalize(wait),
{
    match wait {
        FinalizeWait::Finished(true) => FinalizeOutcome::Completed,
        FinalizeWait::Finished(false) => FinalizeOutcome::Error,
        FinalizeWait::TimedOut => FinalizeOutcome::PartialTimeout,
    }
}

pub open spec fn spec_classify_finalize(wait: FinalizeWait) -> FinalizeOutcome {
    match wait {
        FinalizeWait::Finished(ok) => if ok {
            FinalizeOutcome::Completed
        } else {
            FinalizeOutcome::Error
        },
        FinalizeWait::TimedOut => FinalizeOutcome::PartialTimeout,
    }
}

/// Whether delivery may proceed after finalization: every outcome — success,
/// error, or timeout — is accepted, and a missing or empty artifact file is
/// the only hard failure.
pub fn delivery_may_proceed(outcome: FinalizeOutcome, file_size: u64) -> (proceed: bool)
    ensures
        proceed == (file_size > 0),
{
    file_size > 0
}

impl SessionContext {
    /// Conclude finalization: whatever the outcome, `encoding_finished` flips
    /// true. This flag, not the finalization call's return value, gates
    /// delivery readiness downstream.
    pub fn conclude_finalize(&mut self, outcome: FinalizeOutcome)
        requires
            old(self).wf(),
        ensures
            final(self).wf(),
            final(self).encoding_finished,
            final(self).status == old(self).status,
            final(self).should_stop == old(self).should_stop,
            final(self).encoder_active == old(self).encoder_active,
            final(self).artifact == old(self).artifact,
            final(self).samples@ == old(self).samples@,
            final(self).clicks == old(self).clicks,
            final(self).server_ports@ == old(self).server_ports@,
            final(self).mmap_held == old(self).mmap_held,
            final(self).origin_x == old(self).origin_x,
            final(self).origin_y == old(self).origin_y,
            final(self).next_serial == old(self).next_serial,
    {
        self.encoding_finished = true;
    }
}

} // verus!
