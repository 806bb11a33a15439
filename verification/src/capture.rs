//! The capture worker: per-frame bookkeeping, the asymmetric encoding-error
//! policy, and the exclusive slot through which the encoder handle is handed
//! to the finalizer at most once.

use vstd::prelude::*;
use vstd::string::StringExecFns;
use crate::numerals::{dec_digits, u64_to_string};
use crate::session::{ArtifactDescriptor, SessionContext, SessionStatus};

verus! {

/// An exclusive-access cell: the value can be taken out at most once, and
/// taking it is the synchronization point for ownership transfer. The encoder
/// handle lives in one of these, so two concurrent holders are impossible by
/// construction.
pub struct ExclusiveSlot<T> {
    inner: Option<T>,
}

impl<T> ExclusiveSlot<T> {
    /// The slot's content.
    pub closed spec fn view(&self) -> Option<T> {
        self.inner
    }

    pub fn empty() -> (slot: ExclusiveSlot<T>)
        ensures
            slot@ is None,
    {
        ExclusiveSlot { inner: None }
    }

    pub fn holding(value: T) -> (slot: ExclusiveSlot<T>)
        ensures
            slot@ == Some(value),
    {
        ExclusiveSlot { inner: Some(value) }
    }

    pub fn is_full(&self) -> (full: bool)
        ensures
            full == (self@ is Some),
    {
        self.inner.is_some()
    }

    /// Move the value out. Afterwards the slot is empty, so a second take
    /// yields nothing: the handle has exactly one owner at any instant.
    pub fn take(&mut self) -> (value: Option<T>)
        ensures
            value == old(self)@,
            final(self)@ is None,
    {
        let mut taken: Option<T> = None;
        core::mem::swap(&mut taken, &mut self.inner);
        taken
    }
}

/// Encoding failures within the first frames of a session indicate
/// misconfiguration and abort it.
#[derive(Clone, Copy, Debug, PartialEq, Eq, Structural)]
pub enum EncodeError {
    EarlyFailure,
}

/// How many frames count as the session's early phase: a frame-forwarding
/// failure among them is fatal, a later one is tolerated.
pub const EARLY_FATAL_FRAME_LIMIT: u64 = 100;

/// A frame interval longer than this suggests a dropped frame.
pub const FRAME_DROP_INTERVAL_MS: u64 = 20;

/// How often the pointer is sampled, in milliseconds.
pub const SAMPLE_INTERVAL_MS: u64 = 16;

/// Per-session bookkeeping owned by the capture worker: frame and drop
/// counters and the cadence clocks for frames and pointer samples.
#[derive(Clone, Copy, Debug, PartialEq, Eq, Structural)]
pub struct CaptureWorker {
    pub frame_count: u64,
    pub dropped_frames: u64,
    pub last_frame_ms: u64,
    pub last_sample_ms: u64,
}

impl CaptureWorker {
    pub fn new(now_ms: u64) -> (w: CaptureWorker)
        ensures
            w.frame_count == 0,
            w.dropped_frames == 0,
            w.last_frame_ms == now_ms,
            w.last_sample_ms == now_ms,
    {
        CaptureWorker { frame_count: 0, dropped_frames: 0, last_frame_ms: now_ms, last_sample_ms: now_ms }
    }

    /// Account for one arrived frame: count it, and count a potential drop
    /// when the interval since the previous frame ran long.
    pub fn note_frame(&mut self, now_ms: u64)
        requires
            now_ms >= old(self).last_frame_ms,
            old(self).frame_count < u64::MAX,
            old(self).dropped_frames < u64::MAX,
        ensures
            final(self).frame_count == old(self).frame_count + 1,
            final(self).dropped_frames == old(self).dropped_frames + (
            if now_ms - old(self).last_frame_ms > FRAME_DROP_INTERVAL_MS {
                1int
            } else {
                0int
            }),
            final(self).last_frame_ms == now_ms,
            final(self).last_sample_ms == old(self).last_sample_ms,
    {
        if now_ms - self.last_frame_ms > FRAME_DROP_INTERVAL_MS {
            self.dropped_frames = self.dropped_frames + 1;
        }
        self.frame_count = self.frame_count + 1;
        self.last_frame_ms = now_ms;
    }

    /// The asymmetric encoding-error policy: a forwarding failure among the
    /// first `EARLY_FATAL_FRAME_LIMIT` frames is fatal and aborts the
    /// session; a later failure is tolerated (logged by the caller) and
    /// capture continues, since a long session already holds substantial
    /// content.
    pub fn judge_send_result(&self, send_ok: bool) -> (r: Result<(), EncodeError>)
        ensures
            r is Ok <==> (send_ok || self.frame_count >= EARLY_FATAL_FRAME_LIMIT),
            r is Err ==> r->Err_0 == EncodeError::EarlyFailure,
    {
        if send_ok || self.frame_count >= EARLY_FATAL_FRAME_LIMIT {
            Ok(())
        } else {
            Err(EncodeError::EarlyFailure)
        }
    }

    /// Whether a pointer sample is due at `now_ms` (sampling cadence of
    /// `SAMPLE_INTERVAL_MS`).
    pub fn sample_due(&self, now_ms: u64) -> (due: bool)
        requires
            now_ms >= self.last_sample_ms,
        ensures
            due == (now_ms - self.last_sample_ms >= SAMPLE_INTERVAL_MS),
    {
        now_ms - self.last_sample_ms >= SAMPLE_INTERVAL_MS
    }

    /// Reset the sampling clock after a sample was stored.
    pub fn mark_sampled(&mut self, now_ms: u64)
        ensures
            *final(self) == (CaptureWorker { last_sample_ms: now_ms, ..*old(self) }),
    {
        self.last_sample_ms = now_ms;
    }
}

/// The file name a session's artifact is stored under. The serial is unique
/// per session, so two sessions never collide on a path.
pub fn artifact_file_name(serial: u64) -> (name: String)
    ensures
        name@ == "screen_recording_"@ + dec_digits(serial as nat) + ".mp4"@,
{
    let mut name = "screen_recording_".to_owned();
    let digits = u64_to_string(serial);
    name.append(digits.as_str());
    name.append(".mp4");
    name
}

impl SessionContext {
    /// The capture worker's creation step: the armed session resets the
    /// stop/finished flags, records the artifact it will write (tagged with
    /// a fresh serial), and marks the encoder live.
    pub fn begin_capture(&mut self, path: String)
        requires
            old(self).wf(),
            old(self).status is Armed,
            old(self).next_serial < u64::MAX,
        ensures
            final(self).wf(),
            final(self).status is Armed,
            !final(self).should_stop,
            !final(self).encoding_finished,
            final(self).encoder_active,
            final(self).artifact is Some,
            final(self).artifact->Some_0.path == path,
            final(self).artifact->Some_0.serial == old(self).next_serial,
            final(self).artifact->Some_0.declared_size == 0,
            !final(self).artifact->Some_0.ready,
            final(self).next_serial == old(self).next_serial + 1,
            final(self).samples@ == old(self).samples@,
            final(self).clicks == old(self).clicks,
            final(self).server_ports@ == old(self).server_ports@,
            final(self).mmap_held == old(self).mmap_held,
            final(self).origin_x == old(self).origin_x,
            final(self).origin_y == old(self).origin_y,
    {
        self.should_stop = false;
        self.encoding_finished = false;
        self.artifact = Some(
            ArtifactDescriptor { path, serial: self.next_serial, declared_size: 0, ready: false },
        );
        self.next_serial = self.next_serial + 1;
        self.encoder_active = true;
    }

    /// The capture worker's first per-frame guard: a frame that arrives while
    /// no live encoder handle exists is ignored outright, so nothing can be
    /// forwarded after the handle has been detached.
    pub fn frame_should_process(&self) -> (process: bool)
        ensures
            process == self.encoder_active,
    {
        self.encoder_active
    }

    /// The capture worker's per-frame stop check. When the stop flag is set
    /// and the slot still holds the encoder, the handle is detached — no
    /// further frame can reach it — and returned for the finalizer, which
    /// the session's status now reflects. When the handle was already taken
    /// (a defensive double stop), finalization is simply marked concluded.
    /// Without the stop flag, nothing changes.
    pub fn observe_stop<T>(&mut self, slot: &mut ExclusiveSlot<T>) -> (taken: Option<T>)
        requires
            old(self).wf(),
        ensures
            final(self).wf(),
            !old(self).should_stop ==> taken is None && *final(self) == *old(self) && final(slot)@
                == old(slot)@,
            old(self).should_stop ==> {
                &&& final(slot)@ is None
                &&& taken == old(slot)@
                &&& final(self).artifact == old(self).artifact
                &&& final(self).samples@ == old(self).samples@
                &&& final(self).next_serial == old(self).next_serial
                &&& (old(slot)@ is Some ==> !final(self).encoder_active && final(self).status
                    is Finalizing && final(self).encoding_finished == old(self).encoding_finished)
                &&& (old(slot)@ is None ==> final(self).encoding_finished && final(self).status
                    == old(self).status && final(self).encoder_active == old(
                    self,
                ).encoder_active)
            },
    {
        if !self.should_stop {
            return None;
        }
        let taken = slot.take();
        match taken {
            Some(handle) => {
                // Detach first: no further frames can be sent.
                self.encoder_active = false;
                self.status = SessionStatus::Finalizing;
                Some(handle)
            },
            None => {
                // Defensive double stop: the handle is already with the
                // finalizer or gone; just mark finalization concluded.
                self.encoding_finished = true;
                None
            },
        }
    }

    /// The safety net run when the capture loop closes for any reason — an
    /// explicit stop or an external termination such as a disconnected
    /// display: the encoder is marked inactive, encoding concluded, and a
    /// full reclamation pass runs.
    pub fn on_capture_closed(&mut self)
        requires
            old(self).wf(),
        ensures
            final(self).wf(),
            crate::session::spec_reclaimed(*final(self), *old(self)),
            !final(self).encoder_active,
            final(self).encoding_finished,
    {
        self.reclaim();
    }
}


/// Artifact file names never collide across sessions: the embedded serial is
/// unique per session, and decimal rendering is injective, so two different
/// serials always yield two different names.
pub proof fn lemma_artifact_names_distinct(s1: u64, s2: u64)
    requires
        s1 != s2,
    ensures
        "screen_recording_"@ + dec_digits(s1 as nat) + ".mp4"@ != "screen_recording_"@
            + dec_digits(s2 as nat) + ".mp4"@,
{
    let p = "screen_recording_"@;
    let q = ".mp4"@;
    let d1 = dec_digits(s1 as nat);
    let d2 = dec_digits(s2 as nat);
    let n1 = p + d1 + q;
    let n2 = p + d2 + q;
    if n1 == n2 {
        assert(n1.len() == p.len() + d1.len() + q.len());
        assert(n2.len() == p.len() + d2.len() + q.len());
        assert(d1.len() == d2.len());
        assert(d1 =~= d2) by {
            assert forall|i: int| 0 <= i < d1.len() implies d1[i] == d2[i] by {
                assert(n1[p.len() + i] == d1[i]);
                assert(n2[p.len() + i] == d2[i]);
            }
        }
        crate::numerals::lemma_dec_digits_injective(s1 as nat, s2 as nat);
        assert(false);
    }
}

} // verus!
