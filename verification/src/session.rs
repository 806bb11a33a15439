//! The session lifecycle state machine: the single source of truth for
//! "is a recording in progress", the idempotent resource reclaimer, and the
//! start/stop command logic.

use vstd::prelude::*;
use vstd::string::{StringExecFns, StringSliceAdditionalSpecFns};
use crate::display::{primary_index, find_primary_index, MonitorInfo};
use crate::sampler::{debounce_spec, process_cursor_changes, ClickTracker, MousePosition, SampleBuffer};

verus! {

/// Lifecycle of a recording session.
#[derive(Clone, Copy, Debug, PartialEq, Eq, Structural)]
pub enum SessionStatus {
    Idle,
    Armed,
    Stopping,
    Finalizing,
    Delivering,
}

/// Requested encoding quality. The current encoder settings ignore it and
/// always record at full resolution, but the request is parsed and kept.
#[derive(Clone, Copy, Debug, PartialEq, Eq, Structural)]
pub enum Quality {
    Low,
    Medium,
    High,
}

/// Why a start request was refused.
#[derive(Clone, Copy, Debug, PartialEq, Eq, Structural)]
pub enum StartError {
    /// A session is still armed or stopping and its reclamation has not
    /// completed.
    AlreadyRecording,
    /// The requested display index lies outside the enumerated list.
    InvalidDisplay,
    /// Nothing to record from: the enumeration reported no displays.
    NoDisplays,
}

/// Why a stop request failed.
#[derive(Clone, Copy, Debug, PartialEq, Eq, Structural)]
pub enum StopError {
    /// Stop was requested while no session was in progress.
    NotRecording,
    /// The session never derived an output path.
    NoArtifactPath,
    /// The artifact file is missing or empty: the one hard failure of a stop.
    EmptyArtifact,
    /// No delivery mechanism could be brought up for the artifact.
    DeliveryFailed,
}

/// The session's output file: its location, the best-known size at handoff
/// to delivery, and whether the finalization deadline logic has concluded.
#[derive(Clone, Debug)]
pub struct ArtifactDescriptor {
    pub path: String,
    /// Serial of the session that produced the artifact; strictly increasing
    /// across sessions, so two sessions never share an output path suffix.
    pub serial: u64,
    pub declared_size: u64,
    pub ready: bool,
}

/// All session-scoped mutable state, owned in one place and passed by
/// reference to the components that need it.
pub struct SessionContext {
    pub status: SessionStatus,
    /// Set by a stop request; observed by the capture worker at the next
    /// frame boundary.
    pub should_stop: bool,
    /// Whether a live encoder handle currently exists.
    pub encoder_active: bool,
    /// Whether finalization (success, partial, or timeout) has concluded.
    pub encoding_finished: bool,
    pub artifact: Option<ArtifactDescriptor>,
    pub samples: SampleBuffer,
    pub clicks: ClickTracker,
    /// Ports bound by the delivery server, cleared on reclamation.
    pub server_ports: Vec<u16>,
    /// Whether a memory-mapped view of the artifact is held.
    pub mmap_held: bool,
    /// Origin of the selected display; subtracted from raw cursor positions.
    pub origin_x: i32,
    pub origin_y: i32,
    /// Serial handed to the next session's artifact.
    pub next_serial: u64,
}

impl SessionContext {
    /// The context's internal invariant, established by `new` and preserved
    /// by every transition.
    pub open spec fn wf(&self) -> bool {
        &&& self.samples.wf()
        &&& (self.encoder_active ==> self.artifact is Some && !(self.status is Idle))
        &&& (self.status is Idle ==> !self.should_stop && !self.encoder_active)
        &&& (self.status is Delivering ==> self.artifact is Some
            && self.artifact->Some_0.ready)
        &&& (self.artifact is Some ==> self.artifact->Some_0.serial < self.next_serial)
    }

    pub fn new() -> (ctx: SessionContext)
        ensures
            ctx.wf(),
            ctx.status is Idle,
            !ctx.should_stop,
            !ctx.encoder_active,
            !ctx.encoding_finished,
            ctx.artifact is None,
            ctx.samples@ =~= Seq::<MousePosition>::empty(),
            !ctx.clicks.listening,
            ctx.server_ports@ =~= Seq::<u16>::empty(),
            !ctx.mmap_held,
            ctx.next_serial == 0,
    {
        SessionContext {
            status: SessionStatus::Idle,
            should_stop: false,
            encoder_active: false,
            encoding_finished: false,
            artifact: None,
            samples: SampleBuffer::new(),
            clicks: ClickTracker::new(),
            server_ports: Vec::new(),
            mmap_held: false,
            origin_x: 0,
            origin_y: 0,
            next_serial: 0,
        }
    }
}

/// What a completed reclamation pass leaves behind, relative to the state
/// `prior` it ran on: every session-scoped resource reset to idle, with the
/// artifact record kept (delivery components own the file itself, and may
/// still need its location).
pub open spec fn spec_reclaimed(s: SessionContext, prior: SessionContext) -> bool {
    &&& s.status is Idle
    &&& !s.should_stop
    &&& !s.encoder_active
    &&& s.encoding_finished
    &&& s.samples@ =~= Seq::<MousePosition>::empty()
    &&& !s.clicks.listening
    &&& s.clicks.is_pressed == prior.clicks.is_pressed
    &&& s.clicks.press_logged == prior.clicks.press_logged
    &&& s.server_ports@ =~= Seq::<u16>::empty()
    &&& !s.mmap_held
    &&& s.artifact == prior.artifact
    &&& s.origin_x == prior.origin_x
    &&& s.origin_y == prior.origin_y
    &&& s.next_serial == prior.next_serial
}

impl SessionContext {
    /// The Resource Reclaimer: idempotent, never-failing teardown of all
    /// session-scoped resources. It clears the stop flag, marks the encoder
    /// inactive, marks encoding concluded, drops the memory-mapped view,
    /// clears bound-port records, clears the input-sample buffer, stops click
    /// listening, and resets the status to Idle. It never touches the
    /// artifact file or its record.
    pub fn reclaim(&mut self)
        requires
            old(self).wf(),
        ensures
            final(self).wf(),
            spec_reclaimed(*final(self), *old(self)),
    {
        self.encoder_active = false;
        self.encoding_finished = true;
        self.server_ports.clear();
        self.mmap_held = false;
        self.should_stop = false;
        self.samples.clear();
        self.clicks.listening = false;
        self.status = SessionStatus::Idle;
    }
}

/// Reclamation is idempotent: a second pass, run on the state a first pass
/// left, changes nothing it established — the two resulting states agree on
/// every field.
pub proof fn lemma_reclaim_idempotent(p: SessionContext, s: SessionContext, t: SessionContext)
    requires
        spec_reclaimed(s, p),
        spec_reclaimed(t, s),
    ensures
        t.status == s.status,
        t.should_stop == s.should_stop,
        t.encoder_active == s.encoder_active,
        t.encoding_finished == s.encoding_finished,
        t.samples@ == s.samples@,
        t.clicks == s.clicks,
        t.server_ports@ == s.server_ports@,
        t.mmap_held == s.mmap_held,
        t.artifact == s.artifact,
        t.origin_x == s.origin_x,
        t.origin_y == s.origin_y,
        t.next_serial == s.next_serial,
{
}

/// A start request is refused as busy exactly while a session is armed or
/// stopping.
pub open spec fn start_refused(s: SessionContext) -> bool {
    s.status is Armed || s.status is Stopping
}

/// Once a reclamation pass has completed, a start request is never refused
/// as busy: a start immediately following a stop's reclamation succeeds
/// (given a valid display selection).
pub proof fn lemma_start_after_reclaim(p: SessionContext, s: SessionContext)
    requires
        spec_reclaimed(s, p),
    ensures
        !start_refused(s),
{
}

/// Which quality a textual request selects; anything unrecognized, or no
/// request at all, selects high quality.
pub open spec fn spec_parse_quality(q: Option<String>) -> Quality {
    match q {
        None => Quality::High,
        Some(s) => if s@ == "low"@ {
            Quality::Low
        } else if s@ == "medium"@ {
            Quality::Medium
        } else {
            Quality::High
        },
    }
}

/// Parse a requested quality string.
pub fn parse_quality(q: &Option<String>) -> (r: Quality)
    ensures
        r == spec_parse_quality(*q),
{
    match q {
        None => Quality::High,
        Some(s) => {
            if s.eq(&"low".to_owned()) {
                Quality::Low
            } else if s.eq(&"medium".to_owned()) {
                Quality::Medium
            } else {
                Quality::High
            }
        },
    }
}

/// Parse the textual display id of a start request: the id is the display's
/// 0-based enumeration index in decimal. An id that is not such a numeral —
/// or one too large for an index — is an invalid display selector.
pub fn parse_display_id(id: &str) -> (r: Result<usize, StartError>)
    ensures
        r is Ok <==> (id.spec_bytes().len() > 0 && crate::numerals::all_digits(id.spec_bytes())
            && crate::numerals::dec_value(id.spec_bytes()) <= usize::MAX),
        r is Ok ==> r->Ok_0 == crate::numerals::dec_value(id.spec_bytes()),
        r is Err ==> r->Err_0 == StartError::InvalidDisplay,
{
    match crate::numerals::parse_u64(id.as_bytes()) {
        Some(v) => {
            if v <= usize::MAX as u64 {
                Ok(v as usize)
            } else {
                Err(StartError::InvalidDisplay)
            }
        },
        None => Err(StartError::InvalidDisplay),
    }
}

/// Everything the capture worker needs to open the encoder: the selected
/// display's index and geometry and the encoder settings.
#[derive(Clone, Debug)]
pub struct CaptureConfig {
    pub display_index: usize,
    pub origin_x: i32,
    pub origin_y: i32,
    pub width: u32,
    pub height: u32,
    pub frame_rate: u32,
    pub bitrate: u32,
    pub quality: Quality,
}

/// The display index a start request selects: the requested 0-based index,
/// or the primary display when none is requested.
pub open spec fn spec_selected_display(displays: Seq<MonitorInfo>, selector: Option<usize>) -> int {
    match selector {
        Some(i) => i as int,
        None => primary_index(displays),
    }
}

impl SessionContext {
    /// Handle a start request. Refused as busy only while a session is still
    /// armed or stopping; otherwise the reclaimer runs first (idempotent and
    /// safe on an already-idle session), the display selection is validated,
    /// and the session arms.
    pub fn request_start(
        &mut self,
        displays: &Vec<MonitorInfo>,
        selector: Option<usize>,
        quality: Option<String>,
    ) -> (r: Result<CaptureConfig, StartError>)
        requires
            old(self).wf(),
        ensures
            final(self).wf(),
            // Busy: refused, nothing changes.
            start_refused(*old(self)) ==> r == Result::<CaptureConfig, StartError>::Err(
                StartError::AlreadyRecording,
            ) && *final(self) == *old(self),
            // Not busy: the reclaimer has run; the request is then judged on
            // the display list alone.
            !start_refused(*old(self)) ==> {
                &&& (r is Err <==> (displays@.len() == 0 || (selector is Some
                    && selector->Some_0 >= displays@.len())))
                &&& (r is Err ==> spec_reclaimed(*final(self), *old(self)))
                &&& (displays@.len() == 0 ==> r == Result::<CaptureConfig, StartError>::Err(
                    StartError::NoDisplays,
                ))
                &&& (displays@.len() > 0 && selector is Some && selector->Some_0
                    >= displays@.len() ==> r == Result::<CaptureConfig, StartError>::Err(
                    StartError::InvalidDisplay,
                ))
            },
            // Armed: the session points at the selected display, with all
            // session-scoped resources freshly reclaimed.
            !start_refused(*old(self)) && r is Ok ==> {
                let idx = spec_selected_display(displays@, selector);
                let cfg = r->Ok_0;
                &&& 0 <= idx < displays@.len()
                &&& cfg.display_index == idx
                &&& cfg.origin_x == displays@[idx].x
                &&& cfg.origin_y == displays@[idx].y
                &&& cfg.width == displays@[idx].width
                &&& cfg.height == displays@[idx].height
                &&& cfg.frame_rate == 30
                &&& cfg.bitrate == 10_000_000
                &&& cfg.quality == spec_parse_quality(quality)
                &&& final(self).status is Armed
                &&& !final(self).should_stop
                &&& !final(self).encoder_active
                &&& final(self).artifact is None
                &&& final(self).samples@ =~= Seq::<MousePosition>::empty()
                &&& final(self).clicks.listening
                &&& final(self).server_ports@ =~= Seq::<u16>::empty()
                &&& !final(self).mmap_held
                &&& final(self).origin_x == displays@[idx].x
                &&& final(self).origin_y == displays@[idx].y
                &&& final(self).next_serial == old(self).next_serial
            },
    {
        if matches!(self.status, SessionStatus::Armed) || matches!(
            self.status,
            SessionStatus::Stopping,
        ) {
            return Err(StartError::AlreadyRecording);
        }
        // Force reclamation regardless of previous state: safe on an
        // already-idle session.
        self.reclaim();
        if displays.len() == 0 {
            return Err(StartError::NoDisplays);
        }
        let idx: usize = match selector {
            Some(i) => {
                if i >= displays.len() {
                    return Err(StartError::InvalidDisplay);
                }
                i
            },
            None => find_primary_index(displays),
        };
        let quality = parse_quality(&quality);
        let chosen = &displays[idx];
        // A fresh session starts with no derived output path.
        self.artifact = None;
        self.origin_x = chosen.x;
        self.origin_y = chosen.y;
        self.clicks.listening = true;
        self.status = SessionStatus::Armed;
        Ok(
            CaptureConfig {
                display_index: idx,
                origin_x: chosen.x,
                origin_y: chosen.y,
                width: chosen.width,
                height: chosen.height,
                frame_rate: 30,
                bitrate: 10_000_000,
                quality,
            },
        )
    }

    /// Handle a stop request's synchronous entry: refused (with reclamation
    /// still performed, leaving the session Idle) while no session is in
    /// progress or no output path was ever derived; otherwise the stop flag
    /// is raised for the capture worker and the artifact's location is
    /// returned for the caller to watch.
    pub fn begin_stop(&mut self) -> (r: Result<String, StopError>)
        requires
            old(self).wf(),
        ensures
            final(self).wf(),
            // Not recording: the error is reported, and reclamation still
            // runs, leaving the session Idle.
            !(old(self).status is Armed || old(self).status is Stopping) ==> r
                == Result::<String, StopError>::Err(StopError::NotRecording) && spec_reclaimed(
                *final(self),
                *old(self),
            ),
            (old(self).status is Armed || old(self).status is Stopping) ==> {
                match r {
                    Ok(path) => {
                        &&& old(self).artifact is Some
                        &&& path@ == old(self).artifact->Some_0.path@
                        &&& final(self).status is Stopping
                        &&& final(self).should_stop
                        &&& final(self).artifact == old(self).artifact
                        &&& final(self).samples@ == old(self).samples@
                        &&& final(self).encoder_active == old(self).encoder_active
                        &&& final(self).encoding_finished == old(self).encoding_finished
                        &&& final(self).clicks == old(self).clicks
                        &&& final(self).server_ports@ == old(self).server_ports@
                        &&& final(self).mmap_held == old(self).mmap_held
                        &&& final(self).origin_x == old(self).origin_x
                        &&& final(self).origin_y == old(self).origin_y
                        &&& final(self).next_serial == old(self).next_serial
                    },
                    Err(e) => {
                        &&& e == StopError::NoArtifactPath
                        &&& old(self).artifact is None
                        &&& spec_reclaimed(*final(self), *old(self))
                    },
                }
            },
    {
        if !(matches!(self.status, SessionStatus::Armed) || matches!(
            self.status,
            SessionStatus::Stopping,
        )) {
            // Not recording: clean up any stale resources anyway.
            self.reclaim();
            return Err(StopError::NotRecording);
        }
        let path = match &self.artifact {
            Some(a) => a.path.clone(),
            None => {
                self.reclaim();
                return Err(StopError::NoArtifactPath);
            },
        };
        self.should_stop = true;
        self.status = SessionStatus::Stopping;
        Ok(path)
    }

    /// Judge the artifact once the bounded wait for the encoder has ended:
    /// an empty or missing file (size zero) is the one hard failure of a
    /// stop, and triggers reclamation; any other size is accepted and
    /// recorded, and the artifact is marked ready for delivery.
    pub fn check_artifact(&mut self, file_size: u64) -> (r: Result<(), StopError>)
        requires
            old(self).wf(),
            old(self).status is Stopping || old(self).status is Finalizing,
            old(self).artifact is Some,
        ensures
            final(self).wf(),
            file_size == 0 ==> r == Result::<(), StopError>::Err(StopError::EmptyArtifact)
                && spec_reclaimed(*final(self), *old(self)),
            file_size > 0 ==> {
                &&& r is Ok
                &&& final(self).status == old(self).status
                &&& final(self).artifact is Some
                &&& final(self).artifact->Some_0.path@ == old(self).artifact->Some_0.path@
                &&& final(self).artifact->Some_0.serial == old(self).artifact->Some_0.serial
                &&& final(self).artifact->Some_0.declared_size == file_size
                &&& final(self).artifact->Some_0.ready
                &&& final(self).samples@ == old(self).samples@
                &&& !final(self).clicks.listening
                &&& !final(self).clicks.is_pressed
                &&& final(self).clicks.press_logged == old(self).clicks.press_logged
                &&& final(self).should_stop == old(self).should_stop
                &&& final(self).encoder_active == old(self).encoder_active
                &&& final(self).encoding_finished == old(self).encoding_finished
                &&& final(self).server_ports@ == old(self).server_ports@
                &&& final(self).mmap_held == old(self).mmap_held
                &&& final(self).origin_x == old(self).origin_x
                &&& final(self).origin_y == old(self).origin_y
                &&& final(self).next_serial == old(self).next_serial
            },
    {
        if file_size == 0 {
            self.reclaim();
            return Err(StopError::EmptyArtifact);
        }
        // Stop click tracking before handing the session to delivery.
        self.clicks.listening = false;
        self.clicks.is_pressed = false;
        match &self.artifact {
            Some(a) => {
                let updated = ArtifactDescriptor {
                    path: a.path.clone(),
                    serial: a.serial,
                    declared_size: file_size,
                    ready: true,
                };
                self.artifact = Some(updated);
            },
            None => {},
        }
        Ok(())
    }

    /// Drain the sample buffer — exactly once per session — and run the
    /// cursor-shape debounce pass over the drained sequence.
    pub fn take_processed_samples(&mut self) -> (out: Vec<MousePosition>)
        requires
            old(self).wf(),
        ensures
            final(self).wf(),
            out@ == debounce_spec(old(self).samples@),
            final(self).samples@ =~= Seq::<MousePosition>::empty(),
            final(self).status == old(self).status,
            final(self).artifact == old(self).artifact,
            final(self).should_stop == old(self).should_stop,
            final(self).encoder_active == old(self).encoder_active,
            final(self).encoding_finished == old(self).encoding_finished,
            final(self).clicks == old(self).clicks,
            final(self).server_ports@ == old(self).server_ports@,
            final(self).mmap_held == old(self).mmap_held,
            final(self).origin_x == old(self).origin_x,
            final(self).origin_y == old(self).origin_y,
            final(self).next_serial == old(self).next_serial,
    {
        let mut out = self.samples.drain();
        process_cursor_changes(&mut out);
        out
    }

    /// Mid-session peek at the sample buffer: copies the samples without
    /// removing any.
    pub fn get_mouse_positions(&self) -> (out: Vec<MousePosition>)
        ensures
            out@ =~= self.samples@,
    {
        self.samples.peek()
    }

    /// Record the delivery server's bound port and its memory-mapped view of
    /// the artifact, and hand the session to delivery.
    pub fn deliver(&mut self, port: u16) -> (url: String)
        requires
            old(self).wf(),
            old(self).artifact is Some,
            old(self).artifact->Some_0.ready,
        ensures
            final(self).wf(),
            final(self).status is Delivering,
            final(self).server_ports@ =~= old(self).server_ports@.push(port),
            final(self).mmap_held,
            final(self).artifact == old(self).artifact,
            final(self).samples@ == old(self).samples@,
            final(self).clicks == old(self).clicks,
            final(self).should_stop == old(self).should_stop,
            final(self).encoder_active == old(self).encoder_active,
            final(self).encoding_finished == old(self).encoding_finished,
            final(self).origin_x == old(self).origin_x,
            final(self).origin_y == old(self).origin_y,
            final(self).next_serial == old(self).next_serial,
            url@ == "http://localhost:"@ + crate::numerals::dec_digits(port as nat),
    {
        self.server_ports.push(port);
        self.mmap_held = true;
        self.status = SessionStatus::Delivering;
        let mut url = "http://localhost:".to_owned();
        let digits = crate::numerals::u64_to_string(port as u64);
        url.append(digits.as_str());
        url
    }

    /// A delivery failure is surfaced to the stop flow's caller and triggers
    /// a full reclamation pass.
    pub fn on_delivery_failure(&mut self) -> (e: StopError)
        requires
            old(self).wf(),
        ensures
            final(self).wf(),
            spec_reclaimed(*final(self), *old(self)),
            e == StopError::DeliveryFailed,
    {
        self.reclaim();
        StopError::DeliveryFailed
    }
}

/// How long a stop request waits for the encoder to conclude before trusting
/// the file's on-disk state: shorter when the artifact file already exists
/// with content, longer when finalization still has to produce it.
pub fn stop_wait_deadline_ms(artifact_on_disk: bool) -> (d: u64)
    ensures
        d == if artifact_on_disk {
            5000int
        } else {
            15000int
        },
{
    if artifact_on_disk {
        5000
    } else {
        15000
    }
}

} // verus!
