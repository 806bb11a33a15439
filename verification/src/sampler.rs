//! Input sampling: timestamped cursor/click/cursor-shape observations,
//! the edge-triggered click tracker, and the bounded ordered sample buffer.

use vstd::prelude::*;

verus! {

/// Cursor shapes are classified into a small closed enumeration; shapes that
/// match none of the known system shapes map to `Other`.
#[derive(Clone, Copy, Debug, PartialEq, Eq, Structural)]
pub enum CursorShape {
    Default,
    Text,
    Pointer,
    Other,
}

/// One point-in-time observation of the pointer. Coordinates are relative to
/// the selected display's origin; the timestamp counts milliseconds since the
/// session started and is non-decreasing within a session.
#[derive(Clone, Copy, Debug, PartialEq, Eq, Structural)]
pub struct MousePosition {
    pub x: i32,
    pub y: i32,
    pub timestamp_ms: u64,
    pub is_clicked: bool,
    pub cursor_type: CursorShape,
}

/// Classify a raw cursor handle by comparing it against the handles of the
/// known system shapes, in a fixed order: arrow, then I-beam, then hand.
pub fn classify_cursor_shape(current: u64, arrow: u64, ibeam: u64, hand: u64) -> (shape:
    CursorShape)
    ensures
        shape == spec_classify_cursor_shape(current, arrow, ibeam, hand),
{
    if current == arrow {
        CursorShape::Default
    } else if current == ibeam {
        CursorShape::Text
    } else if current == hand {
        CursorShape::Pointer
    } else {
        CursorShape::Other
    }
}

pub open spec fn spec_classify_cursor_shape(current: u64, arrow: u64, ibeam: u64, hand: u64) -> CursorShape {
    if current == arrow {
        CursorShape::Default
    } else if current == ibeam {
        CursorShape::Text
    } else if current == hand {
        CursorShape::Pointer
    } else {
        CursorShape::Other
    }
}

/// Build one sample from a global cursor position: the selected display's
/// origin is subtracted so that the stored coordinates are display-relative.
pub fn make_sample(
    global_x: i32,
    global_y: i32,
    origin_x: i32,
    origin_y: i32,
    elapsed_ms: u64,
    is_clicked: bool,
    cursor_type: CursorShape,
) -> (sample: MousePosition)
    requires
        i32::MIN <= global_x - origin_x <= i32::MAX,
        i32::MIN <= global_y - origin_y <= i32::MAX,
    ensures
        sample.x == global_x - origin_x,
        sample.y == global_y - origin_y,
        sample.timestamp_ms == elapsed_ms,
        sample.is_clicked == is_clicked,
        sample.cursor_type == cursor_type,
{
    MousePosition {
        x: global_x - origin_x,
        y: global_y - origin_y,
        timestamp_ms: elapsed_ms,
        is_clicked,
        cursor_type,
    }
}

/// A global input-event notification, as the click tracker sees it.
#[derive(Clone, Copy, Debug, PartialEq, Eq, Structural)]
pub enum InputEvent {
    ButtonPress,
    ButtonRelease,
    Other,
}

/// Edge-triggered click-state tracking: a press sets `is_pressed` exactly once
/// until the matching release; repeated press notifications for the same
/// logical press trigger no further side effects.
#[derive(Clone, Copy, Debug, PartialEq, Eq, Structural)]
pub struct ClickTracker {
    /// Whether the tracker reacts to events at all; cleared on stop/reclaim.
    pub listening: bool,
    /// The level state handed to the sampler.
    pub is_pressed: bool,
    /// Whether the current logical press has already been acted upon.
    pub press_logged: bool,
}

impl ClickTracker {
    pub fn new() -> (t: ClickTracker)
        ensures
            !t.listening,
            !t.is_pressed,
            !t.press_logged,
    {
        ClickTracker { listening: false, is_pressed: false, press_logged: false }
    }

    /// Process one global input event. Returns true exactly when this event is
    /// the edge of a new logical press, i.e. when a side effect (such as
    /// logging) is due.
    pub fn on_event(&mut self, event: InputEvent) -> (press_edge: bool)
        ensures
            !old(self).listening ==> *final(self) == *old(self) && !press_edge,
            old(self).listening ==> final(self).listening,
            old(self).listening && event is ButtonPress ==> {
                &&& final(self).is_pressed
                &&& final(self).press_logged
                &&& press_edge == !old(self).press_logged
            },
            old(self).listening && event is ButtonRelease ==> {
                &&& !final(self).is_pressed
                &&& !final(self).press_logged
                &&& !press_edge
            },
            old(self).listening && event is Other ==> *final(self) == *old(self) && !press_edge,
    {
        if !self.listening {
            return false;
        }
        match event {
            InputEvent::ButtonPress => {
                if !self.press_logged {
                    self.is_pressed = true;
                    self.press_logged = true;
                    true
                } else {
                    // Repeated notification for the same logical press:
                    // level state is already set, no new side effect.
                    self.is_pressed = true;
                    false
                }
            },
            InputEvent::ButtonRelease => {
                self.is_pressed = false;
                self.press_logged = false;
                false
            },
            InputEvent::Other => false,
        }
    }
}

/// The bounded ordered buffer of input samples: appended by the sampler,
/// peeked mid-session without removal, and drained wholesale exactly once
/// when the session stops.
pub struct SampleBuffer {
    positions: Vec<MousePosition>,
}

impl SampleBuffer {
    /// The buffer's contents, oldest first.
    pub closed spec fn view(&self) -> Seq<MousePosition> {
        self.positions@
    }

    /// Well-formedness: timestamps never decrease from one sample to the next.
    pub open spec fn wf(&self) -> bool {
        forall|i: int|
            0 <= i && i + 1 < self@.len() ==> #[trigger] self@[i].timestamp_ms <= self@[i
                + 1].timestamp_ms
    }

    pub fn new() -> (buf: SampleBuffer)
        ensures
            buf@ =~= Seq::<MousePosition>::empty(),
            buf.wf(),
    {
        SampleBuffer { positions: Vec::new() }
    }

    pub fn len(&self) -> (n: usize)
        ensures
            n == self@.len(),
    {
        self.positions.len()
    }

    /// Append one sample. Samples arrive in wall-clock order, so the new
    /// timestamp may not precede the last stored one.
    pub fn push(&mut self, sample: MousePosition)
        requires
            old(self).wf(),
            old(self)@.len() > 0 ==> sample.timestamp_ms >= old(self)@.last().timestamp_ms,
        ensures
            final(self)@ =~= old(self)@.push(sample),
            final(self).wf(),
    {
        self.positions.push(sample);
        proof {
            let s = old(self)@;
            assert forall|i: int| 0 <= i && i + 1 < self@.len() implies #[trigger] self@[i].timestamp_ms
                <= self@[i + 1].timestamp_ms by {
                if i + 1 < s.len() {
                    assert(s[i].timestamp_ms <= s[i + 1].timestamp_ms);
                } else {
                    assert(self@[i] == s.last());
                }
            }
        }
    }

    /// Mid-session peek: copies the samples out without removing any.
    pub fn peek(&self) -> (out: Vec<MousePosition>)
        ensures
            out@ =~= self@,
    {
        let mut out: Vec<MousePosition> = Vec::new();
        let mut i: usize = 0;
        while i < self.positions.len()
            invariant
                i <= self.positions.len(),
                out@ =~= self@.subrange(0, i as int),
            decreases self.positions.len() - i,
        {
            out.push(self.positions[i]);
            i = i + 1;
        }
        out
    }

    /// Drain: move the samples out and leave the buffer empty. Done exactly
    /// once per session, by the stop handler.
    pub fn drain(&mut self) -> (out: Vec<MousePosition>)
        ensures
            out@ =~= old(self)@,
            final(self)@ =~= Seq::<MousePosition>::empty(),
            final(self).wf(),
    {
        let mut taken: Vec<MousePosition> = Vec::new();
        core::mem::swap(&mut taken, &mut self.positions);
        taken
    }

    /// Empty the buffer, discarding its contents.
    pub fn clear(&mut self)
        ensures
            final(self)@ =~= Seq::<MousePosition>::empty(),
            final(self).wf(),
    {
        self.positions.clear();
    }
}

/// Timestamps of a well-formed buffer are non-decreasing between any two
/// positions, not merely between neighbours: whatever order samples are read
/// back in, an earlier sample never carries a later timestamp.
pub proof fn lemma_samples_sorted(buf: SampleBuffer, i: int, j: int)
    requires
        buf.wf(),
        0 <= i <= j < buf@.len(),
    ensures
        buf@[i].timestamp_ms <= buf@[j].timestamp_ms,
    decreases j - i,
{
    if i < j {
        lemma_samples_sorted(buf, i, j - 1);
    }
}

/// A contiguous run of one cursor shape must span at least this many
/// milliseconds of timestamps to survive the debounce pass.
pub const DEBOUNCE_MIN_RUN_MS: u64 = 100;

/// The sample with its shape replaced; position, click state and timestamp
/// are untouched.
pub open spec fn with_shape(p: MousePosition, shape: CursorShape) -> MousePosition {
    MousePosition {
        x: p.x,
        y: p.y,
        timestamp_ms: p.timestamp_ms,
        is_clicked: p.is_clicked,
        cursor_type: shape,
    }
}

/// End of the contiguous run of equal cursor shapes that starts at `i`: the
/// least `j > i` whose sample carries a different shape, or `s.len()`.
pub open spec fn run_end(s: Seq<MousePosition>, i: int) -> int
    recommends
        0 <= i < s.len(),
    decreases s.len() - i when 0 <= i < s.len()
{
    if i + 1 >= s.len() {
        s.len() as int
    } else if s[i + 1].cursor_type != s[i].cursor_type {
        i + 1
    } else {
        run_end(s, i + 1)
    }
}

pub proof fn lemma_run_end(s: Seq<MousePosition>, i: int)
    requires
        0 <= i < s.len(),
    ensures
        i < run_end(s, i) <= s.len(),
        forall|k: int| i <= k < run_end(s, i) ==> #[trigger] s[k].cursor_type == s[i].cursor_type,
        run_end(s, i) < s.len() ==> s[run_end(s, i)].cursor_type != s[i].cursor_type,
    decreases s.len() - i,
{
    if i + 1 < s.len() && s[i + 1].cursor_type == s[i].cursor_type {
        lemma_run_end(s, i + 1);
    }
}

/// `run_end` is the unique boundary with these three properties.
pub proof fn lemma_run_end_unique(s: Seq<MousePosition>, i: int, j: int)
    requires
        0 <= i < j <= s.len(),
        forall|k: int| i < k < j ==> #[trigger] s[k].cursor_type == s[i].cursor_type,
        j == s.len() || s[j].cursor_type != s[i].cursor_type,
    ensures
        run_end(s, i) == j,
    decreases j - i,
{
    if i + 1 < s.len() && s[i + 1].cursor_type == s[i].cursor_type {
        assert(j != i + 1);
        lemma_run_end_unique(s, i + 1, j);
    }
}

/// All samples in `[i, j)` reclassified to `shape`; everything else untouched.
pub open spec fn reshape(s: Seq<MousePosition>, i: int, j: int, shape: CursorShape) -> Seq<
    MousePosition,
> {
    Seq::new(s.len(), |k: int| if i <= k < j { with_shape(s[k], shape) } else { s[k] })
}

/// The debounce scan from index `i` on: find the run starting at `i`; if it
/// spans under `DEBOUNCE_MIN_RUN_MS` of timestamps and is not the first run,
/// reclassify it to the shape standing immediately before it (which an
/// earlier step of the same scan may itself have rewritten); then continue at
/// the run's end. Every run is judged, a trailing one included.
pub open spec fn debounce_from(s: Seq<MousePosition>, i: int) -> Seq<MousePosition>
    decreases s.len() - i when 0 <= i via debounce_from_decreases
{
    if i >= s.len() {
        s
    } else {
        let j = run_end(s, i);
        let next = if i > 0 && s[j - 1].timestamp_ms - s[i].timestamp_ms < DEBOUNCE_MIN_RUN_MS {
            reshape(s, i, j, s[i - 1].cursor_type)
        } else {
            s
        };
        debounce_from(next, j)
    }
}

#[via_fn]
proof fn debounce_from_decreases(s: Seq<MousePosition>, i: int) {
    if i < s.len() {
        lemma_run_end(s, i);
    }
}

/// What the debounce pass makes of a drained sample sequence.
pub open spec fn debounce_spec(s: Seq<MousePosition>) -> Seq<MousePosition> {
    debounce_from(s, 0)
}

/// Debouncing alters only cursor shapes: every sample keeps its position,
/// click state and timestamp, and the sequence keeps its length.
pub proof fn lemma_debounce_preserves_all_but_shape(s: Seq<MousePosition>, i: int)
    requires
        0 <= i,
    ensures
        debounce_from(s, i).len() == s.len(),
        forall|k: int|
            0 <= k < s.len() ==> {
                let p = #[trigger] debounce_from(s, i)[k];
                p.x == s[k].x && p.y == s[k].y && p.timestamp_ms == s[k].timestamp_ms
                    && p.is_clicked == s[k].is_clicked
            },
    decreases s.len() - i,
{
    if i < s.len() {
        lemma_run_end(s, i);
        let j = run_end(s, i);
        if i > 0 && s[j - 1].timestamp_ms - s[i].timestamp_ms < DEBOUNCE_MIN_RUN_MS {
            lemma_debounce_preserves_all_but_shape(reshape(s, i, j, s[i - 1].cursor_type), j);
        } else {
            lemma_debounce_preserves_all_but_shape(s, j);
        }
    }
}

/// Debounce pass over a drained sample sequence: one linear scan that
/// reclassifies any contiguous cursor-shape run that lasted under
/// `DEBOUNCE_MIN_RUN_MS` -- and is not the very first run -- to the shape of
/// the immediately preceding sample. Click and position data are untouched.
pub fn process_cursor_changes(positions: &mut Vec<MousePosition>)
    ensures
        final(positions)@ == debounce_spec(old(positions)@),
{
    let ghost orig = positions@;
    let mut i: usize = 0;
    while i < positions.len()
        invariant
            positions@.len() == orig.len(),
            i <= positions@.len(),
            debounce_spec(orig) == debounce_from(positions@, i as int),
        decreases positions@.len() - i,
    {
        let ghost at_head = positions@;
        // Scan to the end of the run of the shape at `i`.
        let mut j: usize = i + 1;
        while j < positions.len() && positions[j].cursor_type == positions[i].cursor_type
            invariant
                i < j <= positions@.len(),
                i < positions@.len(),
                positions@ == at_head,
                forall|k: int|
                    i < k < j ==> #[trigger] positions@[k].cursor_type
                        == positions@[i as int].cursor_type,
            decreases positions@.len() - j,
        {
            j = j + 1;
        }
        proof {
            lemma_run_end_unique(positions@, i as int, j as int);
        }
        let short_run = positions[j - 1].timestamp_ms < positions[i].timestamp_ms || positions[j
            - 1].timestamp_ms - positions[i].timestamp_ms < DEBOUNCE_MIN_RUN_MS;
        if i > 0 && short_run {
            // The run is short and not the first: rewrite it to the shape
            // standing immediately before it.
            let prev_shape = positions[i - 1].cursor_type;
            let mut k: usize = i;
            while k < j
                invariant
                    i <= k <= j <= positions@.len(),
                    positions@.len() == at_head.len(),
                    forall|m: int|
                        0 <= m < positions@.len() && !(i <= m < k) ==> positions@[m]
                            == at_head[m],
                    forall|m: int|
                        i <= m < k ==> positions@[m] == with_shape(at_head[m], prev_shape),
                decreases j - k,
            {
                let p = positions[k];
                positions.set(k, MousePosition { cursor_type: prev_shape, ..p });
                k = k + 1;
            }
            proof {
                assert(positions@ =~= reshape(at_head, i as int, j as int, prev_shape));
            }
        }
        i = j;
    }
}

} // verus!
