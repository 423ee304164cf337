use vstd::prelude::*;

use crate::geometry::{LogicalPos, LogicalSize, PhysicalSize, ScaleFactor, spec_to_logical,
    to_logical_milli, SUBUNITS};
use crate::input::{spec_translate, translate, InputEvent, NativeEvent};

verus! {

/// The mathematical model of a window's bridge state: everything the
/// contracts speak of.  The GUI context is deliberately not part of it;
/// that handle is opaque and is related separately where it matters.
pub struct WindowView {
    pub size: PhysicalSize,
    pub scale_factor: ScaleFactor,
    pub pending: Seq<InputEvent>,
    pub pointer_pos: Option<LogicalPos>,
    pub start_time: u64,
}

impl WindowView {
    pub open spec fn well_formed(self) -> bool {
        self.scale_factor.well_formed()
    }
}

/// The input a frame consumes: every event recorded since the previous
/// drain, the time elapsed since the window was attached (milliseconds),
/// and the logical viewport rectangle, anchored at the origin.
#[derive(Debug, Clone)]
pub struct InputSnapshot {
    pub events: Vec<InputEvent>,
    pub elapsed_millis: u64,
    pub screen_rect: LogicalSize,
}

/// Per-window bridge state: the GUI context, the drawable size and scale
/// factor, the accumulating input buffer, the last known pointer
/// position, and the instant (milliseconds on the host's monotonic
/// clock) the window was attached.
pub struct EguiWindow {
    pub context: egui::Context,
    pub size: PhysicalSize,
    pub scale_factor: ScaleFactor,
    pub egui_input: Vec<InputEvent>,
    pub pointer_pos: Option<LogicalPos>,
    pub start_time: u64,
}

impl View for EguiWindow {
    type V = WindowView;

    open spec fn view(&self) -> WindowView {
        WindowView {
            size: self.size,
            scale_factor: self.scale_factor,
            pending: self.egui_input@,
            pointer_pos: self.pointer_pos,
            start_time: self.start_time,
        }
    }
}

/// Recording appends the event to the pending buffer — never overwrites —
/// and caches the position of a pointer-move.
pub open spec fn spec_record(m: WindowView, e: InputEvent) -> WindowView {
    WindowView {
        pending: m.pending.push(e),
        pointer_pos: match e {
            InputEvent::PointerMoved { pos } => Some(pos),
            _ => m.pointer_pos,
        },
        ..m
    }
}

/// Translating then recording: the state after one native event.
pub open spec fn spec_handle(m: WindowView, ev: NativeEvent) -> WindowView {
    match spec_translate(ev, m.pointer_pos, m.scale_factor) {
        Some(e) => spec_record(m, e),
        None => m,
    }
}

/// Draining: the state keeps everything but its pending buffer, and the
/// drained buffer is exactly what was pending.
pub open spec fn spec_take(m: WindowView) -> (WindowView, Seq<InputEvent>) {
    (WindowView { pending: Seq::empty(), ..m }, m.pending)
}

pub open spec fn spec_resize(m: WindowView, width: u32, height: u32) -> WindowView {
    WindowView { size: PhysicalSize { width, height }, ..m }
}

/// Milliseconds since the window was attached, clamped at zero.
pub open spec fn spec_elapsed(m: WindowView, now_millis: u64) -> u64 {
    if now_millis >= m.start_time {
        (now_millis - m.start_time) as u64
    } else {
        0
    }
}

/// The logical viewport: the physical size divided by the scale factor,
/// in thousandths of a point.
pub open spec fn spec_screen_rect(m: WindowView) -> LogicalSize {
    LogicalSize {
        width: spec_to_logical(m.size.width * SUBUNITS, m.scale_factor.millis as int) as u64,
        height: spec_to_logical(m.size.height * SUBUNITS, m.scale_factor.millis as int) as u64,
    }
}

impl EguiWindow {
    pub open spec fn well_formed(self) -> bool {
        self@.well_formed()
    }

    /// Attaches a fresh GUI context to a window of the given physical
    /// size and scale factor; no input is pending and no pointer
    /// position is known yet.
    pub fn new(width: u32, height: u32, scale_millis: u32, start_time: u64) -> (w: EguiWindow)
        requires
            scale_millis >= 1,
        ensures
            w@ == (WindowView {
                size: PhysicalSize { width, height },
                scale_factor: ScaleFactor { millis: scale_millis },
                pending: Seq::<InputEvent>::empty(),
                pointer_pos: None::<LogicalPos>,
                start_time,
            }),
            w.well_formed(),
    {
        EguiWindow {
            context: egui::Context::default(),
            size: PhysicalSize { width, height },
            scale_factor: ScaleFactor { millis: scale_millis },
            egui_input: Vec::new(),
            pointer_pos: None,
            start_time,
        }
    }

    /// Appends a translated event to the pending input, updating the
    /// cached pointer position on pointer-moves.  Bookkeeping only.
    pub fn record(&mut self, e: InputEvent)
        ensures
            final(self)@ == spec_record(old(self)@, e),
            final(self).context == old(self).context,
    {
        match e {
            InputEvent::PointerMoved { pos } => {
                self.pointer_pos = Some(pos);
            },
            _ => {},
        }
        self.egui_input.push(e);
    }

    /// Routes one native event: translates it and records the result, if
    /// any.  Returns whether the event was consumed, which is exactly
    /// whether translation produced an event.
    pub fn handle_event(&mut self, ev: &NativeEvent) -> (consumed: bool)
        requires
            old(self).well_formed(),
            ev.well_formed(),
        ensures
            consumed == (spec_translate(*ev, old(self)@.pointer_pos, old(self)@.scale_factor)
                is Some),
            final(self)@ == spec_handle(old(self)@, *ev),
            final(self).context == old(self).context,
    {
        match translate(ev, self.pointer_pos, &self.scale_factor) {
            Some(e) => {
                self.record(e);
                true
            },
            None => false,
        }
    }

    /// Drains the pending input atomically, stamping it with the elapsed
    /// time and the current logical viewport.  The next drain returns an
    /// empty buffer unless events are recorded in between.
    pub fn take_egui_input(&mut self, now_millis: u64) -> (r: InputSnapshot)
        requires
            old(self).well_formed(),
        ensures
            r.events@ == spec_take(old(self)@).1,
            r.elapsed_millis == spec_elapsed(old(self)@, now_millis),
            r.screen_rect == spec_screen_rect(old(self)@),
            final(self)@ == spec_take(old(self)@).0,
            final(self).context == old(self).context,
    {
        let mut events: Vec<InputEvent> = Vec::new();
        core::mem::swap(&mut events, &mut self.egui_input);
        let elapsed_millis = if now_millis >= self.start_time {
            now_millis - self.start_time
        } else {
            0
        };
        let screen_rect = LogicalSize {
            width: to_logical_milli((self.size.width as u64) * SUBUNITS, &self.scale_factor),
            height: to_logical_milli((self.size.height as u64) * SUBUNITS, &self.scale_factor),
        };
        InputSnapshot { events, elapsed_millis, screen_rect }
    }

    /// Applies a resize: the drawable size changes, nothing else does.
    /// The caller is responsible for resizing the renderer before the
    /// next frame.
    pub fn resize(&mut self, width: u32, height: u32)
        ensures
            final(self)@ == spec_resize(old(self)@, width, height),
            final(self).context == old(self).context,
    {
        self.size = PhysicalSize { width, height };
    }
}

/// The state after recording a whole sequence of events, in order.
pub open spec fn spec_record_seq(m: WindowView, evs: Seq<InputEvent>) -> WindowView
    decreases evs.len(),
{
    if evs.len() == 0 {
        m
    } else {
        spec_record(spec_record_seq(m, evs.drop_last()), evs.last())
    }
}

/// The position of the last pointer-move in a sequence, if any.
pub open spec fn last_pointer_move(evs: Seq<InputEvent>) -> Option<LogicalPos>
    decreases evs.len(),
{
    if evs.len() == 0 {
        None
    } else {
        match evs.last() {
            InputEvent::PointerMoved { pos } => Some(pos),
            _ => last_pointer_move(evs.drop_last()),
        }
    }
}

/// No event is dropped or reordered: recording a sequence of events
/// appends exactly that sequence to the pending buffer, and the cached
/// pointer position afterwards is the position of the last pointer-move
/// in the sequence (or the prior position, if the sequence has none).
pub proof fn lemma_record_seq(m: WindowView, evs: Seq<InputEvent>)
    ensures
        spec_record_seq(m, evs).pending == m.pending + evs,
        spec_record_seq(m, evs).pointer_pos == (match last_pointer_move(evs) {
            Some(p) => Some(p),
            None => m.pointer_pos,
        }),
        spec_record_seq(m, evs).size == m.size,
        spec_record_seq(m, evs).scale_factor == m.scale_factor,
        spec_record_seq(m, evs).start_time == m.start_time,
    decreases evs.len(),
{
    if evs.len() == 0 {
        assert(m.pending + evs =~= m.pending);
    } else {
        lemma_record_seq(m, evs.drop_last());
        assert(m.pending + evs =~= (m.pending + evs.drop_last()).push(evs.last()));
    }
}

/// Input is delivered exactly once: a drain hands out precisely the
/// events recorded since the previous drain, in order — and so a second
/// drain with nothing recorded in between hands out nothing.
pub proof fn lemma_exactly_once_delivery(m: WindowView, evs: Seq<InputEvent>)
    ensures
        spec_take(spec_record_seq(spec_take(m).0, evs)).1 == evs,
{
    lemma_record_seq(spec_take(m).0, evs);
    assert(Seq::<InputEvent>::empty() + evs =~= evs);
}

} // verus!
