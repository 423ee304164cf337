use vstd::prelude::*;

use crate::geometry::{LogicalPos, PhysicalSize, ScaleFactor};
use crate::input::{spec_translate, InputEvent, NativeEvent};
use crate::window::{
    lemma_record_seq, spec_elapsed, spec_handle, spec_record_seq, spec_resize, spec_screen_rect,
    spec_take, EguiWindow, InputSnapshot, WindowView,
};

verus! {

/// One registered window: its unique label and its bridge state.
pub struct RegistryEntry {
    pub label: String,
    pub window: EguiWindow,
}

/// The window registry: a mapping from window label to per-window bridge
/// state, modelled as a `Map` keyed by the label's characters.  The host
/// glue serializes access to it; the registry itself is plain data.
pub struct Registry {
    pub entries: Vec<RegistryEntry>,
}

pub open spec fn labels_unique(s: Seq<RegistryEntry>) -> bool {
    forall|i: int, j: int|
        0 <= i < j < s.len() ==> (#[trigger] s[i]).label@ != (#[trigger] s[j]).label@
}

/// The mapping the entry list denotes.
pub open spec fn entries_map(s: Seq<RegistryEntry>) -> Map<Seq<char>, EguiWindow>
    decreases s.len(),
{
    if s.len() == 0 {
        Map::empty()
    } else {
        entries_map(s.drop_last()).insert(s.last().label@, s.last().window)
    }
}

impl View for Registry {
    type V = Map<Seq<char>, EguiWindow>;

    open spec fn view(&self) -> Map<Seq<char>, EguiWindow> {
        entries_map(self.entries@)
    }
}

impl Registry {
    pub open spec fn well_formed(self) -> bool {
        &&& labels_unique(self.entries@)
        &&& forall|i: int|
            0 <= i < self.entries@.len() ==> (#[trigger] self.entries@[i]).window.well_formed()
    }
}

pub proof fn lemma_labels_unique_drop_last(s: Seq<RegistryEntry>)
    requires
        labels_unique(s),
        s.len() > 0,
    ensures
        labels_unique(s.drop_last()),
{
    assert forall|i: int, j: int|
        0 <= i < j < s.drop_last().len() implies s.drop_last()[i].label@
        != s.drop_last()[j].label@ by {
        assert(s.drop_last()[i] == s[i]);
        assert(s.drop_last()[j] == s[j]);
    }
}

/// Every entry is found in the denoted map, under its own label.
pub proof fn lemma_entries_map_index(s: Seq<RegistryEntry>, i: int)
    requires
        labels_unique(s),
        0 <= i < s.len(),
    ensures
        entries_map(s).contains_key(s[i].label@),
        entries_map(s)[s[i].label@] == s[i].window,
    decreases s.len(),
{
    if i == s.len() - 1 {
    } else {
        lemma_labels_unique_drop_last(s);
        assert(s.drop_last()[i] == s[i]);
        lemma_entries_map_index(s.drop_last(), i);
        assert(s[i].label@ != s[s.len() - 1].label@);
    }
}

/// A label on no entry is not in the denoted map.
pub proof fn lemma_entries_map_absent(s: Seq<RegistryEntry>, label: Seq<char>)
    requires
        forall|i: int| 0 <= i < s.len() ==> (#[trigger] s[i]).label@ != label,
    ensures
        !entries_map(s).contains_key(label),
    decreases s.len(),
{
    if s.len() > 0 {
        assert forall|i: int|
            0 <= i < s.drop_last().len() implies (#[trigger] s.drop_last()[i]).label@ != label by {
            assert(s.drop_last()[i] == s[i]);
        }
        lemma_entries_map_absent(s.drop_last(), label);
        assert(s.last() == s[s.len() - 1]);
    }
}

/// Appending an entry inserts it into the denoted map.
pub proof fn lemma_entries_map_push(s: Seq<RegistryEntry>, e: RegistryEntry)
    ensures
        entries_map(s.push(e)) == entries_map(s).insert(e.label@, e.window),
{
    assert(s.push(e).drop_last() =~= s);
    assert(s.push(e).last() == e);
}

/// Replacing an entry in place, label kept, overwrites its slot in the
/// denoted map.
pub proof fn lemma_entries_map_update(s: Seq<RegistryEntry>, i: int, e: RegistryEntry)
    requires
        labels_unique(s),
        0 <= i < s.len(),
        e.label@ == s[i].label@,
    ensures
        entries_map(s.update(i, e)) == entries_map(s).insert(e.label@, e.window),
    decreases s.len(),
{
    let t = s.update(i, e);
    if i == s.len() - 1 {
        assert(t.drop_last() =~= s.drop_last());
        assert(t.last() == e);
        assert(entries_map(s).insert(e.label@, e.window) =~= entries_map(s.drop_last()).insert(
            e.label@,
            e.window,
        ));
    } else {
        lemma_labels_unique_drop_last(s);
        assert(t.drop_last() =~= s.drop_last().update(i, e));
        assert(s.drop_last()[i] == s[i]);
        lemma_entries_map_update(s.drop_last(), i, e);
        assert(t.last() == s.last());
        assert(s[i].label@ != s[s.len() - 1].label@);
        assert(entries_map(s.drop_last()).insert(e.label@, e.window).insert(
            s.last().label@,
            s.last().window,
        ) =~= entries_map(s.drop_last()).insert(s.last().label@, s.last().window).insert(
            e.label@,
            e.window,
        ));
    }
}

/// Removing an entry removes its label from the denoted map.
pub proof fn lemma_entries_map_remove(s: Seq<RegistryEntry>, i: int)
    requires
        labels_unique(s),
        0 <= i < s.len(),
    ensures
        entries_map(s.remove(i)) == entries_map(s).remove(s[i].label@),
    decreases s.len(),
{
    if i == s.len() - 1 {
        assert(s.remove(i) =~= s.drop_last());
        lemma_labels_unique_drop_last(s);
        assert forall|j: int|
            0 <= j < s.drop_last().len() implies (#[trigger] s.drop_last()[j]).label@
            != s[i].label@ by {
            assert(s.drop_last()[j] == s[j]);
        }
        lemma_entries_map_absent(s.drop_last(), s[i].label@);
        assert(entries_map(s.drop_last()) =~= entries_map(s.drop_last()).insert(
            s[i].label@,
            s[i].window,
        ).remove(s[i].label@));
    } else {
        let t = s.remove(i);
        assert(t.drop_last() =~= s.drop_last().remove(i));
        lemma_labels_unique_drop_last(s);
        assert(s.drop_last()[i] == s[i]);
        lemma_entries_map_remove(s.drop_last(), i);
        assert(t.last() == s.last());
        assert(s[i].label@ != s[s.len() - 1].label@);
        assert(entries_map(s.drop_last()).remove(s[i].label@).insert(
            s.last().label@,
            s.last().window,
        ) =~= entries_map(s.drop_last()).insert(s.last().label@, s.last().window).remove(
            s[i].label@,
        ));
    }
}

impl Registry {
    /// An empty registry: no window is managed.
    pub fn new() -> (r: Registry)
        ensures
            r@ == Map::<Seq<char>, EguiWindow>::empty(),
            r.well_formed(),
    {
        Registry { entries: Vec::new() }
    }

    /// The index of the entry holding the label, if one does; `None`
    /// means the label is not in the registry.
    fn index_of(&self, label: &String) -> (r: Option<usize>)
        requires
            self.well_formed(),
        ensures
            match r {
                Some(i) => {
                    &&& i < self.entries@.len()
                    &&& self.entries@[i as int].label@ == label@
                    &&& self@.contains_key(label@)
                    &&& self@[label@] == self.entries@[i as int].window
                },
                None => {
                    &&& !self@.contains_key(label@)
                    &&& forall|j: int|
                        0 <= j < self.entries@.len() ==> (#[trigger] self.entries@[j]).label@
                            != label@
                },
            },
    {
        let n = self.entries.len();
        let mut i: usize = 0;
        while i < n
            invariant
                self.well_formed(),
                n == self.entries@.len(),
                i <= n,
                forall|j: int| 0 <= j < i ==> (#[trigger] self.entries@[j]).label@ != label@,
            decreases n - i,
        {
            if self.entries[i].label.eq(label) {
                proof {
                    lemma_entries_map_index(self.entries@, i as int);
                }
                return Some(i);
            }
            i += 1;
        }
        proof {
            lemma_entries_map_absent(self.entries@, label@);
        }
        None
    }

    /// Registers a window under a label, replacing — and handing back —
    /// any window previously registered under it, so that the caller can
    /// dispose of that window's renderer explicitly.
    pub fn register(&mut self, label: String, window: EguiWindow) -> (prior: Option<EguiWindow>)
        requires
            old(self).well_formed(),
            window.well_formed(),
        ensures
            final(self)@ == old(self)@.insert(label@, window),
            final(self).well_formed(),
            prior == (if old(self)@.contains_key(label@) {
                Some(old(self)@[label@])
            } else {
                None::<EguiWindow>
            }),
    {
        let found = self.index_of(&label);
        match found {
            Some(i) => {
                let ghost s_old = self.entries@;
                let entry = &mut self.entries[i];
                let mut w = window;
                core::mem::swap(&mut entry.window, &mut w);
                proof {
                    assert(self.entries@ =~= s_old.update(
                        i as int,
                        RegistryEntry { label: s_old[i as int].label, window },
                    ));
                    lemma_entries_map_update(
                        s_old,
                        i as int,
                        RegistryEntry { label: s_old[i as int].label, window },
                    );
                    assert(final(self)@ =~= old(self)@.insert(label@, window));
                    assert forall|a: int, b: int|
                        0 <= a < b < self.entries@.len() implies (#[trigger] self.entries@[a])
                        .label@ != (#[trigger] self.entries@[b]).label@ by {
                        assert(self.entries@[a].label@ == s_old[a].label@);
                        assert(self.entries@[b].label@ == s_old[b].label@);
                        assert(s_old[a].label@ != s_old[b].label@);
                    }
                    assert forall|j: int|
                        0 <= j < self.entries@.len() implies (#[trigger] self.entries@[j])
                        .window.well_formed() by {
                        if j != i as int {
                            assert(self.entries@[j] == s_old[j]);
                        }
                    }
                }
                Some(w)
            },
            None => {
                let ghost s_old = self.entries@;
                self.entries.push(RegistryEntry { label, window });
                proof {
                    lemma_entries_map_push(s_old, self.entries@.last());
                    assert forall|a: int, b: int|
                        0 <= a < b < self.entries@.len() implies (#[trigger] self.entries@[a])
                        .label@ != (#[trigger] self.entries@[b]).label@ by {
                        assert(self.entries@[a] == s_old[a]);
                        if b < s_old.len() {
                            assert(self.entries@[b] == s_old[b]);
                            assert(s_old[a].label@ != s_old[b].label@);
                        } else {
                            assert(self.entries@[b].label@ == label@);
                            assert(s_old[a].label@ != label@);
                        }
                    }
                    assert forall|j: int|
                        0 <= j < self.entries@.len() implies (#[trigger] self.entries@[j])
                        .window.well_formed() by {
                        if j < s_old.len() {
                            assert(self.entries@[j] == s_old[j]);
                        }
                    }
                }
                None
            },
        }
    }

    /// Unregisters a label, handing back its window — with its renderer
    /// to be torn down — if one was registered.
    pub fn remove(&mut self, label: &str) -> (removed: Option<EguiWindow>)
        requires
            old(self).well_formed(),
        ensures
            final(self)@ == old(self)@.remove(label@),
            final(self).well_formed(),
            removed == (if old(self)@.contains_key(label@) {
                Some(old(self)@[label@])
            } else {
                None::<EguiWindow>
            }),
    {
        let owned: String = label.to_owned();
        let found = self.index_of(&owned);
        match found {
            Some(i) => {
                let ghost s_old = self.entries@;
                let entry = self.entries.remove(i);
                proof {
                    lemma_entries_map_remove(s_old, i as int);
                    assert forall|a: int, b: int|
                        0 <= a < b < self.entries@.len() implies (#[trigger] self.entries@[a])
                        .label@ != (#[trigger] self.entries@[b]).label@ by {
                        let a0 = if a < i { a } else { a + 1 };
                        let b0 = if b < i { b } else { b + 1 };
                        assert(self.entries@[a] == s_old[a0]);
                        assert(self.entries@[b] == s_old[b0]);
                        assert(s_old[a0].label@ != s_old[b0].label@);
                    }
                }
                Some(entry.window)
            },
            None => {
                proof {
                    assert(final(self)@ =~= old(self)@.remove(label@));
                }
                None
            },
        }
    }

    /// Whether a window is registered under the label.
    pub fn has_egui_window(&self, label: &str) -> (r: bool)
        requires
            self.well_formed(),
        ensures
            r == self@.contains_key(label@),
    {
        let owned: String = label.to_owned();
        self.index_of(&owned).is_some()
    }

    /// The GUI context of the window registered under the label, if any:
    /// a clone of the shared handle, so the same context.
    pub fn get_context(&self, label: &str) -> (r: Option<egui::Context>)
        requires
            self.well_formed(),
        ensures
            r is Some <==> self@.contains_key(label@),
            r is Some ==> r->Some_0 == self@[label@].context,
    {
        let owned: String = label.to_owned();
        match self.index_of(&owned) {
            Some(i) => Some(self.entries[i].window.context.clone()),
            None => None,
        }
    }
}

/// What the host loop must do after an event was dispatched.
#[derive(Debug, Clone, Copy, PartialEq, Eq, Structural)]
pub enum Action {
    /// Resize the window's renderer surface to this physical size before
    /// the next frame.
    ResizeRenderer { width: u32, height: u32 },
    /// Send the host loop a redraw request for this window.
    RequestRedraw,
}

/// The dispatcher's verdict on one window event: whether the event was
/// consumed, and what the host loop must do next.
#[derive(Debug, Clone, Copy, PartialEq, Eq, Structural)]
pub struct DispatchOutcome {
    pub consumed: bool,
    pub action: Option<Action>,
}

/// The physical pixel size the renderer must map the frame onto; the
/// pixels-per-point half of the full descriptor comes back from the GUI
/// context at frame time and is paired in by the host glue.
#[derive(Debug, Clone, Copy, PartialEq, Eq, Structural)]
pub struct ScreenDescriptor {
    pub width: u32,
    pub height: u32,
}

/// Everything a frame needs from the bridge: the drained input and the
/// screen descriptor built from the window's current size.
#[derive(Debug, Clone)]
pub struct FrameInputs {
    pub raw_input: InputSnapshot,
    pub screen: ScreenDescriptor,
}

/// How the host loop should wait for events.
#[derive(Debug, Clone, Copy, PartialEq, Eq, Structural)]
pub enum ControlFlowMode {
    Poll,
    Wait,
}

/// The bridge asks the host loop to poll continuously rather than sleep
/// until the next event, so redraw requests are serviced promptly — a
/// deliberate latency-over-CPU trade-off.
pub fn control_flow_policy() -> (r: ControlFlowMode)
    ensures
        r == ControlFlowMode::Poll,
{
    ControlFlowMode::Poll
}

/// The screen descriptor a frame of this window would be rendered with.
pub open spec fn spec_screen_descriptor(m: WindowView) -> ScreenDescriptor {
    ScreenDescriptor { width: m.size.width, height: m.size.height }
}

/// The decision after a frame: a window whose drawn content requested
/// continued animation gets exactly one further redraw request; one that
/// did not gets none.
pub fn finish_frame(repaint_requested: bool) -> (r: Option<Action>)
    ensures
        r == (if repaint_requested {
            Some(Action::RequestRedraw)
        } else {
            None::<Action>
        }),
{
    if repaint_requested {
        Some(Action::RequestRedraw)
    } else {
        None
    }
}

/// A resize is visible to the next frame: whatever input is recorded
/// between the resize and the redraw, the frame's screen descriptor
/// reports exactly the resized size.
pub proof fn lemma_resize_visible_to_next_frame(
    m: WindowView,
    width: u32,
    height: u32,
    evs: Seq<InputEvent>,
)
    ensures
        spec_screen_descriptor(spec_record_seq(spec_resize(m, width, height), evs)) == (
        ScreenDescriptor { width, height }),
{
    lemma_record_seq(spec_resize(m, width, height), evs);
}

/// The event dispatcher: routes native events to the windows it manages
/// and tells the host loop what to do next.  It has no state beyond the
/// registry.
pub struct EguiPlugin {
    pub windows: Registry,
}

impl EguiPlugin {
    pub open spec fn well_formed(self) -> bool {
        self.windows.well_formed()
    }

    /// A dispatcher managing no windows yet.
    pub fn new() -> (r: EguiPlugin)
        ensures
            r.windows@ == Map::<Seq<char>, EguiWindow>::empty(),
            r.well_formed(),
    {
        EguiPlugin { windows: Registry::new() }
    }

    /// Attaches a window to the bridge: builds fresh per-window state
    /// and registers it under the label, handing back any state that a
    /// prior registration of the same label had, so its renderer can be
    /// disposed of explicitly.
    pub fn start_egui_for_window(
        &mut self,
        label: String,
        width: u32,
        height: u32,
        scale_millis: u32,
        start_time: u64,
    ) -> (prior: Option<EguiWindow>)
        requires
            old(self).well_formed(),
            scale_millis >= 1,
        ensures
            final(self).well_formed(),
            final(self).windows@.dom() == old(self).windows@.dom().insert(label@),
            forall|k: Seq<char>| #![auto]
                old(self).windows@.contains_key(k) && k != label@ ==> final(self).windows@[k]
                    == old(self).windows@[k],
            final(self).windows@[label@]@ == (WindowView {
                size: PhysicalSize { width, height },
                scale_factor: ScaleFactor { millis: scale_millis },
                pending: Seq::<InputEvent>::empty(),
                pointer_pos: None::<LogicalPos>,
                start_time,
            }),
            prior == (if old(self).windows@.contains_key(label@) {
                Some(old(self).windows@[label@])
            } else {
                None::<EguiWindow>
            }),
    {
        let window = EguiWindow::new(width, height, scale_millis, start_time);
        let prior = self.windows.register(label, window);
        proof {
            assert(final(self).windows@.dom() =~= old(self).windows@.dom().insert(label@));
        }
        prior
    }

    /// Routes one native window event, already resolved to a label by
    /// the host glue.  An unmanaged label is silently ignored.  A resize
    /// updates the window's size and asks the host to resize the
    /// renderer, consuming the event.  Any other event is translated and
    /// recorded, a redraw is requested so the input is consumed
    /// promptly, and the event counts as consumed exactly when the
    /// translation produced something.
    pub fn on_window_event(&mut self, label: &str, event: &NativeEvent) -> (r: DispatchOutcome)
        requires
            old(self).well_formed(),
            event.well_formed(),
        ensures
            final(self).well_formed(),
            ({
                let m = old(self).windows@;
                if !m.contains_key(label@) {
                    &&& r == (DispatchOutcome { consumed: false, action: None::<Action> })
                    &&& *final(self) == *old(self)
                } else {
                    let wv = m[label@]@;
                    &&& final(self).windows@.dom() == m.dom()
                    &&& (forall|k: Seq<char>| #![auto]
                        m.contains_key(k) && k != label@ ==> final(self).windows@[k] == m[k])
                    &&& final(self).windows@[label@].context == m[label@].context
                    &&& match *event {
                        NativeEvent::Resized { width, height } => {
                            &&& r == (DispatchOutcome {
                                consumed: true,
                                action: Some(Action::ResizeRenderer { width, height }),
                            })
                            &&& final(self).windows@[label@]@ == spec_resize(wv, width, height)
                        },
                        _ => {
                            &&& r == (DispatchOutcome {
                                consumed: spec_translate(*event, wv.pointer_pos, wv.scale_factor)
                                    is Some,
                                action: Some(Action::RequestRedraw),
                            })
                            &&& final(self).windows@[label@]@ == spec_handle(wv, *event)
                        },
                    }
                }
            }),
    {
        let owned: String = label.to_owned();
        let found = self.windows.index_of(&owned);
        match found {
            None => DispatchOutcome { consumed: false, action: None },
            Some(i) => {
                let ghost s_old = self.windows.entries@;
                match event {
                    NativeEvent::Resized { width, height } => {
                        let w = *width;
                        let h = *height;
                        let entry = &mut self.windows.entries[i];
                        entry.window.resize(w, h);
                        proof {
                            self.lemma_after_entry_window_update(s_old, i as int, label@);
                        }
                        DispatchOutcome {
                            consumed: true,
                            action: Some(Action::ResizeRenderer { width: w, height: h }),
                        }
                    },
                    _ => {
                        let entry = &mut self.windows.entries[i];
                        let consumed = entry.window.handle_event(event);
                        proof {
                            self.lemma_after_entry_window_update(s_old, i as int, label@);
                        }
                        DispatchOutcome { consumed, action: Some(Action::RequestRedraw) }
                    },
                }
            },
        }
    }

    /// After one window's entry was replaced in place — label kept, the
    /// window's scale factor kept — the registry still denotes the same
    /// labels, every other window is untouched, and it is well formed.
    proof fn lemma_after_entry_window_update(
        self,
        s_old: Seq<RegistryEntry>,
        i: int,
        label: Seq<char>,
    )
        requires
            labels_unique(s_old),
            forall|j: int| 0 <= j < s_old.len() ==> (#[trigger] s_old[j]).window.well_formed(),
            0 <= i < s_old.len(),
            s_old[i].label@ == label,
            self.windows.entries@ == s_old.update(i, self.windows.entries@[i]),
            self.windows.entries@[i].label == s_old[i].label,
            self.windows.entries@[i].window.well_formed(),
        ensures
            self.windows.well_formed(),
            self.windows@ == entries_map(s_old).insert(label, self.windows.entries@[i].window),
            self.windows@.dom() == entries_map(s_old).dom(),
            forall|k: Seq<char>| #![auto]
                entries_map(s_old).contains_key(k) && k != label ==> self.windows@[k]
                    == entries_map(s_old)[k],
            self.windows@.contains_key(label),
            self.windows@[label] == self.windows.entries@[i].window,
    {
        let s_new = self.windows.entries@;
        lemma_entries_map_index(s_old, i);
        lemma_entries_map_update(s_old, i, s_new[i]);
        assert(entries_map(s_new).dom() =~= entries_map(s_old).dom());
        assert forall|a: int, b: int|
            0 <= a < b < s_new.len() implies (#[trigger] s_new[a]).label@ != (
        #[trigger] s_new[b]).label@ by {
            assert(s_new[a].label@ == s_old[a].label@);
            assert(s_new[b].label@ == s_old[b].label@);
            assert(s_old[a].label@ != s_old[b].label@);
        }
        assert forall|j: int|
            0 <= j < s_new.len() implies (#[trigger] s_new[j]).window.well_formed() by {
            if j != i {
                assert(s_new[j] == s_old[j]);
            }
        }
    }

    /// Begins a frame for a managed window: drains its pending input and
    /// pairs it with a screen descriptor built from the window's current
    /// physical size.  An unmanaged label yields nothing and changes
    /// nothing.
    pub fn on_redraw_requested(&mut self, label: &str, now_millis: u64) -> (r: Option<FrameInputs>)
        requires
            old(self).well_formed(),
        ensures
            final(self).well_formed(),
            ({
                let m = old(self).windows@;
                if !m.contains_key(label@) {
                    &&& r is None
                    &&& *final(self) == *old(self)
                } else {
                    let wv = m[label@]@;
                    &&& r is Some
                    &&& r->Some_0.raw_input.events@ == spec_take(wv).1
                    &&& r->Some_0.raw_input.elapsed_millis == spec_elapsed(wv, now_millis)
                    &&& r->Some_0.raw_input.screen_rect == spec_screen_rect(wv)
                    &&& r->Some_0.screen == spec_screen_descriptor(wv)
                    &&& final(self).windows@.dom() == m.dom()
                    &&& (forall|k: Seq<char>| #![auto]
                        m.contains_key(k) && k != label@ ==> final(self).windows@[k] == m[k])
                    &&& final(self).windows@[label@]@ == spec_take(wv).0
                    &&& final(self).windows@[label@].context == m[label@].context
                }
            }),
    {
        let owned: String = label.to_owned();
        let found = self.windows.index_of(&owned);
        match found {
            None => None,
            Some(i) => {
                let ghost s_old = self.windows.entries@;
                let entry = &mut self.windows.entries[i];
                let raw_input = entry.window.take_egui_input(now_millis);
                let screen = ScreenDescriptor {
                    width: entry.window.size.width,
                    height: entry.window.size.height,
                };
                proof {
                    self.lemma_after_entry_window_update(s_old, i as int, label@);
                }
                Some(FrameInputs { raw_input, screen })
            },
        }
    }

    /// Ends a frame: asks the window's GUI context whether the drawn
    /// content requested continued animation, and if so decides on one
    /// further redraw request — the self-sustaining animation loop.  An
    /// unmanaged label decides nothing.
    pub fn after_frame(&self, label: &str) -> (r: Option<Action>)
        requires
            self.well_formed(),
        ensures
            !self.windows@.contains_key(label@) ==> r is None,
            r is Some ==> self.windows@.contains_key(label@) && r == Some(Action::RequestRedraw),
    {
        let owned: String = label.to_owned();
        match self.windows.index_of(&owned) {
            None => None,
            Some(i) => {
                let repaint = self.windows.entries[i].window.context.has_requested_repaint();
                finish_frame(repaint)
            },
        }
    }
}

} // verus!
