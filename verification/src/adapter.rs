//! The integration adapter: its abstract state, the transitions each call
//! makes, and the executable adapter proved against them.

use vstd::prelude::*;

use crate::events::Event;
use crate::events::KeyMods;
use crate::events::MouseButton;
use crate::events::Submission;

verus! {

/// The abstract state of the adapter: what the host framework has buffered,
/// what the GUI toolkit has received, whether a UI was built this frame, and
/// the draw submissions issued so far.
#[verifier::ext_equal]
pub ghost struct AdapterView {
    /// Events the host framework buffered since the last replay, oldest first.
    pub pending: Seq<Event>,
    /// Events the GUI toolkit has received, oldest first.
    pub delivered: Seq<Event>,
    /// Whether a UI has been built since the last render.
    pub ui_built: bool,
    /// Draw submissions issued to the shared graphics context, oldest first.
    pub submissions: Seq<Submission>,
}

/// The state of a freshly constructed adapter: nothing buffered, nothing
/// delivered, no UI built, nothing submitted.
pub open spec fn init_state() -> AdapterView {
    AdapterView {
        pending: Seq::empty(),
        delivered: Seq::empty(),
        ui_built: false,
        submissions: Seq::empty(),
    }
}

/// The host framework records `e` for the next replay.
pub open spec fn record_transition(s: AdapterView, e: Event) -> AdapterView {
    AdapterView { pending: s.pending.push(e), ..s }
}

/// The GUI toolkit receives `e`.
pub open spec fn deliver_transition(s: AdapterView, e: Event) -> AdapterView {
    AdapterView { delivered: s.delivered.push(e), ..s }
}

/// A UI build: every buffered event is replayed to the toolkit, oldest
/// first, and the toolkit's frame is run with the caller's UI content.
pub open spec fn build_ui_transition(s: AdapterView) -> AdapterView {
    AdapterView { pending: Seq::empty(), delivered: s.delivered + s.pending, ui_built: true, ..s }
}

/// A render: the host's queued primitives are flushed to the shared context
/// first, then the toolkit renders its own on top; the frame's UI is spent.
pub open spec fn render_transition(s: AdapterView) -> AdapterView {
    AdapterView {
        ui_built: false,
        submissions: s.submissions.push(Submission::HostFlush).push(Submission::ToolkitRender),
        ..s
    }
}

/// The integration adapter. It relays input events from the host framework
/// to the GUI toolkit and sequences the two draw submissions of each frame.
pub struct EguiMqInteg {
    pending: Vec<Event>,
    delivered: Vec<Event>,
    ui_built: bool,
    submissions: Vec<Submission>,
}

impl View for EguiMqInteg {
    type V = AdapterView;

    closed spec fn view(&self) -> AdapterView {
        AdapterView {
            pending: self.pending@,
            delivered: self.delivered@,
            ui_built: self.ui_built,
            submissions: self.submissions@,
        }
    }
}

impl EguiMqInteg {
    /// Create a new adapter in its initial state.
    pub fn new() -> (r: Self)
        ensures
            r@ == init_state(),
    {
        EguiMqInteg { pending: Vec::new(), delivered: Vec::new(), ui_built: false, submissions: Vec::new() }
    }

    /// The host framework records an event for the next replay.
    pub fn record_event(&mut self, e: Event)
        ensures
            final(self)@ == record_transition(old(self)@, e),
    {
        self.pending.push(e);
    }

    /// Build the UI for this frame: replay every buffered event to the
    /// toolkit, oldest first, then run the toolkit's frame with the caller's
    /// UI content.
    pub fn ui(&mut self)
        ensures
            final(self)@ == build_ui_transition(old(self)@),
    {
        let n = self.pending.len();
        let mut i: usize = 0;
        while i < n
            invariant
                i <= n,
                n == old(self)@.pending.len(),
                self@.pending == old(self)@.pending,
                self@.ui_built == old(self)@.ui_built,
                self@.submissions == old(self)@.submissions,
                self@.delivered == old(self)@.delivered + old(self)@.pending.subrange(0, i as int),
            decreases n - i,
        {
            let e = self.pending[i];
            self.forward_event(e);
            proof {
                assert(self@.delivered =~= old(self)@.delivered + old(self)@.pending.subrange(
                    0,
                    i as int + 1,
                ));
            }
            i += 1;
        }
        self.pending = Vec::new();
        self.ui_built = true;
        proof {
            assert(old(self)@.pending.subrange(0, n as int) =~= old(self)@.pending);
            assert(self@ =~= build_ui_transition(old(self)@));
        }
    }

    /// Render the frame: flush the host framework's queued primitives to the
    /// shared graphics context, then have the toolkit render its own on top.
    pub fn draw(&mut self)
        ensures
            final(self)@ == render_transition(old(self)@),
    {
        self.submissions.push(Submission::HostFlush);
        self.submissions.push(Submission::ToolkitRender);
        self.ui_built = false;
    }

    /// Forward one event to the toolkit's matching handler.
    fn forward_event(&mut self, e: Event)
        ensures
            final(self)@ == deliver_transition(old(self)@, e),
    {
        match e {
            Event::MouseMotion { x_bits, y_bits } => self.mouse_motion_event(x_bits, y_bits),
            Event::MouseWheel { dx_bits, dy_bits } => self.mouse_wheel_event(dx_bits, dy_bits),
            Event::MouseButtonDown { button, x_bits, y_bits } => self.mouse_button_down_event(
                button,
                x_bits,
                y_bits,
            ),
            Event::MouseButtonUp { button, x_bits, y_bits } => self.mouse_button_up_event(
                button,
                x_bits,
                y_bits,
            ),
            Event::CharInput { character } => self.char_event(character),
            Event::KeyDown { keycode, mods } => self.key_down_event(keycode, mods),
            Event::KeyUp { keycode, mods } => self.key_up_event(keycode, mods),
        }
    }

    /// The host's per-frame update hook: the adapter drives nothing itself.
    pub fn update(&mut self)
        ensures
            final(self)@ == old(self)@,
    {
    }

    /// Forward a mouse motion event to the toolkit unchanged.
    pub fn mouse_motion_event(&mut self, x_bits: u32, y_bits: u32)
        ensures
            final(self)@ == deliver_transition(old(self)@, (Event::MouseMotion { x_bits, y_bits })),
    {
        self.delivered.push(Event::MouseMotion { x_bits, y_bits });
    }

    /// Forward a mouse wheel event to the toolkit unchanged.
    pub fn mouse_wheel_event(&mut self, dx_bits: u32, dy_bits: u32)
        ensures
            final(self)@ == deliver_transition(old(self)@, (Event::MouseWheel { dx_bits, dy_bits })),
    {
        self.delivered.push(Event::MouseWheel { dx_bits, dy_bits });
    }

    /// Forward a mouse button press to the toolkit unchanged.
    pub fn mouse_button_down_event(&mut self, button: MouseButton, x_bits: u32, y_bits: u32)
        ensures
            final(self)@ == deliver_transition(
                old(self)@,
                (Event::MouseButtonDown { button, x_bits, y_bits }),
            ),
    {
        self.delivered.push(Event::MouseButtonDown { button, x_bits, y_bits });
    }

    /// Forward a mouse button release to the toolkit unchanged.
    pub fn mouse_button_up_event(&mut self, button: MouseButton, x_bits: u32, y_bits: u32)
        ensures
            final(self)@ == deliver_transition(
                old(self)@,
                (Event::MouseButtonUp { button, x_bits, y_bits }),
            ),
    {
        self.delivered.push(Event::MouseButtonUp { button, x_bits, y_bits });
    }

    /// Forward a character input event to the toolkit unchanged. The host
    /// also reports modifiers and a repeat flag with a character, but the
    /// toolkit's character handler takes the character alone.
    pub fn char_event(&mut self, character: char)
        ensures
            final(self)@ == deliver_transition(old(self)@, (Event::CharInput { character })),
    {
        self.delivered.push(Event::CharInput { character });
    }

    /// Forward a key press to the toolkit unchanged. The host also reports a
    /// repeat flag, which the toolkit's handler does not take.
    pub fn key_down_event(&mut self, keycode: u32, mods: KeyMods)
        ensures
            final(self)@ == deliver_transition(old(self)@, (Event::KeyDown { keycode, mods })),
    {
        self.delivered.push(Event::KeyDown { keycode, mods });
    }

    /// Forward a key release to the toolkit unchanged.
    pub fn key_up_event(&mut self, keycode: u32, mods: KeyMods)
        ensures
            final(self)@ == deliver_transition(old(self)@, (Event::KeyUp { keycode, mods })),
    {
        self.delivered.push(Event::KeyUp { keycode, mods });
    }

    /// The events buffered for the next replay, oldest first.
    pub fn pending_events(&self) -> (r: &Vec<Event>)
        ensures
            r@ == self@.pending,
    {
        &self.pending
    }

    /// The events the toolkit has received, oldest first.
    pub fn delivered_events(&self) -> (r: &Vec<Event>)
        ensures
            r@ == self@.delivered,
    {
        &self.delivered
    }

    /// Whether a UI has been built since the last render.
    pub fn ui_was_built(&self) -> (r: bool)
        ensures
            r == self@.ui_built,
    {
        self.ui_built
    }

    /// The draw submissions issued so far, oldest first.
    pub fn submission_log(&self) -> (r: &Vec<Submission>)
        ensures
            r@ == self@.submissions,
    {
        &self.submissions
    }
}

impl Default for EguiMqInteg {
    /// A new adapter in its initial state.
    fn default() -> (r: Self)
        ensures
            r@ == init_state(),
    {
        EguiMqInteg::new()
    }
}

} // verus!
