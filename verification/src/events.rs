use vstd::prelude::*;
use crate::input::{Input, Key, MouseButton, keys_after_event, buttons_after_event, brush_keys_of};
use crate::paint::{Brush, Color, initial_brush, next_brush, reachable, size_step_fits};

verus! {

/// A window event, as far as the program's decisions depend on it.
#[derive(Clone, Copy, Debug, PartialEq, Eq, Structural)]
pub enum Event {
    /// The window now has this size in physical pixels.
    Resized { width: u32, height: u32 },
    /// A key went down or up; `key` is `None` when the window could not name it.
    Key { key: Option<Key>, pressed: bool },
    /// A mouse button went down or up.
    MouseButton { button: MouseButton, pressed: bool },
    /// The cursor moved; where it is, is kept outside the decisions.
    CursorMoved,
    /// The window asks for a new frame.
    RedrawRequested,
    /// The window is to be closed.
    CloseRequested,
    /// Any other event.
    Other,
}

/// Whether the event loop waits for the next event or ends.
#[derive(Clone, Copy, Debug, PartialEq, Eq, Structural)]
pub enum Flow {
    Wait,
    Exit,
}

/// Text stamped on the image where the cursor is: in this color, at this size.
#[derive(Clone, Copy, Debug, PartialEq, Eq, Structural)]
pub struct Stamp {
    pub color: Color,
    pub size: i32,
}

/// What the event loop is to do outside the decisions.
#[derive(Clone, Copy, Debug, PartialEq, Eq, Structural)]
pub enum Action {
    /// Nothing.
    Nothing,
    /// Configure the surface with this size, then ask the window for a new frame.
    Reconfigure { width: u32, height: u32 },
    /// Draw a frame: first stamp the image (when `stamp` is `Some`) and upload
    /// it, then render, then ask the window for the next frame.
    Redraw { stamp: Option<Stamp> },
}

/// The answer to one event.
#[derive(Clone, Copy, Debug, PartialEq, Eq, Structural)]
pub struct Step {
    pub flow: Flow,
    pub action: Action,
}

/// The state that the program's decisions keep between events.
pub struct DrawingState {
    /// Size of the surface the frames are drawn on.
    pub surface_width: u32,
    pub surface_height: u32,
    /// Keys and mouse buttons held down.
    pub input: Input,
    /// The brush.
    pub brush: Brush,
}

/// The stamp of a frame: the brush's color and size while the left mouse
/// button is held, none otherwise.
pub open spec fn stamp_for(held: Set<MouseButton>, b: Brush) -> Option<Stamp> {
    if held.contains(MouseButton::Left) {
        Some(Stamp { color: b.color, size: b.size })
    } else {
        None
    }
}

/// Whether the state can answer `event`: a frame must not move the brush size
/// out of `i32`.
pub open spec fn can_step(s: &DrawingState, event: Event) -> bool {
    event is RedrawRequested ==> size_step_fits(s.brush.size, brush_keys_of(s.input.held_keys()))
}

impl DrawingState {
    /// The state before the first event: nothing held, the first brush, and a
    /// surface of the window's size.
    pub fn new(surface_width: u32, surface_height: u32) -> (s: DrawingState)
        ensures
            s.surface_width == surface_width,
            s.surface_height == surface_height,
            s.input.held_keys() == Set::<Key>::empty(),
            s.input.held_buttons() == Set::<MouseButton>::empty(),
            s.brush == initial_brush(),
            reachable(s.brush),
    {
        DrawingState { surface_width, surface_height, input: Input::new(), brush: Brush::initial() }
    }

    /// Answers one event: updates the state and says what the loop does next.
    pub fn step(&mut self, event: Event) -> (st: Step)
        requires
            can_step(old(self), event),
        ensures
            st.flow == (if event is CloseRequested { Flow::Exit } else { Flow::Wait }),
            event is RedrawRequested ==> st.action == (Action::Redraw {
                stamp: if old(self).input.held_buttons().contains(MouseButton::Left) {
                    Some(Stamp { color: final(self).brush.color, size: final(self).brush.size })
                } else {
                    None
                },
            }),
            reachable(old(self).brush) ==> reachable(final(self).brush),
            match event {
                Event::Resized { width, height } => {
                    &&& final(self).surface_width == width
                    &&& final(self).surface_height == height
                    &&& final(self).input.held_keys() == old(self).input.held_keys()
                    &&& final(self).input.held_buttons() == old(self).input.held_buttons()
                    &&& final(self).brush == old(self).brush
                    &&& st.action == Action::Reconfigure { width, height }
                },
                Event::Key { key, pressed } => {
                    &&& final(self).surface_width == old(self).surface_width
                    &&& final(self).surface_height == old(self).surface_height
                    &&& final(self).input.held_keys() == match key {
                        Some(k) => keys_after_event(old(self).input.held_keys(), k, pressed),
                        None => old(self).input.held_keys(),
                    }
                    &&& final(self).input.held_buttons() == old(self).input.held_buttons()
                    &&& final(self).brush == old(self).brush
                    &&& st.action == Action::Nothing
                },
                Event::MouseButton { button, pressed } => {
                    &&& final(self).surface_width == old(self).surface_width
                    &&& final(self).surface_height == old(self).surface_height
                    &&& final(self).input.held_keys() == old(self).input.held_keys()
                    &&& final(self).input.held_buttons() == buttons_after_event(
                        old(self).input.held_buttons(),
                        button,
                        pressed,
                    )
                    &&& final(self).brush == old(self).brush
                    &&& st.action == Action::Nothing
                },
                Event::RedrawRequested => {
                    &&& final(self).surface_width == old(self).surface_width
                    &&& final(self).surface_height == old(self).surface_height
                    &&& final(self).input.held_keys() == old(self).input.held_keys()
                    &&& final(self).input.held_buttons() == old(self).input.held_buttons()
                    &&& final(self).brush == next_brush(
                        old(self).brush,
                        brush_keys_of(old(self).input.held_keys()),
                    )
                    &&& st.action == Action::Redraw {
                        stamp: stamp_for(old(self).input.held_buttons(), final(self).brush),
                    }
                },
                _ => {
                    &&& final(self).surface_width == old(self).surface_width
                    &&& final(self).surface_height == old(self).surface_height
                    &&& final(self).input.held_keys() == old(self).input.held_keys()
                    &&& final(self).input.held_buttons() == old(self).input.held_buttons()
                    &&& final(self).brush == old(self).brush
                    &&& st.action == Action::Nothing
                },
            },
    {
        match event {
            Event::Resized { width, height } => {
                self.surface_width = width;
                self.surface_height = height;
                Step { flow: Flow::Wait, action: Action::Reconfigure { width, height } }
            },
            Event::Key { key, pressed } => {
                self.input.handle_key_event(key, pressed);
                Step { flow: Flow::Wait, action: Action::Nothing }
            },
            Event::MouseButton { button, pressed } => {
                self.input.handle_mouse_button(button, pressed);
                Step { flow: Flow::Wait, action: Action::Nothing }
            },
            Event::RedrawRequested => {
                let keys = self.input.brush_keys();
                proof {
                    if reachable(self.brush) {
                        crate::paint::lemma_brush_stays_reachable(self.brush, keys);
                    }
                }
                self.brush.apply_keys(keys);
                let stamp = if self.input.is_mouse_down(MouseButton::Left) {
                    Some(Stamp { color: self.brush.color, size: self.brush.size })
                } else {
                    None
                };
                Step { flow: Flow::Wait, action: Action::Redraw { stamp } }
            },
            Event::CloseRequested => Step { flow: Flow::Exit, action: Action::Nothing },
            _ => Step { flow: Flow::Wait, action: Action::Nothing },
        }
    }
}

/// From a state whose brush is one the program can reach, every event can be
/// answered: the size of the brush never leaves `i32`, however long the
/// program runs.
pub proof fn lemma_reachable_state_answers_every_event(s: &DrawingState, event: Event)
    requires
        reachable(s.brush),
    ensures
        can_step(s, event),
{
    crate::paint::lemma_brush_stays_reachable(s.brush, brush_keys_of(s.input.held_keys()));
}

/// A frame stamps exactly while the left button is held, whatever other
/// buttons are held, and the stamp carries the brush's own color (all four
/// channels) and size.
pub proof fn lemma_stamp_only_with_left_button(held: Set<MouseButton>, b: Brush)
    ensures
        stamp_for(held, b) is Some <==> held.contains(MouseButton::Left),
        held.contains(MouseButton::Left) ==> stamp_for(held, b) == Some(
            Stamp { color: b.color, size: b.size },
        ),
        stamp_for(held.insert(MouseButton::Middle), b) is Some <==> held.contains(MouseButton::Left),
        stamp_for(held.insert(MouseButton::Right), b) is Some <==> held.contains(MouseButton::Left),
{
    assert(held.insert(MouseButton::Middle).contains(MouseButton::Left) <==> held.contains(
        MouseButton::Left,
    ));
    assert(held.insert(MouseButton::Right).contains(MouseButton::Left) <==> held.contains(
        MouseButton::Left,
    ));
}

/// A redraw with no brush key held stamps with the color and size the brush
/// already had: from the start that is opaque red (255, 0, 0, 255) at size 10.
pub proof fn lemma_redraw_without_keys_stamps_current_brush(held: Set<MouseButton>, b: Brush)
    requires
        held.contains(MouseButton::Left),
    ensures
        stamp_for(held, next_brush(b, brush_keys_of(Set::<Key>::empty()))) == Some(
            Stamp { color: b.color, size: b.size },
        ),
        stamp_for(held, next_brush(initial_brush(), brush_keys_of(Set::<Key>::empty()))) == Some(
            Stamp { color: Color { r: 255, g: 0, b: 0, a: 255 }, size: 10 },
        ),
{
}

} // verus!
