use vstd::prelude::*;

verus! {

/// The keys the application reacts to.
#[derive(Clone, Copy, Debug, PartialEq, Eq, Structural)]
pub enum Key {
    W,
    A,
    S,
    D,
    Space,
    Other,
}

/// Where a key event goes.
#[derive(Clone, Copy, Debug, PartialEq, Eq, Structural)]
pub enum KeyRoute {
    /// Pause or resume the simulation; the camera does not see the event.
    TogglePause,
    /// Hand the event to the camera controller.
    Camera,
}

/// A press of the space bar pauses or resumes the simulation; every other key
/// event, and the release of the space bar, goes to the camera.
pub fn route_key(key: Key, is_pressed: bool) -> (r: KeyRoute)
    ensures
        r == (if key == Key::Space && is_pressed { KeyRoute::TogglePause } else { KeyRoute::Camera }),
{
    if key == Key::Space && is_pressed {
        KeyRoute::TogglePause
    } else {
        KeyRoute::Camera
    }
}

/// Which of the movement keys (W up, S down, A left, D right) are held.
#[derive(Clone, Copy, Debug, PartialEq, Eq, Structural)]
pub struct MovementKeys {
    pub is_up_pressed: bool,
    pub is_down_pressed: bool,
    pub is_left_pressed: bool,
    pub is_right_pressed: bool,
}

impl MovementKeys {
    /// No key held.
    pub fn new() -> (r: MovementKeys)
        ensures
            !r.is_up_pressed && !r.is_down_pressed && !r.is_left_pressed && !r.is_right_pressed,
    {
        MovementKeys { is_up_pressed: false, is_down_pressed: false, is_left_pressed: false, is_right_pressed: false }
    }

    /// Records a press or release of `key`; returns whether `key` is a movement key.
    /// Only the flag of that key changes.
    pub fn move_camera(&mut self, key: Key, is_pressed: bool) -> (r: bool)
        ensures
            r == (key == Key::W || key == Key::S || key == Key::A || key == Key::D),
            *final(self) == (match key {
                Key::W => MovementKeys { is_up_pressed: is_pressed, ..*old(self) },
                Key::S => MovementKeys { is_down_pressed: is_pressed, ..*old(self) },
                Key::A => MovementKeys { is_left_pressed: is_pressed, ..*old(self) },
                Key::D => MovementKeys { is_right_pressed: is_pressed, ..*old(self) },
                _ => *old(self),
            }),
    {
        match key {
            Key::W => {
                self.is_up_pressed = is_pressed;
                true
            },
            Key::S => {
                self.is_down_pressed = is_pressed;
                true
            },
            Key::A => {
                self.is_left_pressed = is_pressed;
                true
            },
            Key::D => {
                self.is_right_pressed = is_pressed;
                true
            },
            _ => false,
        }
    }
}

/// The mouse buttons the camera controller reacts to.
#[derive(Clone, Copy, Debug, PartialEq, Eq, Structural)]
pub enum MouseButton {
    Left,
    Right,
    Middle,
    Other,
}

/// The mouse as the orbit camera sees it: which buttons are held, where the
/// cursor is, and where it was when the last drag delta was taken.
#[derive(Clone, Copy, Debug, PartialEq, Eq, Structural)]
pub struct PointerState<P> {
    pub is_left_pressed: bool,
    pub is_right_pressed: bool,
    pub is_middle_pressed: bool,
    pub mouse_position: P,
    pub last_mouse_position: P,
}

impl<P: Copy> PointerState<P> {
    /// No button held, cursor at `origin`.
    pub fn new(origin: P) -> (r: PointerState<P>)
        ensures
            !r.is_left_pressed && !r.is_right_pressed && !r.is_middle_pressed,
            r.mouse_position == origin,
            r.last_mouse_position == origin,
    {
        PointerState {
            is_left_pressed: false,
            is_right_pressed: false,
            is_middle_pressed: false,
            mouse_position: origin,
            last_mouse_position: origin,
        }
    }

    /// Whether any of the three buttons is held.
    pub open spec fn dragging(self) -> bool {
        self.is_left_pressed || self.is_right_pressed || self.is_middle_pressed
    }

    /// The state after the cursor moved to `pos`.
    pub open spec fn moved(self, pos: P) -> PointerState<P> {
        PointerState {
            mouse_position: pos,
            last_mouse_position: if self.dragging() { self.last_mouse_position } else { pos },
            ..self
        }
    }

    /// The state after `button` was pressed (`is_pressed`) or released.
    pub open spec fn clicked(self, button: MouseButton, is_pressed: bool) -> PointerState<P> {
        PointerState {
            is_left_pressed: if button == MouseButton::Left { is_pressed } else { self.is_left_pressed },
            is_right_pressed: if button == MouseButton::Right { is_pressed } else { self.is_right_pressed },
            is_middle_pressed: if button == MouseButton::Middle { is_pressed } else { self.is_middle_pressed },
            last_mouse_position: if is_pressed { self.mouse_position } else { self.last_mouse_position },
            ..self
        }
    }

    /// Moves the cursor to `pos`. Without a button held the reference point follows
    /// the cursor, so that moving without dragging produces no drag.
    pub fn update_mouse_position(&mut self, pos: P)
        ensures
            *final(self) == old(self).moved(pos),
    {
        self.mouse_position = pos;
        if !self.is_left_pressed && !self.is_right_pressed && !self.is_middle_pressed {
            self.last_mouse_position = pos;
        }
    }

    /// Records a press or release of `button`. A press moves the reference point to
    /// the cursor, so a drag starts from where the button went down.
    pub fn handle_mouse_click(&mut self, button: MouseButton, is_pressed: bool)
        ensures
            *final(self) == old(self).clicked(button, is_pressed),
            final(self).is_left_pressed == (if button == MouseButton::Left { is_pressed } else { old(self).is_left_pressed }),
            final(self).is_right_pressed == (if button == MouseButton::Right { is_pressed } else { old(self).is_right_pressed }),
            final(self).is_middle_pressed == (if button == MouseButton::Middle { is_pressed } else { old(self).is_middle_pressed }),
            final(self).mouse_position == old(self).mouse_position,
            final(self).last_mouse_position == (if is_pressed { old(self).mouse_position } else { old(self).last_mouse_position }),
    {
        match button {
            MouseButton::Left => self.is_left_pressed = is_pressed,
            MouseButton::Right => self.is_right_pressed = is_pressed,
            MouseButton::Middle => self.is_middle_pressed = is_pressed,
            MouseButton::Other => {},
        }
        if is_pressed {
            self.last_mouse_position = self.mouse_position;
        }
    }

    /// Takes the drag of this frame: returns the reference point and the cursor
    /// (the drag runs from the first to the second) and makes the cursor the new
    /// reference point.
    pub fn take_drag(&mut self) -> (r: (P, P))
        ensures
            r == (old(self).last_mouse_position, old(self).mouse_position),
            *final(self) == (PointerState { last_mouse_position: old(self).mouse_position, ..*old(self) }),
    {
        let from = self.last_mouse_position;
        self.last_mouse_position = self.mouse_position;
        (from, self.mouse_position)
    }
}

/// Moving the cursor with no button held leaves no drag (reference point and
/// cursor coincide); with a button pressed at `start` and the cursor then moved
/// to `end` while it is held, the drag runs from `start` to `end`.
pub proof fn lemma_drag_follows_button<P: Copy>(s: PointerState<P>, button: MouseButton, start: P, end: P)
    ensures
        !s.dragging() ==> s.moved(end).last_mouse_position == s.moved(end).mouse_position,
        button != MouseButton::Other ==> ({
            let pressed = s.moved(start).clicked(button, true).moved(end);
            pressed.last_mouse_position == start && pressed.mouse_position == end
        }),
{
}

/// What the simulation does in a frame.
#[derive(Clone, Copy, Debug, PartialEq, Eq, Structural)]
pub enum SimulationAction {
    /// Submit an empty command buffer, so that the frame's timeline still advances.
    SubmitEmpty,
    /// Record a world update and hand the render data to the visualizer.
    StepAndPublish,
}

/// Whether the simulation is paused. It starts paused.
#[derive(Clone, Copy, Debug, PartialEq, Eq, Structural)]
pub struct SimulationControl {
    pub paused: bool,
}

impl SimulationControl {
    /// A paused simulation.
    pub fn new() -> (r: SimulationControl)
        ensures
            r.paused,
    {
        SimulationControl { paused: true }
    }

    /// Pauses a running simulation or resumes a paused one.
    pub fn toggle_pause(&mut self)
        ensures
            final(self).paused == !old(self).paused,
    {
        self.paused = !self.paused;
    }

    /// The frame's work: nothing but an empty submission while paused.
    pub fn update_action(&self) -> (r: SimulationAction)
        ensures
            r == (if self.paused { SimulationAction::SubmitEmpty } else { SimulationAction::StepAndPublish }),
    {
        if self.paused {
            SimulationAction::SubmitEmpty
        } else {
            SimulationAction::StepAndPublish
        }
    }
}

/// A press or release of a button changes the flag of that button alone: the
/// left button sets only the left flag, the right button only the right flag, the
/// middle button only the middle flag, and any other button none. The cursor
/// stays; a press makes the cursor the reference point of the next drag.
pub proof fn lemma_click_sets_only_its_button<P: Copy>(s: PointerState<P>, button: MouseButton, p: bool)
    ensures
        ({
            let c = s.clicked(button, p);
            &&& button == MouseButton::Left ==> c.is_left_pressed == p && c.is_right_pressed == s.is_right_pressed
                && c.is_middle_pressed == s.is_middle_pressed
            &&& button == MouseButton::Right ==> c.is_right_pressed == p && c.is_left_pressed == s.is_left_pressed
                && c.is_middle_pressed == s.is_middle_pressed
            &&& button == MouseButton::Middle ==> c.is_middle_pressed == p && c.is_left_pressed == s.is_left_pressed
                && c.is_right_pressed == s.is_right_pressed
            &&& button == MouseButton::Other ==> c.is_left_pressed == s.is_left_pressed
                && c.is_right_pressed == s.is_right_pressed && c.is_middle_pressed == s.is_middle_pressed
            &&& c.mouse_position == s.mouse_position
            &&& c.last_mouse_position == (if p { s.mouse_position } else { s.last_mouse_position })
            &&& (c.dragging() <== p && button != MouseButton::Other)
        }),
{
}

} // verus!
