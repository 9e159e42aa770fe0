//! Input intake for the free-flying camera: movement intents and look motion.
//!
//! The controller records which movement keys are held and how far the cursor
//! stands from the screen center. Each update hands out the movements to apply
//! and the look offset, and consumes that offset so that it is applied once.
use vstd::prelude::*;
use crate::input::{Event, Key};

verus! {

/// One translation of the camera during an update. Eye and target move by the
/// same vector: along the up vector, the view direction or the right vector.
#[derive(Clone, Copy, Debug, PartialEq, Eq, Structural)]
pub enum Movement {
    Up,
    Down,
    Forward,
    Backward,
    Right,
    Left,
}

/// What one camera update has to apply: the translations, in order, and the
/// cursor offset from the screen center, in pixels, that drives yaw and pitch.
pub struct CameraStep {
    pub moves: Vec<Movement>,
    pub look: (i64, i64),
}

/// Movement intents and the pending look offset of the camera.
#[derive(Clone, Copy, Debug)]
pub struct CameraController {
    pub is_forward_pressed: bool,
    pub is_backward_pressed: bool,
    pub is_left_pressed: bool,
    pub is_right_pressed: bool,
    pub is_up_pressed: bool,
    pub is_down_pressed: bool,
    /// The point cursor offsets are measured from; while the mouse is captured
    /// the cursor is brought back there after each event.
    pub screen_center: (u32, u32),
    /// Offset of the last cursor position from the screen center.
    pub mouse_delta: (i64, i64),
}

/// The keys that steer the camera: W and S forward and back, A and D left and
/// right, E up and Q down.
pub open spec fn is_movement_key(key: Key) -> bool {
    match key {
        Key::W | Key::S | Key::A | Key::D | Key::E | Key::Q => true,
        _ => false,
    }
}

/// A key event on one of the movement keys, which the controller consumes.
pub open spec fn is_movement_event(event: Event) -> bool {
    match event {
        Event::Key { key, pressed: _ } => is_movement_key(key),
        _ => false,
    }
}

/// A sequence of events none of which moves the cursor.
pub open spec fn no_cursor_motion(events: Seq<Event>) -> bool {
    forall|i: int| 0 <= i < events.len() ==> !(#[trigger] events[i] is CursorMoved)
}

/// The movement `m` when its key is `held`, else nothing.
pub open spec fn when_held(held: bool, m: Movement) -> Seq<Movement> {
    if held {
        seq![m]
    } else {
        seq![]
    }
}

impl CameraController {
    /// The controller after `key` went down (`pressed`) or up.
    pub open spec fn with_key(self, key: Key, pressed: bool) -> CameraController {
        match key {
            Key::W => CameraController { is_forward_pressed: pressed, ..self },
            Key::S => CameraController { is_backward_pressed: pressed, ..self },
            Key::A => CameraController { is_left_pressed: pressed, ..self },
            Key::D => CameraController { is_right_pressed: pressed, ..self },
            Key::E => CameraController { is_up_pressed: pressed, ..self },
            Key::Q => CameraController { is_down_pressed: pressed, ..self },
            _ => self,
        }
    }

    /// The controller after it took in `event`.
    pub open spec fn after_event(self, event: Event) -> CameraController {
        match event {
            Event::CursorMoved { x, y } => CameraController {
                mouse_delta: (
                    (x - self.screen_center.0) as i64,
                    (y - self.screen_center.1) as i64,
                ),
                ..self
            },
            Event::Key { key, pressed } => self.with_key(key, pressed),
            _ => self,
        }
    }

    /// The controller after it took in `events`, first to last.
    pub open spec fn after_events(self, events: Seq<Event>) -> CameraController
        decreases events.len(),
    {
        if events.len() == 0 {
            self
        } else {
            self.after_event(events[0]).after_events(events.drop_first())
        }
    }

    /// The translations of one update, in the order they are applied: up, down,
    /// forward, backward, right, left, each one whose key is held.
    pub open spec fn pending_moves(self) -> Seq<Movement> {
        when_held(self.is_up_pressed, Movement::Up) + when_held(
            self.is_down_pressed,
            Movement::Down,
        ) + when_held(self.is_forward_pressed, Movement::Forward) + when_held(
            self.is_backward_pressed,
            Movement::Backward,
        ) + when_held(self.is_right_pressed, Movement::Right) + when_held(
            self.is_left_pressed,
            Movement::Left,
        )
    }

    /// The controller once an update has consumed the look offset.
    pub open spec fn consumed(self) -> CameraController {
        CameraController { mouse_delta: (0, 0), ..self }
    }

    /// The controller with no key held and no pending look motion, measuring
    /// cursor offsets from `screen_center`.
    pub open spec fn at_rest(screen_center: (u32, u32)) -> CameraController {
        CameraController {
            is_forward_pressed: false,
            is_backward_pressed: false,
            is_left_pressed: false,
            is_right_pressed: false,
            is_up_pressed: false,
            is_down_pressed: false,
            screen_center,
            mouse_delta: (0, 0),
        }
    }

    /// A controller with no key held, no pending look motion, and the given
    /// screen center.
    pub fn new(screen_center: (u32, u32)) -> (r: CameraController)
        ensures
            r == CameraController::at_rest(screen_center),
    {
        CameraController {
            is_forward_pressed: false,
            is_backward_pressed: false,
            is_left_pressed: false,
            is_right_pressed: false,
            is_up_pressed: false,
            is_down_pressed: false,
            screen_center,
            mouse_delta: (0, 0),
        }
    }

    /// Takes in one window event. A cursor move records the cursor's offset from
    /// the screen center; a movement key sets its intent to whether the key is
    /// down. Returns whether the event was a movement key, which the caller
    /// then handles no further.
    pub fn process_events(&mut self, event: &Event) -> (r: bool)
        ensures
            *final(self) == old(self).after_event(*event),
            r == is_movement_event(*event),
    {
        match event {
            Event::CursorMoved { x, y } => {
                self.mouse_delta = (
                    *x as i64 - self.screen_center.0 as i64,
                    *y as i64 - self.screen_center.1 as i64,
                );
                false
            },
            Event::Key { key, pressed } => {
                let is_pressed = *pressed;
                match key {
                    Key::W => {
                        self.is_forward_pressed = is_pressed;
                        true
                    },
                    Key::S => {
                        self.is_backward_pressed = is_pressed;
                        true
                    },
                    Key::A => {
                        self.is_left_pressed = is_pressed;
                        true
                    },
                    Key::D => {
                        self.is_right_pressed = is_pressed;
                        true
                    },
                    Key::E => {
                        self.is_up_pressed = is_pressed;
                        true
                    },
                    Key::Q => {
                        self.is_down_pressed = is_pressed;
                        true
                    },
                    _ => false,
                }
            },
            _ => false,
        }
    }

    /// Starts one camera update: returns the translations to apply, in order,
    /// and the pending look offset, which is consumed so that the next update
    /// sees none unless the cursor moves again.
    pub fn update_camera(&mut self) -> (r: CameraStep)
        ensures
            r.moves@ == old(self).pending_moves(),
            r.look == old(self).mouse_delta,
            *final(self) == old(self).consumed(),
    {
        let mut moves: Vec<Movement> = Vec::new();
        if self.is_up_pressed {
            moves.push(Movement::Up);
        }
        if self.is_down_pressed {
            moves.push(Movement::Down);
        }
        if self.is_forward_pressed {
            moves.push(Movement::Forward);
        }
        if self.is_backward_pressed {
            moves.push(Movement::Backward);
        }
        if self.is_right_pressed {
            moves.push(Movement::Right);
        }
        if self.is_left_pressed {
            moves.push(Movement::Left);
        }
        proof {
            assert(moves@ =~= self.pending_moves());
        }
        let look = self.mouse_delta;
        self.mouse_delta = (0, 0);
        CameraStep { moves, look }
    }

    /// The controller's whole state, for display.
    pub fn get_camera_state(&self) -> (r: &CameraController)
        ensures
            *r == *self,
    {
        self
    }

    /// Moves the point that cursor offsets are measured from.
    pub fn update_screen_center(&mut self, screen_center: (u32, u32))
        ensures
            *final(self) == (CameraController { screen_center, ..*old(self) }),
    {
        self.screen_center = screen_center;
    }
}

/// Events that do not move the cursor leave the pending look offset as it is.
proof fn lemma_events_keep_look(c: CameraController, events: Seq<Event>)
    requires
        no_cursor_motion(events),
    ensures
        c.after_events(events).mouse_delta == c.mouse_delta,
        c.after_events(events).screen_center == c.screen_center,
    decreases events.len(),
{
    if events.len() > 0 {
        assert(!(events[0] is CursorMoved));
        let rest = events.drop_first();
        assert forall|i: int| 0 <= i < rest.len() implies !(#[trigger] rest[i] is CursorMoved) by {
            assert(rest[i] == events[i + 1]);
        }
        lemma_events_keep_look(c.after_event(events[0]), rest);
    }
}

/// Look motion is consumed once. After an update, and any events in between
/// that do not move the cursor, the next update gets a zero look offset and
/// leaves the controller as those events left it.
pub proof fn lemma_look_consumed_once(c: CameraController, events: Seq<Event>)
    requires
        no_cursor_motion(events),
    ensures
        c.consumed().after_events(events).mouse_delta == (0i64, 0i64),
        c.consumed().after_events(events).consumed() == c.consumed().after_events(events),
{
    lemma_events_keep_look(c.consumed(), events);
}

/// Whether the movement intent of `key` is set in `c`.
pub open spec fn is_held(c: CameraController, key: Key) -> bool {
    match key {
        Key::W => c.is_forward_pressed,
        Key::S => c.is_backward_pressed,
        Key::A => c.is_left_pressed,
        Key::D => c.is_right_pressed,
        Key::E => c.is_up_pressed,
        Key::Q => c.is_down_pressed,
        _ => false,
    }
}

/// A movement intent stays set until its own key goes up: no other event,
/// cursor moves included, clears it.
pub proof fn lemma_intent_held_until_release(c: CameraController, key: Key, events: Seq<Event>)
    requires
        is_held(c, key),
        forall|i: int| 0 <= i < events.len() ==> #[trigger] events[i] != (Event::Key { key, pressed: false }),
    ensures
        is_held(c.after_events(events), key),
    decreases events.len(),
{
    if events.len() > 0 {
        let rest = events.drop_first();
        assert(events[0] != (Event::Key { key, pressed: false }));
        assert(is_held(c.after_event(events[0]), key));
        assert forall|i: int| 0 <= i < rest.len() implies #[trigger] rest[i] != (Event::Key { key, pressed: false }) by {
            assert(rest[i] == events[i + 1]);
        }
        lemma_intent_held_until_release(c.after_event(events[0]), key, rest);
    }
}

} // verus!
