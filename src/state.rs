//! The viewer's frame orchestration: surface size and configuration, mouse
//! capture, render mode and frame cap, and the decisions taken on each window
//! event. The caller owns the window and the graphics device and carries out
//! the actions handed back.
use vstd::prelude::*;
use crate::camera_controller::{CameraController, CameraStep, is_movement_event};
use crate::frame::{Recovery, SurfaceFailure, cap_delay_ms, frame_cap_delay_ms};
use crate::input::{Event, Key};
use crate::model::{DrawCall, Model, draw_model_instanced};

verus! {

/// A step the caller performs on the window or the graphics device, in the
/// order handed back.
#[derive(Clone, Copy, Debug, PartialEq, Eq, Structural)]
pub enum Action {
    /// Put the system cursor back at the center of the window.
    RecenterCursor,
    /// Stop the viewer.
    Exit,
    /// Show (`true`) or hide the system cursor.
    ShowCursor(bool),
    /// Let the cursor leave the window.
    ReleaseCursor,
    /// Keep the cursor inside the window (confined, else locked).
    ConfineCursor,
    /// Rebuild the depth buffer, configure the surface at this size, and
    /// recompute the camera's projection with the new aspect ratio.
    Reconfigure { width: u32, height: u32 },
    /// Advance the camera and the instances and draw a frame.
    RenderFrame,
    /// Hand the event to the debug overlay.
    ForwardToOverlay,
}

/// The pipeline a frame is drawn with.
#[derive(Clone, Copy, Debug, PartialEq, Eq, Structural)]
pub enum Pipeline {
    /// Filled triangles with back faces culled.
    Filled,
    /// Triangle edges only, no culling.
    Wireframe,
}

/// What the main render pass of a frame draws: the pipeline, and one instanced
/// draw call per mesh over every instance.
pub struct RenderPlan {
    pub pipeline: Pipeline,
    pub calls: Vec<DrawCall>,
}

/// The state of the viewer that is not held on the graphics device.
#[derive(Clone, Copy, Debug)]
pub struct State {
    /// Width of the surface, in physical pixels.
    pub width: u32,
    /// Height of the surface, in physical pixels.
    pub height: u32,
    /// Whether the surface has been configured at a size of positive area.
    pub surface_configured: bool,
    /// Whether the wireframe pipeline draws instead of the filled one.
    pub draw_lines: bool,
    /// Whether the mouse is free; while it is captured the camera follows it.
    pub free_mouse: bool,
    /// Frames per second the viewer may show at most; zero means no cap.
    pub frame_cap: u32,
    pub camera_controller: CameraController,
}

/// The center of a surface of the given size, in whole pixels.
pub open spec fn center_of(width: u32, height: u32) -> (u32, u32) {
    ((width / 2) as u32, (height / 2) as u32)
}

impl State {
    /// A configured surface has positive area, and cursor offsets are measured
    /// from the center of the surface.
    pub open spec fn wf(self) -> bool {
        &&& self.surface_configured ==> self.width > 0 && self.height > 0
        &&& self.camera_controller.screen_center == center_of(self.width, self.height)
    }

    /// The state after a resize to `width` by `height`: unchanged when either is
    /// zero, else at the new size, configured, with the new screen center.
    pub open spec fn resized(self, width: u32, height: u32) -> State {
        if width > 0 && height > 0 {
            State {
                width,
                height,
                surface_configured: true,
                camera_controller: CameraController {
                    screen_center: center_of(width, height),
                    ..self.camera_controller
                },
                ..self
            }
        } else {
            self
        }
    }

    /// The state after the camera took in `event`, which it does only while the
    /// mouse is captured.
    pub open spec fn after_input(self, event: Event) -> State {
        if self.free_mouse {
            self
        } else {
            State { camera_controller: self.camera_controller.after_event(event), ..self }
        }
    }

    /// Whether the camera consumes `event`, which then goes no further.
    pub open spec fn consumes(self, event: Event) -> bool {
        !self.free_mouse && is_movement_event(event)
    }

    /// The actions that start the handling of every event the camera did not
    /// consume: the cursor goes back to the center while the mouse is captured.
    pub open spec fn lead_actions(self) -> Seq<Action> {
        if self.free_mouse {
            seq![]
        } else {
            seq![Action::RecenterCursor]
        }
    }

    /// The state after `event` was handled.
    pub open spec fn next_state(self, event: Event) -> State {
        let s = self.after_input(event);
        if self.consumes(event) {
            s
        } else {
            match event {
                Event::Key { key: Key::Escape, pressed: true } => State {
                    free_mouse: !self.free_mouse,
                    ..s
                },
                Event::Key { key: Key::F1, pressed: true } => State {
                    draw_lines: !self.draw_lines,
                    ..s
                },
                Event::Resized { width, height } => s.resized(width, height),
                _ => s,
            }
        }
    }

    /// The actions that handling `event` asks of the caller, in order.
    pub open spec fn actions(self, event: Event) -> Seq<Action> {
        if self.consumes(event) {
            seq![]
        } else {
            match event {
                Event::CloseRequested => self.lead_actions() + seq![
                    Action::Exit,
                    Action::ForwardToOverlay,
                ],
                Event::Key { key: Key::Escape, pressed: true } => self.lead_actions() + seq![
                    Action::ShowCursor(!self.free_mouse),
                    Action::ReleaseCursor,
                    Action::ForwardToOverlay,
                ],
                Event::Focused(focus) => self.lead_actions() + (if focus {
                    seq![Action::ConfineCursor]
                } else {
                    seq![]
                }) + seq![Action::ShowCursor(self.free_mouse), Action::ForwardToOverlay],
                Event::Resized { width, height } => self.lead_actions() + (if width > 0 && height
                    > 0 {
                    seq![Action::Reconfigure { width, height }]
                } else {
                    seq![]
                }) + seq![Action::ForwardToOverlay],
                Event::RedrawRequested => if self.surface_configured {
                    self.lead_actions() + seq![Action::RenderFrame, Action::ForwardToOverlay]
                } else {
                    self.lead_actions()
                },
                _ => self.lead_actions() + seq![Action::ForwardToOverlay],
            }
        }
    }

    /// A viewer for a surface of `width` by `height` pixels, with the mouse
    /// free, the filled pipeline, no frame cap and the camera at rest. The
    /// surface counts as configured when `configured` says it was configured at
    /// creation and its area is positive.
    pub fn new(width: u32, height: u32, configured: bool) -> (r: State)
        ensures
            r.wf(),
            r.width == width,
            r.height == height,
            r.surface_configured == (configured && width > 0 && height > 0),
            !r.draw_lines,
            r.free_mouse,
            r.frame_cap == 0,
            r.camera_controller == CameraController::at_rest(center_of(width, height)),
    {
        State {
            width,
            height,
            surface_configured: configured && width > 0 && height > 0,
            draw_lines: false,
            free_mouse: true,
            frame_cap: 0,
            camera_controller: CameraController::new((width / 2, height / 2)),
        }
    }

    /// Takes the new size of the window. A size of zero area changes nothing;
    /// otherwise the surface takes the new size and counts as configured, and
    /// cursor offsets are measured from the new center. Returns whether the
    /// caller must rebuild the surface at the new size.
    pub fn resize(&mut self, width: u32, height: u32) -> (r: bool)
        requires
            old(self).wf(),
        ensures
            final(self).wf(),
            r == (width > 0 && height > 0),
            (width == 0 || height == 0) ==> *final(self) == *old(self),
            *final(self) == old(self).resized(width, height),
    {
        if width > 0 && height > 0 {
            self.width = width;
            self.height = height;
            self.surface_configured = true;
            self.camera_controller.update_screen_center((width / 2, height / 2));
            true
        } else {
            false
        }
    }

    /// Hands `event` to the camera while the mouse is captured. Returns whether
    /// the camera consumed it.
    pub fn input(&mut self, event: &Event) -> (r: bool)
        requires
            old(self).wf(),
        ensures
            final(self).wf(),
            r == old(self).consumes(*event),
            *final(self) == old(self).after_input(*event),
    {
        if !self.free_mouse {
            self.camera_controller.process_events(event)
        } else {
            false
        }
    }

    /// Starts a frame's update: the camera movements to apply and the look
    /// offset, which is consumed.
    pub fn update(&mut self) -> (r: CameraStep)
        requires
            old(self).wf(),
        ensures
            final(self).wf(),
            r.moves@ == old(self).camera_controller.pending_moves(),
            r.look == old(self).camera_controller.mouse_delta,
            *final(self) == (State {
                camera_controller: old(self).camera_controller.consumed(),
                ..*old(self)
            }),
    {
        self.camera_controller.update_camera()
    }

    /// Handles one window event and returns what the caller must do, in order.
    ///
    /// A movement key, while the mouse is captured, only steers the camera.
    /// Every other event first brings the cursor back to the center while the
    /// mouse is captured, then: a close request exits; Escape frees or captures
    /// the mouse; gaining focus confines the cursor; F1 switches between the
    /// filled and the wireframe pipeline; a resize to a size of positive area
    /// reconfigures the surface; a redraw renders a frame once the surface is
    /// configured, and is dropped before that. The event then goes on to the
    /// debug overlay.
    pub fn window_event(&mut self, event: &Event) -> (r: Vec<Action>)
        requires
            old(self).wf(),
        ensures
            final(self).wf(),
            r@ == old(self).actions(*event),
            *final(self) == old(self).next_state(*event),
    {
        if self.input(event) {
            return Vec::new();
        }
        let mut actions: Vec<Action> = Vec::new();
        if !self.free_mouse {
            actions.push(Action::RecenterCursor);
        }
        match event {
            Event::CloseRequested => {
                actions.push(Action::Exit);
            },
            Event::Key { key: Key::Escape, pressed: true } => {
                actions.push(Action::ShowCursor(!self.free_mouse));
                actions.push(Action::ReleaseCursor);
                self.free_mouse = !self.free_mouse;
            },
            Event::Focused(focus) => {
                if *focus {
                    actions.push(Action::ConfineCursor);
                }
                actions.push(Action::ShowCursor(self.free_mouse));
            },
            Event::Key { key: Key::F1, pressed: true } => {
                self.draw_lines = !self.draw_lines;
            },
            Event::Resized { width, height } => {
                if self.resize(*width, *height) {
                    actions.push(Action::Reconfigure { width: *width, height: *height });
                }
            },
            Event::RedrawRequested => {
                if !self.surface_configured {
                    proof {
                        assert(actions@ =~= old(self).actions(*event));
                    }
                    return actions;
                }
                actions.push(Action::RenderFrame);
            },
            _ => {},
        }
        actions.push(Action::ForwardToOverlay);
        proof {
            assert(actions@ =~= old(self).actions(*event));
        }
        actions
    }

    /// The plan of the main render pass for `model` and `instance_count`
    /// instances: the wireframe pipeline while F1 has switched it on, else the
    /// filled one, and each mesh drawn over instances `0..instance_count`.
    pub fn render_plan(&self, model: &Model, instance_count: u32) -> (r: RenderPlan)
        requires
            model.wf(),
        ensures
            r.pipeline == (if self.draw_lines {
                Pipeline::Wireframe
            } else {
                Pipeline::Filled
            }),
            r.calls@.len() == model.meshes@.len(),
            forall|i: int|
                0 <= i < r.calls@.len() ==> #[trigger] r.calls@[i] == model.draw_call(
                    i,
                    (0u32, instance_count),
                ),
    {
        let pipeline = if self.draw_lines {
            Pipeline::Wireframe
        } else {
            Pipeline::Filled
        };
        RenderPlan { pipeline, calls: draw_model_instanced(model, (0, instance_count)) }
    }

    /// The milliseconds to wait after a frame that took `elapsed_us`
    /// microseconds, so that the frame rate stays under the cap.
    pub fn frame_delay_ms(&self, elapsed_us: u64) -> (r: u64)
        ensures
            r == cap_delay_ms(self.frame_cap as nat, elapsed_us as nat),
    {
        frame_cap_delay_ms(self.frame_cap, elapsed_us)
    }

    /// Decides how to go on after a frame whose surface image could not be
    /// acquired. A lost or outdated surface is configured again at the last
    /// size, when that size has positive area; running out of memory ends the
    /// viewer; a timeout is left for the next frame.
    pub fn render_failed(&mut self, failure: SurfaceFailure) -> (r: Recovery)
        requires
            old(self).wf(),
        ensures
            final(self).wf(),
            *final(self) == (match failure {
                SurfaceFailure::Lost | SurfaceFailure::Outdated => old(self).resized(
                    old(self).width,
                    old(self).height,
                ),
                _ => *old(self),
            }),
            r == (match failure {
                SurfaceFailure::Lost | SurfaceFailure::Outdated => if old(self).width > 0 && old(
                    self,
                ).height > 0 {
                    Recovery::Reconfigure { width: old(self).width, height: old(self).height }
                } else {
                    Recovery::Retry
                },
                SurfaceFailure::OutOfMemory => Recovery::Exit,
                SurfaceFailure::Timeout => Recovery::Retry,
            }),
    {
        match failure {
            SurfaceFailure::Lost | SurfaceFailure::Outdated => {
                let (width, height) = (self.width, self.height);
                if self.resize(width, height) {
                    Recovery::Reconfigure { width, height }
                } else {
                    Recovery::Retry
                }
            },
            SurfaceFailure::OutOfMemory => Recovery::Exit,
            SurfaceFailure::Timeout => Recovery::Retry,
        }
    }
}

/// A resize to a size of zero area, as from a minimized window, leaves the
/// whole state as it was, the surface size and the camera's screen center
/// included, and asks for no reconfiguration of the surface.
pub proof fn lemma_zero_area_resize_changes_nothing(s: State, width: u32, height: u32)
    requires
        s.wf(),
        width == 0 || height == 0,
    ensures
        s.resized(width, height) == s,
        s.next_state(Event::Resized { width, height }) == s,
        forall|i: int|
            0 <= i < s.actions(Event::Resized { width, height }).len() ==> !(#[trigger] s.actions(
                Event::Resized { width, height },
            )[i] is Reconfigure),
{
    let e = Event::Resized { width, height };
    assert(s.after_input(e) =~= s);
    if !s.free_mouse {
        assert(s.actions(e) =~= seq![Action::RecenterCursor, Action::ForwardToOverlay]);
    } else {
        assert(s.actions(e) =~= seq![Action::ForwardToOverlay]);
    }
}

} // verus!
