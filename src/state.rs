use vstd::prelude::*;

use crate::controller::{key_motion, CameraController, CameraStep, ControllerView, Key};
use crate::frame::{recovery, recovery_spec, FrameError, Recovery};
use crate::surface::{workgroup_grid, SurfaceSize, TILE_SIZE};

verus! {

/// A window event, reduced to what the viewer reacts to.
#[derive(Clone, Copy, Debug, PartialEq, Eq, Structural)]
pub enum WindowEvent {
    /// A key was pressed (`pressed`) or released.
    Key { key: Key, pressed: bool },
    /// The right mouse button was pressed (`pressed`) or released.
    RightButton { pressed: bool },
    /// The user asked to close the window.
    CloseRequested,
    /// The window's inner size changed, in pixels.
    Resized { width: u32, height: u32 },
    /// Anything else.
    Other,
}

/// What the window layer must do after an event.
#[derive(Clone, Copy, Debug, PartialEq, Eq, Structural)]
pub enum WindowAction {
    /// Nothing.
    Nothing,
    /// Confine and hide the pointer (`true`), or release and show it.
    CapturePointer(bool),
    /// Recompute the projection for this size and reconfigure the surface.
    Reconfigure(SurfaceSize),
    /// End the session.
    Exit,
}

/// What the frame loop must do after a frame could not be acquired.
#[derive(Clone, Copy, Debug, PartialEq, Eq, Structural)]
pub enum FrameAction {
    /// Go on with the next frame.
    Continue,
    /// Recompute the projection for this size and reconfigure the surface.
    Reconfigure(SurfaceSize),
    /// End the session.
    Exit,
    /// Warn that the frame timed out and go on without it.
    Skip,
}

/// Saturates `v` into the range of `i32`.
pub open spec fn saturate_i32(v: int) -> int {
    if v < i32::MIN {
        i32::MIN as int
    } else if v > i32::MAX {
        i32::MAX as int
    } else {
        v
    }
}

/// Abstract state of a viewer session.
pub ghost struct StateView {
    pub size: SurfaceSize,
    pub pointer_captured: bool,
    pub controller: ControllerView,
}

impl StateView {
    /// Whether `input` consumes the event.
    pub open spec fn consumes(self, e: WindowEvent) -> bool {
        match e {
            WindowEvent::Key { key, .. } => key_motion(key).is_some(),
            WindowEvent::RightButton { .. } => true,
            _ => false,
        }
    }

    /// State after `input`: keys go to the controller, a right-button press
    /// toggles pointer capture.
    pub open spec fn after_input(self, e: WindowEvent) -> StateView {
        match e {
            WindowEvent::Key { key, pressed } => StateView {
                controller: self.controller.after_key(key, pressed),
                ..self
            },
            WindowEvent::RightButton { pressed } => if pressed {
                StateView { pointer_captured: !self.pointer_captured, ..self }
            } else {
                self
            },
            _ => self,
        }
    }

    /// State after a resize to `size`: taken only when `size` is drawable.
    pub open spec fn after_resize(self, size: SurfaceSize) -> StateView {
        if size.drawable() {
            StateView { size, ..self }
        } else {
            self
        }
    }

    /// What the window layer does after the event.
    pub open spec fn window_action(self, e: WindowEvent) -> WindowAction {
        if self.consumes(e) {
            match e {
                WindowEvent::RightButton { pressed: true } => WindowAction::CapturePointer(
                    !self.pointer_captured,
                ),
                _ => WindowAction::Nothing,
            }
        } else {
            match e {
                WindowEvent::CloseRequested => WindowAction::Exit,
                WindowEvent::Key { key: Key::Escape, pressed: true } => WindowAction::Exit,
                WindowEvent::Resized { width, height } => if (SurfaceSize {
                    width,
                    height,
                }).drawable() {
                    WindowAction::Reconfigure(SurfaceSize { width, height })
                } else {
                    WindowAction::Nothing
                },
                _ => WindowAction::Nothing,
            }
        }
    }

    /// State after the event.
    pub open spec fn after_window_event(self, e: WindowEvent) -> StateView {
        match e {
            WindowEvent::Resized { width, height } => self.after_resize(
                SurfaceSize { width, height },
            ),
            _ => self.after_input(e),
        }
    }

    /// State after the pointer moved by `(dx, dy)`: seen by the controller only
    /// while captured, at the last position offset by the motion, saturated.
    pub open spec fn after_pointer_motion(self, dx: int, dy: int) -> StateView {
        if self.pointer_captured {
            StateView {
                controller: self.controller.after_pointer(
                    saturate_i32(self.controller.pointer_x + dx),
                    saturate_i32(self.controller.pointer_y + dy),
                ),
                ..self
            }
        } else {
            self
        }
    }

    /// What the frame loop does after `e`.
    pub open spec fn frame_action(self, e: FrameError) -> FrameAction {
        match recovery_spec(e) {
            Recovery::Reconfigure => if self.size.drawable() {
                FrameAction::Reconfigure(self.size)
            } else {
                FrameAction::Continue
            },
            Recovery::Exit => FrameAction::Exit,
            Recovery::Skip => FrameAction::Skip,
        }
    }
}

/// Resizing to a size with a zero dimension is a no-op: no reconfiguration is
/// asked for and the session state stays as it was.
pub proof fn lemma_degenerate_resize_is_noop(s: StateView, width: u32, height: u32)
    requires
        width == 0 || height == 0,
    ensures
        s.window_action(WindowEvent::Resized { width, height }) == WindowAction::Nothing,
        s.after_window_event(WindowEvent::Resized { width, height }) == s,
        s.after_resize(SurfaceSize { width, height }) == s,
{
}

/// The viewer's session state: surface size, pointer capture and input.
#[derive(Debug)]
pub struct State {
    size: SurfaceSize,
    mouse_pressed: bool,
    controller: CameraController,
}

impl View for State {
    type V = StateView;

    closed spec fn view(&self) -> StateView {
        StateView {
            size: self.size,
            pointer_captured: self.mouse_pressed,
            controller: self.controller@,
        }
    }
}

/// Saturating addition into `i32`.
fn add_saturating(a: i32, b: i32) -> (r: i32)
    ensures
        r as int == saturate_i32(a + b),
{
    let s: i64 = a as i64 + b as i64;
    if s < i32::MIN as i64 {
        i32::MIN
    } else if s > i32::MAX as i64 {
        i32::MAX
    } else {
        s as i32
    }
}

impl State {
    /// A session on a surface of `size`, pointer free, no input held.
    pub fn new(size: SurfaceSize) -> (s: State)
        ensures
            s@ == (StateView {
                size,
                pointer_captured: false,
                controller: ControllerView::initial(),
            }),
    {
        State { size, mouse_pressed: false, controller: CameraController::new() }
    }

    pub fn size(&self) -> (s: SurfaceSize)
        ensures
            s == self@.size,
    {
        self.size
    }

    pub fn pointer_captured(&self) -> (c: bool)
        ensures
            c == self@.pointer_captured,
    {
        self.mouse_pressed
    }

    /// Takes `(width, height)` as the surface size when both are non-zero and
    /// returns whether the surface must be reconfigured; otherwise changes nothing.
    pub fn resize(&mut self, width: u32, height: u32) -> (reconfigure: bool)
        ensures
            reconfigure == (width > 0 && height > 0),
            final(self)@ == old(self)@.after_resize(SurfaceSize { width, height }),
    {
        if width > 0 && height > 0 {
            self.size = SurfaceSize { width, height };
            true
        } else {
            false
        }
    }

    /// Feeds keys to the controller and toggles pointer capture on a right-button
    /// press. Returns whether the event was consumed.
    pub fn input(&mut self, event: &WindowEvent) -> (consumed: bool)
        ensures
            consumed == old(self)@.consumes(*event),
            final(self)@ == old(self)@.after_input(*event),
    {
        match *event {
            WindowEvent::Key { key, pressed } => self.controller.process_keyboard(key, pressed),
            WindowEvent::RightButton { pressed } => {
                if pressed {
                    self.mouse_pressed = !self.mouse_pressed;
                }
                true
            },
            _ => false,
        }
    }

    /// Handles a window event: `input` first, then, for an event it left,
    /// closing, Escape and resizing.
    pub fn handle_window_event(&mut self, event: &WindowEvent) -> (action: WindowAction)
        ensures
            action == old(self)@.window_action(*event),
            final(self)@ == old(self)@.after_window_event(*event),
    {
        if self.input(event) {
            match *event {
                WindowEvent::RightButton { pressed: true } => WindowAction::CapturePointer(
                    self.mouse_pressed,
                ),
                _ => WindowAction::Nothing,
            }
        } else {
            match *event {
                WindowEvent::CloseRequested => WindowAction::Exit,
                WindowEvent::Key { key: Key::Escape, pressed: true } => WindowAction::Exit,
                WindowEvent::Resized { width, height } => {
                    if self.resize(width, height) {
                        WindowAction::Reconfigure(self.size)
                    } else {
                        WindowAction::Nothing
                    }
                },
                _ => WindowAction::Nothing,
            }
        }
    }

    /// Raw pointer motion: while the pointer is captured the controller sees the
    /// pointer at its last position offset by `delta`; otherwise it is ignored.
    pub fn pointer_motion(&mut self, delta: (i32, i32))
        ensures
            final(self)@ == old(self)@.after_pointer_motion(delta.0 as int, delta.1 as int),
    {
        if self.mouse_pressed {
            let last = self.controller.last_pointer();
            let x = add_saturating(last.0, delta.0);
            let y = add_saturating(last.1, delta.1);
            self.controller.process_mouse((x, y));
        }
    }

    /// Takes this frame's camera step from the controller.
    pub fn update(&mut self) -> (step: CameraStep)
        ensures
            final(self)@ == (StateView { controller: old(self)@.controller.drained(), ..old(self)@ }),
            step.forward as int == crate::controller::axis(
                old(self)@.controller.forward,
                old(self)@.controller.backward,
            ),
            step.right as int == crate::controller::axis(
                old(self)@.controller.right,
                old(self)@.controller.left,
            ),
            step.up as int == crate::controller::axis(
                old(self)@.controller.up,
                old(self)@.controller.down,
            ),
            step.rotate_horizontal as int == old(self)@.controller.rotate_horizontal,
            step.rotate_vertical as int == old(self)@.controller.rotate_vertical,
    {
        self.controller.update_camera()
    }

    /// Workgroup grid of the ray-tracing dispatch for the current surface.
    pub fn dispatch_size(&self) -> (grid: (u32, u32))
        ensures
            grid.0 as int == self@.size.width as int / TILE_SIZE as int,
            grid.1 as int == self@.size.height as int / TILE_SIZE as int,
    {
        workgroup_grid(self.size, TILE_SIZE)
    }

    /// Decides what to do about a frame that could not be acquired.
    pub fn frame_failed(&mut self, error: FrameError) -> (action: FrameAction)
        ensures
            action == old(self)@.frame_action(error),
            final(self)@ == old(self)@,
    {
        match recovery(error) {
            Recovery::Reconfigure => {
                let size = self.size;
                if self.resize(size.width, size.height) {
                    FrameAction::Reconfigure(self.size)
                } else {
                    FrameAction::Continue
                }
            },
            Recovery::Exit => FrameAction::Exit,
            Recovery::Skip => FrameAction::Skip,
        }
    }
}

} // verus!
