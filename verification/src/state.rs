//! The frame driver: what the viewer does on each event of the event loop.
//!
//! The driver decides; whoever runs the loop acts. Each event is answered
//! with one action: draw a frame, move the viewpoint, give the surface its
//! new size, wait, or leave. The driver goes from `Init` to `Running`, from
//! there to `Resizing` and back whenever the surface changes its size, and
//! at last to `ShuttingDown`. It asks for a frame only while it is
//! `Running`, when the surface has pixels and what the scene derives from
//! the surface fits the surface.

use crate::camera::Camera;
use crate::camera::CameraController;
use crate::camera::CameraStep;
use crate::camera::Controls;
use crate::camera::Projection;
use crate::event::ElementState;
use crate::event::Event;
use crate::event::PhysicalSize;
use crate::event::VirtualKeyCode;
use crate::event::WindowEvent;
use crate::scene::Scene;
use vstd::prelude::*;

verus! {

/// Time from one frame to the next in nanoseconds: a sixtieth of a second.
pub const FRAME_NANOS: u64 = 16_666_667;

/// Speed that the viewer's camera controller is made with: 0.2.
pub const CONTROLLER_SPEED: u32 = 0x3e4c_cccd;

/// Where the driver is in its life.
#[derive(Clone, Copy, Debug, PartialEq, Eq)]
pub enum Phase {
    /// The surface is not set up yet.
    Init,
    /// Frames are drawn.
    Running,
    /// The surface changed its size and is not set up for it yet.
    Resizing,
    /// The viewer is leaving.
    ShuttingDown,
}

/// Size that the surface is set up with.
#[derive(Clone, Copy, Debug, PartialEq, Eq)]
pub struct SurfaceConfiguration {
    pub width: u32,
    pub height: u32,
}

/// What is to be done on an event.
#[derive(Debug, PartialEq, Eq)]
pub enum Action {
    /// Nothing.
    Nothing,
    /// Draw a frame and present it.
    Render,
    /// Ask the window for a redraw, and take now as the time of the last
    /// frame.
    RequestRedraw,
    /// Wait for `nanos` nanoseconds, or for the next event.
    WaitUntil { nanos: u64 },
    /// Move the viewpoint by `steps`, then bring the scene up to date.
    Update { steps: Vec<CameraStep> },
    /// Set the surface up for `size`, and make the depth texture anew.
    Resize { size: PhysicalSize },
    /// Leave the event loop.
    Exit,
}

/// What is to be done once the surface was asked for a frame to draw into.
#[derive(Clone, Copy, Debug, PartialEq, Eq)]
pub enum Acquire {
    /// Draw into the frame.
    Draw,
    /// Set the surface up again and ask once more.
    Reconfigure,
    /// Let this frame go.
    Skip,
}

/// The passes of a frame, in the order in which they are recorded.
#[derive(Clone, Copy, Debug, PartialEq, Eq)]
pub enum FramePass {
    /// The models, lit, with depth test; clears colour and depth.
    Opaque,
    /// The markers of the lights.
    LightMarkers,
    /// The user interface, on top, without depth test.
    Overlay,
}

/// The frame driver.
#[derive(Debug)]
pub struct State {
    pub config: SurfaceConfiguration,
    pub size: PhysicalSize,
    pub scene: Scene,
    pub camera_controller: CameraController,
    pub phase: Phase,
}

/// Whether an event asks the viewer to leave.
pub open spec fn asks_to_leave(event: WindowEvent) -> bool {
    match event {
        WindowEvent::CloseRequested => true,
        WindowEvent::KeyboardInput {
            state: ElementState::Pressed,
            virtual_keycode: Some(VirtualKeyCode::Escape),
        } => true,
        _ => false,
    }
}

/// The size that an event gives the surface, if it gives it one.
pub open spec fn new_size(event: WindowEvent) -> Option<PhysicalSize> {
    match event {
        WindowEvent::Resized(size) => Some(size),
        WindowEvent::ScaleFactorChanged { new_inner_size } => Some(new_inner_size),
        _ => None,
    }
}

/// What is due when all redraws of a turn are done and `since_last_frame`
/// nanoseconds have gone by since the last frame: the next frame, or the
/// rest of the wait.
pub open spec fn pace(since_last_frame: u64) -> Action {
    if since_last_frame >= FRAME_NANOS {
        Action::RequestRedraw
    } else {
        Action::WaitUntil { nanos: (FRAME_NANOS - since_last_frame) as u64 }
    }
}

/// What is to be done once the surface was asked for a frame for the
/// `attempt`-th time, counted from 0, and gave one or not.
pub open spec fn acquire_policy(attempt: u32, acquired: bool) -> Acquire {
    if acquired {
        Acquire::Draw
    } else if attempt == 0 {
        Acquire::Reconfigure
    } else {
        Acquire::Skip
    }
}

/// Whether a surface of size `size` has pixels.
pub open spec fn has_pixels(size: PhysicalSize) -> bool {
    size.width > 0 && size.height > 0
}

/// The camera after the surface took the size `size`: the projection has
/// the aspect ratio of `size`; eye, target, up vector, field of view and
/// clipping distances stay.
pub open spec fn resized_camera(camera: Camera, size: PhysicalSize) -> Camera {
    Camera {
        projection: Projection {
            aspect_width: size.width,
            aspect_height: size.height,
            ..camera.projection
        },
        ..camera
    }
}

/// Whether `post` is `pre` but for the camera controller, which is
/// `controls`, and the phase, which is `phase`.
pub open spec fn noted(pre: State, post: State, controls: Controls, phase: Phase) -> bool {
    &&& post.config == pre.config
    &&& post.size == pre.size
    &&& post.scene == pre.scene
    &&& post.camera_controller@ == controls
    &&& post.phase == phase
}

/// Whether `post` is `pre` after the surface took the size `size`: surface,
/// scene and controller go by `size`, the depth texture is made anew, and
/// nothing else changes but the phase, which is `phase`.
pub open spec fn sized(pre: State, post: State, controls: Controls, size: PhysicalSize, phase: Phase)
    -> bool {
    &&& post.size == size
    &&& post.config == (SurfaceConfiguration { width: size.width, height: size.height })
    &&& post.camera_controller@ == (Controls { size, ..controls })
    &&& post.phase == phase
    &&& post.scene.fits(size.width, size.height)
    &&& post.scene.camera == resized_camera(pre.scene.camera, size)
    &&& post.scene.models == pre.scene.models
    &&& post.scene.lights == pre.scene.lights
    &&& post.scene.materials == pre.scene.materials
    &&& post.scene.shaders == pre.scene.shaders
    &&& post.scene.renderer.uniforms == pre.scene.renderer.uniforms
}

impl State {
    /// The scene is sound, surface, scene and controller agree on the size
    /// of the surface, and a driver that runs has a surface with pixels.
    pub open spec fn wf(&self) -> bool {
        &&& self.scene.wf()
        &&& self.config.width == self.size.width
        &&& self.config.height == self.size.height
        &&& self.camera_controller.size == self.size
        &&& self.scene.fits(self.size.width, self.size.height)
        &&& self.phase == Phase::Running ==> has_pixels(self.size)
    }

    /// Checks that surface, scene and controller agree on the size of the
    /// surface, that a driver that runs has a surface with pixels, and that
    /// the lights of the scene are sound.
    pub fn is_in_step(&self) -> (ok: bool)
        ensures
            ok == (self.scene.lights.wf() && self.config.width == self.size.width
                && self.config.height == self.size.height && self.camera_controller.size
                == self.size && self.scene.fits(self.size.width, self.size.height) && (self.phase
                == Phase::Running ==> has_pixels(self.size))),
            ok && self.scene.materials.wf() && self.scene.shaders.wf() ==> self.wf(),
    {
        let running = match self.phase {
            Phase::Running => true,
            _ => false,
        };
        self.config.width == self.size.width && self.config.height == self.size.height
            && self.camera_controller.size.width == self.size.width
            && self.camera_controller.size.height == self.size.height && (!running || (
            self.size.width > 0 && self.size.height > 0)) && self.scene.is_in_step(
            self.size.width,
            self.size.height,
        )
    }

    /// A driver for a surface of size `size` that shows `scene`, not yet
    /// running. The scene is brought in step with the surface: its
    /// projection takes the aspect ratio of `size`, and its depth texture is
    /// made in that size.
    pub fn new(size: PhysicalSize, scene: Scene) -> (state: State)
        requires
            scene.wf(),
        ensures
            state.wf(),
            state.phase == Phase::Init,
            state.size == size,
            state.config == (SurfaceConfiguration { width: size.width, height: size.height }),
            state.camera_controller@ == Controls::idle(CONTROLLER_SPEED, size),
            state.scene.fits(size.width, size.height),
            state.scene.camera == resized_camera(scene.camera, size),
            state.scene.models == scene.models,
            state.scene.lights == scene.lights,
            state.scene.materials == scene.materials,
            state.scene.shaders == scene.shaders,
            state.scene.renderer.uniforms == scene.renderer.uniforms,
    {
        let mut scene = scene;
        scene.resize(size.width, size.height);
        State {
            config: SurfaceConfiguration { width: size.width, height: size.height },
            size,
            scene,
            camera_controller: CameraController::new(CONTROLLER_SPEED, size),
            phase: Phase::Init,
        }
    }

    /// The surface is set up: a driver that waited for that runs from now
    /// on, if its surface has pixels; if not, it waits for a size that has.
    pub fn start(&mut self)
        ensures
            final(self).phase == (if old(self).phase == Phase::Init {
                if has_pixels(old(self).size) {
                    Phase::Running
                } else {
                    Phase::Resizing
                }
            } else {
                old(self).phase
            }),
            final(self).config == old(self).config,
            final(self).size == old(self).size,
            final(self).scene == old(self).scene,
            final(self).camera_controller == old(self).camera_controller,
    {
        match self.phase {
            Phase::Init => {
                if self.size.width > 0 && self.size.height > 0 {
                    self.phase = Phase::Running;
                } else {
                    self.phase = Phase::Resizing;
                }
            },
            _ => {},
        }
    }

    /// The surface is set up for its new size: a driver that waited for
    /// that runs again. A surface without pixels cannot be set up, so a
    /// driver whose surface has none keeps waiting.
    pub fn resized(&mut self)
        ensures
            final(self).phase == (if old(self).phase == Phase::Resizing && has_pixels(
                old(self).size,
            ) {
                Phase::Running
            } else {
                old(self).phase
            }),
            final(self).config == old(self).config,
            final(self).size == old(self).size,
            final(self).scene == old(self).scene,
            final(self).camera_controller == old(self).camera_controller,
    {
        match self.phase {
            Phase::Resizing => {
                if self.size.width > 0 && self.size.height > 0 {
                    self.phase = Phase::Running;
                }
            },
            _ => {},
        }
    }

    /// Takes the new size of the surface.
    fn resize(&mut self, new_size: PhysicalSize)
        requires
            old(self).wf(),
        ensures
            final(self).wf(),
            sized(
                *old(self),
                *final(self),
                old(self).camera_controller@,
                new_size,
                if old(self).phase == Phase::Running {
                    Phase::Resizing
                } else {
                    old(self).phase
                },
            ),
    {
        self.size = new_size;
        self.config.width = new_size.width;
        self.config.height = new_size.height;
        self.scene.resize(new_size.width, new_size.height);
        self.camera_controller.size = new_size;
        match self.phase {
            Phase::Running => {
                self.phase = Phase::Resizing;
            },
            _ => {},
        }
    }

    /// Hands an event of the window to the camera controller and says
    /// whether the controller took it.
    fn input(&mut self, event: &WindowEvent) -> (consumed: bool)
        ensures
            consumed == CameraController::consumes(*event),
            noted(
                *old(self),
                *final(self),
                old(self).camera_controller@.after_event(*event, old(self).size),
                old(self).phase,
            ),
    {
        self.camera_controller.process_events(event, self.size)
    }

    /// Asks the camera controller for the moves of this frame.
    fn update(&mut self) -> (steps: Vec<CameraStep>)
        ensures
            steps@ == old(self).camera_controller@.plan(),
            noted(
                *old(self),
                *final(self),
                old(self).camera_controller@.after_update(),
                old(self).phase,
            ),
    {
        self.camera_controller.update_camera()
    }

    /// The passes of a frame, in order.
    pub fn render(&self) -> (passes: Vec<FramePass>)
        ensures
            passes@ == seq![FramePass::Opaque, FramePass::LightMarkers, FramePass::Overlay],
    {
        let mut passes: Vec<FramePass> = Vec::new();
        passes.push(FramePass::Opaque);
        passes.push(FramePass::LightMarkers);
        passes.push(FramePass::Overlay);
        assert(passes@ =~= seq![FramePass::Opaque, FramePass::LightMarkers, FramePass::Overlay]);
        passes
    }

    /// Says what to do once the surface was asked for a frame: draw if it
    /// gave one; if it gave none, set it up again and ask a second time; if
    /// it gave none then either, let the frame go.
    pub fn acquire(attempt: u32, acquired: bool) -> (next: Acquire)
        ensures
            next == acquire_policy(attempt, acquired),
    {
        if acquired {
            Acquire::Draw
        } else if attempt == 0 {
            Acquire::Reconfigure
        } else {
            Acquire::Skip
        }
    }

    /// Ends the viewer.
    fn leave(&mut self) -> (action: Action)
        ensures
            action == Action::Exit,
            noted(*old(self), *final(self), old(self).camera_controller@, Phase::ShuttingDown),
    {
        self.phase = Phase::ShuttingDown;
        Action::Exit
    }

    /// Takes a new size and says whether there is a surface to set up for
    /// it.
    fn take_size(&mut self, size: PhysicalSize) -> (action: Action)
        requires
            old(self).wf(),
        ensures
            final(self).wf(),
            action == (if has_pixels(size) {
                Action::Resize { size }
            } else {
                Action::Nothing
            }),
            sized(
                *old(self),
                *final(self),
                old(self).camera_controller@,
                size,
                if old(self).phase == Phase::Running {
                    Phase::Resizing
                } else {
                    old(self).phase
                },
            ),
    {
        self.resize(size);
        if size.width > 0 && size.height > 0 {
            Action::Resize { size }
        } else {
            Action::Nothing
        }
    }

    /// Takes an event of the viewer's window.
    fn window_event(&mut self, event: &WindowEvent) -> (action: Action)
        requires
            old(self).wf(),
        ensures
            final(self).wf(),
            window_reaction(*old(self), *event, *final(self), action),
    {
        if self.input(event) {
            return Action::Nothing;
        }
        match event {
            WindowEvent::CloseRequested => self.leave(),
            WindowEvent::KeyboardInput {
                state: ElementState::Pressed,
                virtual_keycode: Some(VirtualKeyCode::Escape),
            } => self.leave(),
            WindowEvent::Resized(physical_size) => self.take_size(*physical_size),
            WindowEvent::ScaleFactorChanged { new_inner_size } => self.take_size(*new_inner_size),
            _ => Action::Nothing,
        }
    }

    /// Takes an event of the event loop and says what is to be done.
    ///
    /// `since_last_frame` is the time since the last frame in nanoseconds.
    /// A driver that is shutting down does nothing any more. Otherwise:
    /// a request to redraw is answered with a frame while the driver runs;
    /// the end of a turn's redraws with the next frame or the rest of the
    /// wait; the end of a turn's input with the moves of the viewpoint
    /// while the driver runs. An event of the viewer's window goes to the
    /// camera controller first. If the controller leaves it, a request to
    /// close and the escape key end the viewer, and a new size is taken
    /// over by surface, scene and controller.
    pub fn handle_event(&mut self, event: &Event, since_last_frame: u64) -> (action: Action)
        requires
            old(self).wf(),
        ensures
            final(self).wf(),
            reaction(*old(self), *event, since_last_frame, *final(self), action),
    {
        match self.phase {
            Phase::ShuttingDown => {
                return Action::Nothing;
            },
            _ => {},
        }
        let running = match self.phase {
            Phase::Running => true,
            _ => false,
        };
        match event {
            Event::RedrawRequested => {
                if running {
                    Action::Render
                } else {
                    Action::Nothing
                }
            },
            Event::RedrawEventsCleared => {
                if since_last_frame >= FRAME_NANOS {
                    Action::RequestRedraw
                } else {
                    Action::WaitUntil { nanos: FRAME_NANOS - since_last_frame }
                }
            },
            Event::MainEventsCleared => {
                if running {
                    let steps = self.update();
                    Action::Update { steps }
                } else {
                    Action::Nothing
                }
            },
            Event::WindowEvent { event: window_event, own_window } => {
                if *own_window {
                    self.window_event(window_event)
                } else {
                    Action::Nothing
                }
            },
            Event::Other => Action::Nothing,
        }
    }
}

/// How a driver that is not shutting down reacts to an event of its own
/// window: `pre` is the driver before, `post` the driver after, `action`
/// what it asks for.
///
/// The camera controller takes note of the event. If it takes the event
/// for itself, that is all. If not, a request to close and the escape key
/// end the viewer. A new size is taken over by surface, scene and
/// controller, and a driver that ran waits for the surface to be set up
/// again; the surface is to be set up only if the size has pixels, so with
/// a size without pixels the driver asks for nothing and waits for the
/// next size. Any other event has no effect.
pub open spec fn window_reaction(pre: State, event: WindowEvent, post: State, action: Action) -> bool {
    let controls = pre.camera_controller@.after_event(event, pre.size);
    if CameraController::consumes(event) {
        action == Action::Nothing && noted(pre, post, controls, pre.phase)
    } else if asks_to_leave(event) {
        action == Action::Exit && noted(pre, post, controls, Phase::ShuttingDown)
    } else if let Some(size) = new_size(event) {
        &&& action == (if has_pixels(size) {
            Action::Resize { size }
        } else {
            Action::Nothing
        })
        &&& sized(
            pre,
            post,
            controls,
            size,
            if pre.phase == Phase::Running {
                Phase::Resizing
            } else {
                pre.phase
            },
        )
    } else {
        action == Action::Nothing && noted(pre, post, controls, pre.phase)
    }
}

/// How the driver reacts to an event of the event loop when
/// `since_last_frame` nanoseconds have gone by since the last frame: `pre`
/// is the driver before, `post` the driver after, `action` what it asks
/// for.
pub open spec fn reaction(pre: State, event: Event, since_last_frame: u64, post: State, action: Action)
    -> bool {
    if pre.phase == Phase::ShuttingDown {
        action == Action::Nothing && post == pre
    } else {
        match event {
            Event::RedrawRequested => {
                &&& post == pre
                &&& action == (if pre.phase == Phase::Running {
                    Action::Render
                } else {
                    Action::Nothing
                })
            },
            Event::RedrawEventsCleared => post == pre && action == pace(since_last_frame),
            Event::MainEventsCleared => if pre.phase == Phase::Running {
                &&& action matches Action::Update { steps }
                &&& steps@ == pre.camera_controller@.plan()
                &&& noted(pre, post, pre.camera_controller@.after_update(), pre.phase)
            } else {
                action == Action::Nothing && post == pre
            },
            Event::WindowEvent { event: window_event, own_window } => if own_window {
                window_reaction(pre, window_event, post, action)
            } else {
                action == Action::Nothing && post == pre
            },
            Event::Other => action == Action::Nothing && post == pre,
        }
    }
}

/// A frame is asked for only by a driver that runs, and a driver that
/// runs is in step with its surface: the surface has pixels, the depth
/// texture has the size that the surface is set up with, and the projection
/// has its aspect ratio.
pub proof fn lemma_frames_fit_the_surface(
    pre: State,
    event: Event,
    since_last_frame: u64,
    post: State,
    action: Action,
)
    requires
        pre.wf(),
        reaction(pre, event, since_last_frame, post, action),
        action == Action::Render,
    ensures
        pre.phase == Phase::Running,
        post == pre,
        has_pixels(post.size),
        post.scene.renderer.depth_texture@.width == post.config.width,
        post.scene.renderer.depth_texture@.height == post.config.height,
        post.scene.camera.projection.has_aspect_of(post.config.width, post.config.height),
{
}

/// A new size puts everything in step at once: whatever the driver ran
/// with before, after the event the surface's configuration, the depth
/// texture and the projection all go by the new size, and no frame is asked
/// for until the surface is reported as set up.
pub proof fn lemma_resize_is_consistent(pre: State, size: PhysicalSize, post: State, action: Action)
    requires
        pre.wf(),
        pre.phase == Phase::Running,
        reaction(
            pre,
            Event::WindowEvent { event: WindowEvent::Resized(size), own_window: true },
            0,
            post,
            action,
        ),
    ensures
        has_pixels(size) ==> action == (Action::Resize { size }),
        !has_pixels(size) ==> action == Action::Nothing,
        post.phase == Phase::Resizing,
        post.config.width == size.width && post.config.height == size.height,
        post.scene.renderer.depth_texture@.width == size.width,
        post.scene.renderer.depth_texture@.height == size.height,
        post.scene.camera.projection.has_aspect_of(size.width, size.height),
        post.scene.camera.projection.fovy == pre.scene.camera.projection.fovy,
        post.scene.camera.projection.znear == pre.scene.camera.projection.znear,
        post.scene.camera.projection.zfar == pre.scene.camera.projection.zfar,
        forall|next: Event, since: u64, after: State, then: Action|
            reaction(post, next, since, after, then) ==> then != Action::Render,
{
}

} // verus!
