//! The viewpoint and its controller.
//!
//! The controller is a state machine over the keys and buttons that are
//! held down, the scroll amounts that came since the last frame, and the
//! cursor position. Once per frame it says which moves the viewpoint is to
//! make, in which order. The moves themselves are arithmetic on
//! coordinates, which this module carries as 32-bit words and never
//! computes with.

use crate::event::ElementState;
use crate::event::MouseButton;
use crate::event::MouseScrollDelta;
use crate::event::PhysicalSize;
use crate::event::VirtualKeyCode;
use crate::event::WindowEvent;
use vstd::prelude::*;

verus! {

/// The word that holds the number one.
pub const ONE: u32 = 0x3f80_0000;

/// A perspective projection: the aspect ratio as the width and height it
/// was taken from, the vertical field of view in radians and the two
/// clipping distances as words.
#[derive(Clone, Copy, Debug, PartialEq, Eq)]
pub struct Projection {
    pub aspect_width: u32,
    pub aspect_height: u32,
    pub fovy: u32,
    pub znear: u32,
    pub zfar: u32,
}

impl Projection {
    /// Whether the aspect ratio is that of a surface of `width` by `height`
    /// pixels.
    pub open spec fn has_aspect_of(self, width: u32, height: u32) -> bool {
        self.aspect_width * height == self.aspect_height * width
    }

    /// The projection for a surface of `width` by `height` pixels.
    pub fn new(width: u32, height: u32, fovy: u32, znear: u32, zfar: u32) -> (projection: Projection)
        ensures
            projection == (Projection {
                aspect_width: width,
                aspect_height: height,
                fovy,
                znear,
                zfar,
            }),
            projection.has_aspect_of(width, height),
    {
        assert(width * height == height * width) by (nonlinear_arith);
        Projection { aspect_width: width, aspect_height: height, fovy, znear, zfar }
    }

    /// Takes the aspect ratio of a surface of `width` by `height` pixels.
    pub fn resize(&mut self, width: u32, height: u32)
        ensures
            *final(self) == (Projection {
                aspect_width: width,
                aspect_height: height,
                ..*old(self)
            }),
            final(self).has_aspect_of(width, height),
    {
        assert(width * height == height * width) by (nonlinear_arith);
        self.aspect_width = width;
        self.aspect_height = height;
    }
}

/// The viewpoint: where the eye is, what it looks at, which way is up, and
/// the projection. The vectors are three words each.
#[derive(Clone, Copy, Debug, PartialEq, Eq)]
pub struct Camera {
    pub eye: [u32; 3],
    pub target: [u32; 3],
    pub up: [u32; 3],
    pub projection: Projection,
}

/// Vertical field of view of a new camera: 45 degrees, in radians.
pub const DEFAULT_FOVY: u32 = 0x3f49_0fdb;

/// Near clipping distance of a new camera: 0.1.
pub const DEFAULT_ZNEAR: u32 = 0x3dcc_cccd;

/// Far clipping distance of a new camera: 100000.
pub const DEFAULT_ZFAR: u32 = 0x47c3_5000;

/// The camera that a scene starts with, for a surface of `width` by
/// `height` pixels: the eye at (3, 4, -6), looking at the origin, the y axis
/// up.
pub open spec fn initial_camera(width: u32, height: u32) -> Camera {
    Camera {
        eye: [0x4040_0000u32, 0x4080_0000u32, 0xc0c0_0000u32],
        target: [0u32, 0u32, 0u32],
        up: [0u32, ONE, 0u32],
        projection: Projection {
            aspect_width: width,
            aspect_height: height,
            fovy: DEFAULT_FOVY,
            znear: DEFAULT_ZNEAR,
            zfar: DEFAULT_ZFAR,
        },
    }
}

impl Camera {
    /// The camera that a scene starts with.
    pub fn new(size: PhysicalSize) -> (camera: Camera)
        ensures
            camera == initial_camera(size.width, size.height),
    {
        Camera {
            eye: [0x4040_0000, 0x4080_0000, 0xc0c0_0000],
            target: [0, 0, 0],
            up: [0, ONE, 0],
            projection: Projection::new(
                size.width,
                size.height,
                DEFAULT_FOVY,
                DEFAULT_ZNEAR,
                DEFAULT_ZFAR,
            ),
        }
    }
}

/// Angle of one orbit step, in thousandths of a radian.
pub const ORBIT_STEP: i32 = 50;

/// Length of one pan step, in thousandths of the distance to the target.
pub const PAN_STEP: i32 = 3;

/// Angle that a drag of one pixel orbits by, in thousandths of a radian.
pub const DRAG_STEP: i32 = 3;

/// The direction of a pan.
#[derive(Clone, Copy, Debug, PartialEq, Eq)]
pub enum PanAxis {
    /// From the eye to the target.
    Forward,
    /// To the right of the view.
    Right,
    /// Along the camera's up vector.
    Up,
}

/// One move of the viewpoint.
///
/// Pans measure distance and direction on the line from eye to target as it
/// was when the update began; orbits and snaps take it as the moves before
/// them left it.
#[derive(Clone, Copy, Debug, PartialEq, Eq)]
pub enum CameraStep {
    /// Move the eye towards the target by a tenth of the way, times
    /// `scroll`, a single-precision bit pattern.
    Dolly { scroll: u32 },
    /// Turn the eye and the up vector about the world's up axis through the
    /// target, by `millirad` thousandths of a radian.
    Yaw { millirad: i32 },
    /// Turn the eye and the up vector about the view's right vector through
    /// the target, by `millirad` thousandths of a radian.
    Pitch { millirad: i32 },
    /// Look at the origin from the front, at the current distance; see
    /// [`snap_eye`] and [`snap_up`].
    SnapFront,
    /// Look at the origin from the right, at the current distance.
    SnapRight,
    /// Look at the origin from the top, at the current distance.
    SnapTop,
    /// Shift eye and target along `axis` by `per_mille` thousandths of the
    /// distance between them.
    Pan { axis: PanAxis, per_mille: i32 },
    /// Shift eye and target across the view as the cursor moved from `from`
    /// to `to` on a surface of size `size`; the positions are
    /// double-precision bit patterns.
    DragPan { from: (u64, u64), to: (u64, u64), size: PhysicalSize },
    /// Orbit as the cursor moved from `from` to `to`: `DRAG_STEP`
    /// thousandths of a radian per pixel, pitch from the vertical and yaw
    /// from the horizontal distance.
    DragOrbit { from: (u64, u64), to: (u64, u64) },
}

/// The up vector that a snap gives the camera: the y axis for the views from
/// the front and from the right, the z axis for the view from the top; a
/// unit vector each. Nothing for a move that is no snap.
pub open spec fn spec_snap_up(step: CameraStep) -> Option<[u32; 3]> {
    match step {
        CameraStep::SnapFront => Some([0u32, ONE, 0u32]),
        CameraStep::SnapRight => Some([0u32, ONE, 0u32]),
        CameraStep::SnapTop => Some([0u32, 0u32, ONE]),
        _ => None,
    }
}

/// The direction from the origin in which a snap puts the eye, at the
/// distance that the eye had from its target: down the z axis for the view
/// from the front, down the x axis for the view from the right, up the y
/// axis for the view from the top. Nothing for a move that is no snap.
pub open spec fn spec_snap_eye(step: CameraStep) -> Option<[i32; 3]> {
    match step {
        CameraStep::SnapFront => Some([0i32, 0i32, -1i32]),
        CameraStep::SnapRight => Some([-1i32, 0i32, 0i32]),
        CameraStep::SnapTop => Some([0i32, 1i32, 0i32]),
        _ => None,
    }
}

/// The up vector that a snap gives the camera.
pub fn snap_up(step: CameraStep) -> (up: Option<[u32; 3]>)
    ensures
        up == spec_snap_up(step),
{
    match step {
        CameraStep::SnapFront => Some([0, ONE, 0]),
        CameraStep::SnapRight => Some([0, ONE, 0]),
        CameraStep::SnapTop => Some([0, 0, ONE]),
        _ => None,
    }
}

/// The direction from the origin in which a snap puts the eye.
pub fn snap_eye(step: CameraStep) -> (direction: Option<[i32; 3]>)
    ensures
        direction == spec_snap_eye(step),
{
    match step {
        CameraStep::SnapFront => Some([0, 0, -1]),
        CameraStep::SnapRight => Some([-1, 0, 0]),
        CameraStep::SnapTop => Some([0, 1, 0]),
        _ => None,
    }
}

/// The keys that orbit the eye about the target, and whether each is held
/// down.
#[derive(Clone, Copy, Debug, PartialEq, Eq)]
pub struct OrbitKeys {
    pub up: bool,
    pub down: bool,
    pub left: bool,
    pub right: bool,
}

/// The keys that shift eye and target together, and whether each is held
/// down.
#[derive(Clone, Copy, Debug, PartialEq, Eq)]
pub struct PanKeys {
    pub forward: bool,
    pub backward: bool,
    pub left: bool,
    pub right: bool,
    pub up: bool,
    pub down: bool,
}

/// The keys that jump to a fixed view, and whether each is held down.
#[derive(Clone, Copy, Debug, PartialEq, Eq)]
pub struct SnapKeys {
    pub front: bool,
    pub right: bool,
    pub top: bool,
}

/// What the controller knows of the cursor, the middle button and the shift
/// key.
#[derive(Clone, Copy, Debug, PartialEq, Eq)]
pub struct Pointer {
    pub is_middle_pressed: bool,
    pub is_shift_pressed: bool,
    /// Cursor position at the last update, two double-precision bit
    /// patterns.
    pub position_before: (u64, u64),
    /// Cursor position now.
    pub position_current: (u64, u64),
}

/// What the controller knows of the input.
#[derive(Clone, Debug, PartialEq, Eq)]
pub struct CameraController {
    pub speed: u32,
    pub orbit: OrbitKeys,
    pub pan: PanKeys,
    pub snap: SnapKeys,
    pub pointer: Pointer,
    /// The scroll amounts that came since the last update, in the order in
    /// which they came; each is a single-precision bit pattern.
    pub scrolls: Vec<u32>,
    pub size: PhysicalSize,
}

/// The value of a [`CameraController`].
pub struct Controls {
    pub speed: u32,
    pub orbit: OrbitKeys,
    pub pan: PanKeys,
    pub snap: SnapKeys,
    pub pointer: Pointer,
    pub scrolls: Seq<u32>,
    pub size: PhysicalSize,
}

impl View for CameraController {
    type V = Controls;

    open spec fn view(&self) -> Controls {
        Controls {
            speed: self.speed,
            orbit: self.orbit,
            pan: self.pan,
            snap: self.snap,
            pointer: self.pointer,
            scrolls: self.scrolls@,
            size: self.size,
        }
    }
}

/// Whether the single-precision bit pattern `bits` is a number, that is
/// anything but a NaN.
pub open spec fn is_number(bits: u32) -> bool {
    bits & 0x7fff_ffff <= 0x7f80_0000
}

/// `step` if `flag` holds, else nothing.
#[verifier::opaque]
pub open spec fn when(flag: bool, step: CameraStep) -> Seq<CameraStep> {
    if flag {
        seq![step]
    } else {
        Seq::empty()
    }
}

impl OrbitKeys {
    /// The orbits that the keys held down ask for: to the right, to the
    /// left, up, down.
    pub open spec fn moves(self) -> Seq<CameraStep> {
        when(self.right, CameraStep::Yaw { millirad: (-ORBIT_STEP) as i32 }) + when(
            self.left,
            CameraStep::Yaw { millirad: ORBIT_STEP },
        ) + when(self.up, CameraStep::Pitch { millirad: ORBIT_STEP }) + when(
            self.down,
            CameraStep::Pitch { millirad: (-ORBIT_STEP) as i32 },
        )
    }

    fn steps(&self) -> (steps: Vec<CameraStep>)
        ensures
            steps@ == self.moves(),
    {
        let mut steps: Vec<CameraStep> = Vec::new();
        push_when(&mut steps, self.right, CameraStep::Yaw { millirad: -ORBIT_STEP });
        assert(steps@ =~= when(self.right, CameraStep::Yaw { millirad: (-ORBIT_STEP) as i32 }));
        push_when(&mut steps, self.left, CameraStep::Yaw { millirad: ORBIT_STEP });
        push_when(&mut steps, self.up, CameraStep::Pitch { millirad: ORBIT_STEP });
        push_when(&mut steps, self.down, CameraStep::Pitch { millirad: -ORBIT_STEP });
        steps
    }
}

impl SnapKeys {
    /// The snaps that the keys held down ask for: to the front, to the
    /// right, to the top.
    pub open spec fn moves(self) -> Seq<CameraStep> {
        when(self.front, CameraStep::SnapFront) + when(self.right, CameraStep::SnapRight) + when(
            self.top,
            CameraStep::SnapTop,
        )
    }

    fn steps(&self) -> (steps: Vec<CameraStep>)
        ensures
            steps@ == self.moves(),
    {
        let mut steps: Vec<CameraStep> = Vec::new();
        push_when(&mut steps, self.front, CameraStep::SnapFront);
        assert(steps@ =~= when(self.front, CameraStep::SnapFront));
        push_when(&mut steps, self.right, CameraStep::SnapRight);
        push_when(&mut steps, self.top, CameraStep::SnapTop);
        steps
    }
}

impl PanKeys {
    /// The pans that the keys held down ask for: forward, backward, to the
    /// left, to the right, up, down.
    pub open spec fn moves(self) -> Seq<CameraStep> {
        when(self.forward, CameraStep::Pan { axis: PanAxis::Forward, per_mille: PAN_STEP }) + when(
            self.backward,
            CameraStep::Pan { axis: PanAxis::Forward, per_mille: (-PAN_STEP) as i32 },
        ) + when(self.left, CameraStep::Pan { axis: PanAxis::Right, per_mille: (-PAN_STEP) as i32 })
            + when(self.right, CameraStep::Pan { axis: PanAxis::Right, per_mille: PAN_STEP })
            + when(self.up, CameraStep::Pan { axis: PanAxis::Up, per_mille: PAN_STEP }) + when(
            self.down,
            CameraStep::Pan { axis: PanAxis::Up, per_mille: (-PAN_STEP) as i32 },
        )
    }

    fn steps(&self) -> (steps: Vec<CameraStep>)
        ensures
            steps@ == self.moves(),
    {
        let mut steps: Vec<CameraStep> = Vec::new();
        push_when(
            &mut steps,
            self.forward,
            CameraStep::Pan { axis: PanAxis::Forward, per_mille: PAN_STEP },
        );
        assert(steps@ =~= when(
            self.forward,
            CameraStep::Pan { axis: PanAxis::Forward, per_mille: PAN_STEP },
        ));
        push_when(
            &mut steps,
            self.backward,
            CameraStep::Pan { axis: PanAxis::Forward, per_mille: -PAN_STEP },
        );
        push_when(
            &mut steps,
            self.left,
            CameraStep::Pan { axis: PanAxis::Right, per_mille: -PAN_STEP },
        );
        push_when(
            &mut steps,
            self.right,
            CameraStep::Pan { axis: PanAxis::Right, per_mille: PAN_STEP },
        );
        push_when(&mut steps, self.up, CameraStep::Pan { axis: PanAxis::Up, per_mille: PAN_STEP });
        push_when(
            &mut steps,
            self.down,
            CameraStep::Pan { axis: PanAxis::Up, per_mille: -PAN_STEP },
        );
        steps
    }
}

/// The dollies that waiting scroll amounts ask for: one for each amount
/// that is a number, in the order in which the amounts came. Added up, they
/// move the eye by the sum of the amounts.
pub open spec fn dollies(amounts: Seq<u32>) -> Seq<CameraStep>
    decreases amounts.len(),
{
    if amounts.len() == 0 {
        Seq::empty()
    } else {
        dollies(amounts.drop_last()) + when(
            is_number(amounts.last()),
            CameraStep::Dolly { scroll: amounts.last() },
        )
    }
}

impl Pointer {
    /// The move that dragging with the middle button asks for: a pan with
    /// the shift key held down, an orbit without.
    pub open spec fn drag_moves(self, size: PhysicalSize) -> Seq<CameraStep> {
        when(
            self.is_middle_pressed && self.is_shift_pressed,
            CameraStep::DragPan { from: self.position_before, to: self.position_current, size },
        ) + when(
            self.is_middle_pressed && !self.is_shift_pressed,
            CameraStep::DragOrbit { from: self.position_before, to: self.position_current },
        )
    }

    /// The pointer after an update: the cursor position is remembered.
    pub open spec fn after_update(self) -> Pointer {
        Pointer { position_before: self.position_current, ..self }
    }
}

impl Controls {
    /// The controller with nothing held down.
    pub open spec fn idle(speed: u32, size: PhysicalSize) -> Controls {
        Controls {
            speed,
            orbit: OrbitKeys { up: false, down: false, left: false, right: false },
            pan: PanKeys {
                forward: false,
                backward: false,
                left: false,
                right: false,
                up: false,
                down: false,
            },
            snap: SnapKeys { front: false, right: false, top: false },
            pointer: Pointer {
                is_middle_pressed: false,
                is_shift_pressed: false,
                position_before: (0, 0),
                position_current: (0, 0),
            },
            scrolls: Seq::empty(),
            size,
        }
    }

    /// The controller after `key` went down (`pressed`) or up.
    pub open spec fn with_key(self, key: VirtualKeyCode, pressed: bool) -> Controls {
        match key {
            VirtualKeyCode::W => Controls {
                pan: PanKeys { forward: pressed, ..self.pan },
                ..self
            },
            VirtualKeyCode::S => Controls {
                pan: PanKeys { backward: pressed, ..self.pan },
                ..self
            },
            VirtualKeyCode::A => Controls {
                pan: PanKeys { left: pressed, ..self.pan },
                ..self
            },
            VirtualKeyCode::D => Controls {
                pan: PanKeys { right: pressed, ..self.pan },
                ..self
            },
            VirtualKeyCode::E => Controls { pan: PanKeys { up: pressed, ..self.pan }, ..self },
            VirtualKeyCode::Q => Controls {
                pan: PanKeys { down: pressed, ..self.pan },
                ..self
            },
            VirtualKeyCode::LShift => Controls {
                pointer: Pointer { is_shift_pressed: pressed, ..self.pointer },
                ..self
            },
            VirtualKeyCode::Numpad1 => Controls {
                snap: SnapKeys { front: pressed, ..self.snap },
                ..self
            },
            VirtualKeyCode::Numpad2 => Controls {
                orbit: OrbitKeys { down: pressed, ..self.orbit },
                ..self
            },
            VirtualKeyCode::Numpad4 => Controls {
                orbit: OrbitKeys { left: pressed, ..self.orbit },
                ..self
            },
            VirtualKeyCode::Numpad3 => Controls {
                snap: SnapKeys { right: pressed, ..self.snap },
                ..self
            },
            VirtualKeyCode::Numpad6 => Controls {
                orbit: OrbitKeys { right: pressed, ..self.orbit },
                ..self
            },
            VirtualKeyCode::Numpad7 => Controls {
                snap: SnapKeys { top: pressed, ..self.snap },
                ..self
            },
            VirtualKeyCode::Numpad8 => Controls {
                orbit: OrbitKeys { up: pressed, ..self.orbit },
                ..self
            },
            VirtualKeyCode::Escape => self,
            VirtualKeyCode::Other => self,
        }
    }

    /// The controller after `event` on a surface of size `size`.
    pub open spec fn after_event(self, event: WindowEvent, size: PhysicalSize) -> Controls {
        let sized = Controls { size, ..self };
        match event {
            WindowEvent::KeyboardInput { state, virtual_keycode: Some(key) } => sized.with_key(
                key,
                state == ElementState::Pressed,
            ),
            WindowEvent::MouseWheel {
                delta: MouseScrollDelta::LineDelta { horizontal, vertical },
            } => Controls { scrolls: self.scrolls.push(vertical), ..sized },
            WindowEvent::CursorMoved { x, y } => Controls {
                pointer: Pointer { position_current: (x, y), ..self.pointer },
                ..sized
            },
            WindowEvent::MouseInput { state, button: MouseButton::Middle } => Controls {
                pointer: Pointer {
                    is_middle_pressed: state == ElementState::Pressed,
                    ..self.pointer
                },
                ..sized
            },
            _ => sized,
        }
    }

    /// The moves that the next update asks for: the dollies, the orbits,
    /// the snaps, the pans, the drag. They are always taken in this order,
    /// and each is there if and only if what calls for it is held down or
    /// waiting.
    pub open spec fn plan(self) -> Seq<CameraStep> {
        dollies(self.scrolls) + self.orbit.moves() + self.snap.moves() + self.pan.moves()
            + self.pointer.drag_moves(self.size)
    }

    /// The controller after an update: no scroll amount waits any more,
    /// and the cursor position is remembered.
    pub open spec fn after_update(self) -> Controls {
        Controls { scrolls: Seq::empty(), pointer: self.pointer.after_update(), ..self }
    }
}

impl CameraController {
    /// Whether a key is one that the controller reacts to.
    pub open spec fn binds(key: VirtualKeyCode) -> bool {
        key != VirtualKeyCode::Escape && key != VirtualKeyCode::Other
    }

    /// Whether the controller takes `event` for itself.
    pub open spec fn consumes(event: WindowEvent) -> bool {
        match event {
            WindowEvent::KeyboardInput { state, virtual_keycode: Some(key) } => Self::binds(key),
            WindowEvent::MouseWheel { delta: MouseScrollDelta::LineDelta { .. } } => true,
            WindowEvent::MouseInput { state, button: MouseButton::Middle } => true,
            _ => false,
        }
    }

    /// A controller with nothing held down.
    pub fn new(speed: u32, size: PhysicalSize) -> (controller: CameraController)
        ensures
            controller@ == Controls::idle(speed, size),
    {
        CameraController {
            speed,
            orbit: OrbitKeys { up: false, down: false, left: false, right: false },
            pan: PanKeys {
                forward: false,
                backward: false,
                left: false,
                right: false,
                up: false,
                down: false,
            },
            snap: SnapKeys { front: false, right: false, top: false },
            pointer: Pointer {
                is_middle_pressed: false,
                is_shift_pressed: false,
                position_before: (0, 0),
                position_current: (0, 0),
            },
            scrolls: Vec::new(),
            size,
        }
    }

    /// Takes note of a key that went down (`pressed`) or up, and says whether
    /// it is one that the controller reacts to.
    fn process_key(&mut self, key: VirtualKeyCode, pressed: bool) -> (bound: bool)
        ensures
            final(self)@ == old(self)@.with_key(key, pressed),
            bound == Self::binds(key),
    {
        match key {
            VirtualKeyCode::W => {
                self.pan.forward = pressed;
                assert(self@ == old(self)@.with_key(key, pressed));
                true
            },
            VirtualKeyCode::S => {
                self.pan.backward = pressed;
                assert(self@ == old(self)@.with_key(key, pressed));
                true
            },
            VirtualKeyCode::A => {
                self.pan.left = pressed;
                assert(self@ == old(self)@.with_key(key, pressed));
                true
            },
            VirtualKeyCode::D => {
                self.pan.right = pressed;
                assert(self@ == old(self)@.with_key(key, pressed));
                true
            },
            VirtualKeyCode::E => {
                self.pan.up = pressed;
                assert(self@ == old(self)@.with_key(key, pressed));
                true
            },
            VirtualKeyCode::Q => {
                self.pan.down = pressed;
                assert(self@ == old(self)@.with_key(key, pressed));
                true
            },
            VirtualKeyCode::LShift => {
                self.pointer.is_shift_pressed = pressed;
                assert(self@ == old(self)@.with_key(key, pressed));
                true
            },
            VirtualKeyCode::Numpad1 => {
                self.snap.front = pressed;
                assert(self@ == old(self)@.with_key(key, pressed));
                true
            },
            VirtualKeyCode::Numpad2 => {
                self.orbit.down = pressed;
                assert(self@ == old(self)@.with_key(key, pressed));
                true
            },
            VirtualKeyCode::Numpad4 => {
                self.orbit.left = pressed;
                assert(self@ == old(self)@.with_key(key, pressed));
                true
            },
            VirtualKeyCode::Numpad3 => {
                self.snap.right = pressed;
                assert(self@ == old(self)@.with_key(key, pressed));
                true
            },
            VirtualKeyCode::Numpad6 => {
                self.orbit.right = pressed;
                assert(self@ == old(self)@.with_key(key, pressed));
                true
            },
            VirtualKeyCode::Numpad7 => {
                self.snap.top = pressed;
                assert(self@ == old(self)@.with_key(key, pressed));
                true
            },
            VirtualKeyCode::Numpad8 => {
                self.orbit.up = pressed;
                assert(self@ == old(self)@.with_key(key, pressed));
                true
            },
            VirtualKeyCode::Escape => false,
            VirtualKeyCode::Other => false,
        }
    }

    /// Takes note of an event and says whether it was meant for the
    /// controller.
    pub fn process_events(&mut self, event: &WindowEvent, size: PhysicalSize) -> (consumed: bool)
        ensures
            final(self)@ == old(self)@.after_event(*event, size),
            consumed == Self::consumes(*event),
    {
        self.size = size;
        match event {
            WindowEvent::KeyboardInput { state, virtual_keycode: Some(keycode) } => {
                let is_pressed = match state {
                    ElementState::Pressed => true,
                    ElementState::Released => false,
                };
                self.process_key(*keycode, is_pressed)
            },
            WindowEvent::MouseWheel { delta } => match delta {
                MouseScrollDelta::LineDelta { horizontal, vertical } => {
                    self.scrolls.push(*vertical);
                    true
                },
                MouseScrollDelta::PixelDelta => false,
            },
            WindowEvent::CursorMoved { x, y } => {
                self.pointer.position_current = (*x, *y);
                false
            },
            WindowEvent::MouseInput { state, button } => {
                let is_pressed = match state {
                    ElementState::Pressed => true,
                    ElementState::Released => false,
                };
                match button {
                    MouseButton::Middle => {
                        self.pointer.is_middle_pressed = is_pressed;
                        true
                    },
                    _ => false,
                }
            },
            _ => false,
        }
    }

    /// Says which moves the viewpoint makes this frame, and uses up the
    /// input that is applied once only: the scroll amounts that wait.
    pub fn update_camera(&mut self) -> (steps: Vec<CameraStep>)
        ensures
            steps@ == old(self)@.plan(),
            final(self)@ == old(self)@.after_update(),
    {
        let mut steps: Vec<CameraStep> = Vec::new();
        let waiting: usize = self.scrolls.len();
        let mut i: usize = 0;
        assert(self.scrolls@.subrange(0, 0) =~= Seq::<u32>::empty());
        while i < waiting
            invariant
                i <= waiting,
                waiting == self.scrolls@.len(),
                steps@ == dollies(self.scrolls@.subrange(0, i as int)),
            decreases waiting - i,
        {
            let scroll: u32 = self.scrolls[i];
            push_when(&mut steps, scroll & 0x7fff_ffff <= 0x7f80_0000, CameraStep::Dolly { scroll });
            proof {
                let next = self.scrolls@.subrange(0, i + 1);
                assert(next.drop_last() =~= self.scrolls@.subrange(0, i as int));
                assert(next.last() == scroll);
            }
            i += 1;
        }
        assert(self.scrolls@.subrange(0, waiting as int) =~= self.scrolls@);
        let mut orbits = self.orbit.steps();
        steps.append(&mut orbits);
        let mut snaps = self.snap.steps();
        steps.append(&mut snaps);
        let mut pans = self.pan.steps();
        steps.append(&mut pans);
        push_when(
            &mut steps,
            self.pointer.is_middle_pressed && self.pointer.is_shift_pressed,
            CameraStep::DragPan {
                from: self.pointer.position_before,
                to: self.pointer.position_current,
                size: self.size,
            },
        );
        push_when(
            &mut steps,
            self.pointer.is_middle_pressed && !self.pointer.is_shift_pressed,
            CameraStep::DragOrbit {
                from: self.pointer.position_before,
                to: self.pointer.position_current,
            },
        );
        assert(steps@ =~= self@.plan());
        self.scrolls.clear();
        self.pointer.position_before = self.pointer.position_current;
        steps
    }
}

/// Appends `step` if `flag` holds.
fn push_when(steps: &mut Vec<CameraStep>, flag: bool, step: CameraStep)
    ensures
        final(steps)@ == old(steps)@ + when(flag, step),
{
    if flag {
        steps.push(step);
    }
    reveal(when);
    assert(steps@ =~= old(steps)@ + when(flag, step));
}

/// Whether none of `steps` is a dolly.
pub open spec fn no_dolly(steps: Seq<CameraStep>) -> bool {
    forall|i: int| 0 <= i < steps.len() ==> !(#[trigger] steps[i] is Dolly)
}

/// Moves without a dolly, one after the other, are moves without a dolly.
proof fn lemma_no_dolly_concat(first: Seq<CameraStep>, second: Seq<CameraStep>)
    requires
        no_dolly(first),
        no_dolly(second),
    ensures
        no_dolly(first + second),
{
}

/// A move that is no dolly, or no move at all, is without a dolly.
proof fn lemma_no_dolly_when(flag: bool, step: CameraStep)
    requires
        !flag || !(step is Dolly),
    ensures
        no_dolly(when(flag, step)),
{
    reveal(when);
}

/// Orbits are no dollies.
proof fn lemma_orbits_no_dolly(keys: OrbitKeys)
    ensures
        no_dolly(keys.moves()),
{
    let a = when(keys.right, CameraStep::Yaw { millirad: (-ORBIT_STEP) as i32 });
    let b = when(keys.left, CameraStep::Yaw { millirad: ORBIT_STEP });
    let c = when(keys.up, CameraStep::Pitch { millirad: ORBIT_STEP });
    let d = when(keys.down, CameraStep::Pitch { millirad: (-ORBIT_STEP) as i32 });
    lemma_no_dolly_when(keys.right, CameraStep::Yaw { millirad: (-ORBIT_STEP) as i32 });
    lemma_no_dolly_when(keys.left, CameraStep::Yaw { millirad: ORBIT_STEP });
    lemma_no_dolly_when(keys.up, CameraStep::Pitch { millirad: ORBIT_STEP });
    lemma_no_dolly_when(keys.down, CameraStep::Pitch { millirad: (-ORBIT_STEP) as i32 });
    lemma_no_dolly_concat(a, b);
    lemma_no_dolly_concat(a + b, c);
    lemma_no_dolly_concat(a + b + c, d);
}

/// Snaps are no dollies.
proof fn lemma_snaps_no_dolly(keys: SnapKeys)
    ensures
        no_dolly(keys.moves()),
{
    let a = when(keys.front, CameraStep::SnapFront);
    let b = when(keys.right, CameraStep::SnapRight);
    let c = when(keys.top, CameraStep::SnapTop);
    lemma_no_dolly_when(keys.front, CameraStep::SnapFront);
    lemma_no_dolly_when(keys.right, CameraStep::SnapRight);
    lemma_no_dolly_when(keys.top, CameraStep::SnapTop);
    lemma_no_dolly_concat(a, b);
    lemma_no_dolly_concat(a + b, c);
}

/// Pans are no dollies.
proof fn lemma_pans_no_dolly(keys: PanKeys)
    ensures
        no_dolly(keys.moves()),
{
    let forward = CameraStep::Pan { axis: PanAxis::Forward, per_mille: PAN_STEP };
    let backward = CameraStep::Pan { axis: PanAxis::Forward, per_mille: (-PAN_STEP) as i32 };
    let left = CameraStep::Pan { axis: PanAxis::Right, per_mille: (-PAN_STEP) as i32 };
    let right = CameraStep::Pan { axis: PanAxis::Right, per_mille: PAN_STEP };
    let up = CameraStep::Pan { axis: PanAxis::Up, per_mille: PAN_STEP };
    let down = CameraStep::Pan { axis: PanAxis::Up, per_mille: (-PAN_STEP) as i32 };
    let a = when(keys.forward, forward);
    let b = when(keys.backward, backward);
    let c = when(keys.left, left);
    let d = when(keys.right, right);
    let e = when(keys.up, up);
    let f = when(keys.down, down);
    lemma_no_dolly_when(keys.forward, forward);
    lemma_no_dolly_when(keys.backward, backward);
    lemma_no_dolly_when(keys.left, left);
    lemma_no_dolly_when(keys.right, right);
    lemma_no_dolly_when(keys.up, up);
    lemma_no_dolly_when(keys.down, down);
    lemma_no_dolly_concat(a, b);
    lemma_no_dolly_concat(a + b, c);
    lemma_no_dolly_concat(a + b + c, d);
    lemma_no_dolly_concat(a + b + c + d, e);
    lemma_no_dolly_concat(a + b + c + d + e, f);
}

/// Drags are no dollies.
proof fn lemma_drags_no_dolly(pointer: Pointer, size: PhysicalSize)
    ensures
        no_dolly(pointer.drag_moves(size)),
{
    let pan = CameraStep::DragPan {
        from: pointer.position_before,
        to: pointer.position_current,
        size,
    };
    let orbit = CameraStep::DragOrbit {
        from: pointer.position_before,
        to: pointer.position_current,
    };
    lemma_no_dolly_when(pointer.is_middle_pressed && pointer.is_shift_pressed, pan);
    lemma_no_dolly_when(pointer.is_middle_pressed && !pointer.is_shift_pressed, orbit);
    lemma_no_dolly_concat(
        when(pointer.is_middle_pressed && pointer.is_shift_pressed, pan),
        when(pointer.is_middle_pressed && !pointer.is_shift_pressed, orbit),
    );
}

/// Scroll amounts add up: every amount that is a number is applied, each by
/// a dolly of its own, in the order in which the amounts came. Two turns of
/// the wheel by one line each, with no update between them, move the eye as
/// one turn by two lines does.
pub proof fn lemma_every_amount_is_applied(amounts: Seq<u32>)
    requires
        forall|i: int| 0 <= i < amounts.len() ==> is_number(#[trigger] amounts[i]),
    ensures
        dollies(amounts).len() == amounts.len(),
        forall|i: int|
            0 <= i < amounts.len() ==> #[trigger] dollies(amounts)[i] == (CameraStep::Dolly {
                scroll: amounts[i],
            }),
    decreases amounts.len(),
{
    reveal(when);
    if amounts.len() > 0 {
        let front = amounts.drop_last();
        assert forall|i: int| 0 <= i < front.len() implies is_number(#[trigger] front[i]) by {
            assert(front[i] == amounts[i]);
        }
        lemma_every_amount_is_applied(front);
        assert forall|i: int| 0 <= i < amounts.len() implies #[trigger] dollies(amounts)[i] == (
        CameraStep::Dolly { scroll: amounts[i] }) by {
            if i < front.len() {
                assert(dollies(amounts)[i] == dollies(front)[i]);
                assert(front[i] == amounts[i]);
            }
        }
    }
}

/// Every wheel event in lines is kept until the next update: after two of
/// them both amounts wait, the older first.
pub proof fn lemma_scroll_amounts_are_kept(controls: Controls, size: PhysicalSize, a: u32, b: u32)
    ensures
        controls.after_event(
            WindowEvent::MouseWheel { delta: MouseScrollDelta::LineDelta { horizontal: 0, vertical: a } },
            size,
        ).after_event(
            WindowEvent::MouseWheel { delta: MouseScrollDelta::LineDelta { horizontal: 0, vertical: b } },
            size,
        ).scrolls == controls.scrolls.push(a).push(b),
{
}

/// A scroll amount moves the eye once: the update that follows another
/// update, with no event in between, finds no scroll amount waiting and
/// asks for no dolly.
pub proof fn lemma_scroll_is_used_once(controls: Controls)
    ensures
        controls.after_update().scrolls.len() == 0,
        no_dolly(controls.after_update().plan()),
{
    let c = controls.after_update();
    let d = dollies(c.scrolls);
    assert(d =~= Seq::<CameraStep>::empty());
    lemma_orbits_no_dolly(c.orbit);
    lemma_snaps_no_dolly(c.snap);
    lemma_pans_no_dolly(c.pan);
    lemma_drags_no_dolly(c.pointer, c.size);
    let o = c.orbit.moves();
    let s = c.snap.moves();
    let p = c.pan.moves();
    lemma_no_dolly_concat(d, o);
    lemma_no_dolly_concat(d + o, s);
    lemma_no_dolly_concat(d + o + s, p);
    lemma_no_dolly_concat(d + o + s + p, c.pointer.drag_moves(c.size));
}

/// The dollies are made before every other move.
pub proof fn lemma_dollies_come_first(controls: Controls)
    ensures
        controls.plan().len() >= dollies(controls.scrolls).len(),
        forall|i: int|
            0 <= i < dollies(controls.scrolls).len() ==> #[trigger] controls.plan()[i] == dollies(
                controls.scrolls,
            )[i],
{
    let d = dollies(controls.scrolls);
    let orbits = d + controls.orbit.moves();
    let snaps = orbits + controls.snap.moves();
    let pans = snaps + controls.pan.moves();
    let all = pans + controls.pointer.drag_moves(controls.size);
    assert forall|i: int| 0 <= i < d.len() implies #[trigger] all[i] == d[i] by {
        assert(orbits[i] == d[i]);
        assert(snaps[i] == d[i]);
        assert(pans[i] == d[i]);
    }
}

/// A controller with nothing held down and nothing waiting asks for no
/// move.
pub proof fn lemma_idle_asks_nothing(speed: u32, size: PhysicalSize)
    ensures
        Controls::idle(speed, size).plan() == Seq::<CameraStep>::empty(),
{
    reveal(when);
    assert(Controls::idle(speed, size).plan() =~= Seq::<CameraStep>::empty());
}

} // verus!
