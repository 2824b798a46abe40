use modeling::camera::{CameraController, CameraStep};
use modeling::event::{
    ElementState, Event, MouseScrollDelta, PhysicalSize, VirtualKeyCode, WindowEvent,
};
use modeling::scene::Scene;
use modeling::state::{
    Acquire, Action, FramePass, Phase, State, SurfaceConfiguration, CONTROLLER_SPEED, FRAME_NANOS,
};

const SIZE: PhysicalSize = PhysicalSize { width: 800, height: 600 };
const BIG: PhysicalSize = PhysicalSize { width: 1920, height: 1080 };

fn state() -> State {
    let zero = [[0u32; 4]; 4];
    State::new(SIZE, Scene::new(SIZE.width, SIZE.height, 2, zero, zero).unwrap())
}

fn running() -> State {
    let mut s = state();
    s.start();
    s
}

fn own(event: WindowEvent) -> Event {
    Event::WindowEvent { event, own_window: true }
}

fn key(code: VirtualKeyCode, state: ElementState) -> Event {
    own(WindowEvent::KeyboardInput { state, virtual_keycode: Some(code) })
}

fn in_step(s: &State, size: PhysicalSize) -> bool {
    let p = &s.scene.camera.projection;
    let d = &s.scene.renderer.depth_texture;
    s.size == size
        && s.config == SurfaceConfiguration { width: size.width, height: size.height }
        && s.camera_controller.size == size
        && (d.width, d.height) == (size.width, size.height)
        && (p.aspect_width, p.aspect_height) == (size.width, size.height)
}

#[test]
fn frame_time_is_a_sixtieth_of_a_second() {
    assert_eq!(FRAME_NANOS, (1e9f64 / 60.0).round() as u64);
    assert_eq!(FRAME_NANOS as u128, std::time::Duration::from_secs_f64(1.0 / 60.0).as_nanos());
    assert_eq!(f32::from_bits(CONTROLLER_SPEED), 0.2);
}

#[test]
fn new_driver_waits_for_the_surface() {
    let mut s = state();
    assert_eq!(s.phase, Phase::Init);
    assert!(in_step(&s, SIZE));
    assert_eq!(s.camera_controller, CameraController::new(CONTROLLER_SPEED, SIZE));
    assert_eq!(s.handle_event(&Event::RedrawRequested, 0), Action::Nothing);
    assert_eq!(s.handle_event(&Event::MainEventsCleared, 0), Action::Nothing);
    s.resized();
    assert_eq!(s.phase, Phase::Init);
    s.start();
    assert_eq!(s.phase, Phase::Running);
    s.start();
    assert_eq!(s.phase, Phase::Running);
}

#[test]
fn new_driver_brings_the_scene_in_step() {
    let zero = [[0u32; 4]; 4];
    let s = State::new(BIG, Scene::new(SIZE.width, SIZE.height, 2, zero, zero).unwrap());
    assert!(in_step(&s, BIG));
    assert!(s.is_in_step());
    let mut s = s;
    s.scene.renderer.depth_texture.width = 7;
    assert!(!s.is_in_step());
    s.scene.renderer.depth_texture.width = BIG.width;
    assert!(s.is_in_step());
    s.camera_controller.size = SIZE;
    assert!(!s.is_in_step());
    s.camera_controller.size = BIG;
    s.scene.lights.lights[0].light.shadow_view = Some(1);
    assert!(!s.is_in_step());
    s.scene.lights.lights[0].light.shadow_view = Some(0);
    s.scene.lights.lights.clear();
    assert!(s.is_in_step());
}

#[test]
fn running_driver_draws_on_request() {
    let mut s = running();
    assert_eq!(s.handle_event(&Event::RedrawRequested, 0), Action::Render);
    assert_eq!(s.phase, Phase::Running);
    assert_eq!(
        s.render(),
        vec![FramePass::Opaque, FramePass::LightMarkers, FramePass::Overlay]
    );
}

#[test]
fn frames_are_paced() {
    let mut s = running();
    assert_eq!(s.handle_event(&Event::RedrawEventsCleared, FRAME_NANOS), Action::RequestRedraw);
    assert_eq!(s.handle_event(&Event::RedrawEventsCleared, u64::MAX), Action::RequestRedraw);
    assert_eq!(
        s.handle_event(&Event::RedrawEventsCleared, FRAME_NANOS - 1),
        Action::WaitUntil { nanos: 1 }
    );
    assert_eq!(
        s.handle_event(&Event::RedrawEventsCleared, 0),
        Action::WaitUntil { nanos: 16_666_667 }
    );
    assert_eq!(
        s.handle_event(&Event::RedrawEventsCleared, 6_666_667),
        Action::WaitUntil { nanos: 10_000_000 }
    );
}

#[test]
fn end_of_input_moves_the_viewpoint() {
    let mut s = running();
    assert_eq!(s.handle_event(&Event::MainEventsCleared, 0), Action::Update { steps: vec![] });
    assert_eq!(s.handle_event(&key(VirtualKeyCode::Numpad6, ElementState::Pressed), 0), Action::Nothing);
    let wheel = WindowEvent::MouseWheel {
        delta: MouseScrollDelta::LineDelta { horizontal: 0, vertical: 1f32.to_bits() },
    };
    assert_eq!(s.handle_event(&own(wheel), 0), Action::Nothing);
    assert_eq!(
        s.handle_event(&Event::MainEventsCleared, 0),
        Action::Update {
            steps: vec![
                CameraStep::Dolly { scroll: 1f32.to_bits() },
                CameraStep::Yaw { millirad: -50 }
            ]
        }
    );
    assert_eq!(
        s.handle_event(&Event::MainEventsCleared, 0),
        Action::Update { steps: vec![CameraStep::Yaw { millirad: -50 }] }
    );
}

#[test]
fn events_of_other_windows_are_ignored() {
    let mut s = running();
    let other = Event::WindowEvent { event: WindowEvent::CloseRequested, own_window: false };
    assert_eq!(s.handle_event(&other, 0), Action::Nothing);
    let other = Event::WindowEvent { event: WindowEvent::Resized(BIG), own_window: false };
    assert_eq!(s.handle_event(&other, 0), Action::Nothing);
    let wheel = WindowEvent::MouseWheel {
        delta: MouseScrollDelta::LineDelta { horizontal: 0, vertical: 1f32.to_bits() },
    };
    let other = Event::WindowEvent { event: wheel, own_window: false };
    assert_eq!(s.handle_event(&other, 0), Action::Nothing);
    assert_eq!(s.handle_event(&Event::Other, 0), Action::Nothing);
    assert_eq!(s.phase, Phase::Running);
    assert!(in_step(&s, SIZE));
    assert_eq!(s.camera_controller, CameraController::new(CONTROLLER_SPEED, SIZE));
}

#[test]
fn close_and_escape_end_the_viewer() {
    let mut s = running();
    assert_eq!(s.handle_event(&own(WindowEvent::CloseRequested), 0), Action::Exit);
    assert_eq!(s.phase, Phase::ShuttingDown);
    let mut s = running();
    assert_eq!(s.handle_event(&key(VirtualKeyCode::Escape, ElementState::Released), 0), Action::Nothing);
    assert_eq!(s.phase, Phase::Running);
    assert_eq!(s.handle_event(&key(VirtualKeyCode::Escape, ElementState::Pressed), 0), Action::Exit);
    assert_eq!(s.phase, Phase::ShuttingDown);
    let mut s = state();
    assert_eq!(s.handle_event(&own(WindowEvent::CloseRequested), 0), Action::Exit);
    assert_eq!(s.phase, Phase::ShuttingDown);
}

#[test]
fn driver_that_is_leaving_does_nothing() {
    let mut s = running();
    s.handle_event(&own(WindowEvent::CloseRequested), 0);
    for event in [
        Event::RedrawRequested,
        Event::RedrawEventsCleared,
        Event::MainEventsCleared,
        own(WindowEvent::Resized(BIG)),
        own(WindowEvent::CloseRequested),
        key(VirtualKeyCode::W, ElementState::Pressed),
        Event::Other,
    ] {
        assert_eq!(s.handle_event(&event, u64::MAX), Action::Nothing);
    }
    assert_eq!(s.phase, Phase::ShuttingDown);
    assert!(in_step(&s, SIZE));
    assert!(!s.camera_controller.pan.forward);
    s.start();
    s.resized();
    assert_eq!(s.phase, Phase::ShuttingDown);
}

#[test]
fn new_size_is_taken_over_at_once_and_drawing_waits() {
    let mut s = running();
    assert_eq!(s.handle_event(&own(WindowEvent::Resized(BIG)), 0), Action::Resize { size: BIG });
    assert_eq!(s.phase, Phase::Resizing);
    assert!(in_step(&s, BIG));
    let p = &s.scene.camera.projection;
    assert!((p.aspect_width as f32 / p.aspect_height as f32 - 1.7778).abs() < 1e-4);
    assert_eq!(s.handle_event(&Event::RedrawRequested, 0), Action::Nothing);
    assert_eq!(s.handle_event(&Event::MainEventsCleared, 0), Action::Nothing);
    assert_eq!(s.handle_event(&Event::RedrawEventsCleared, FRAME_NANOS), Action::RequestRedraw);
    s.start();
    assert_eq!(s.phase, Phase::Resizing);
    s.resized();
    assert_eq!(s.phase, Phase::Running);
    assert_eq!(s.handle_event(&Event::RedrawRequested, 0), Action::Render);
    assert!(in_step(&s, BIG));
}

#[test]
fn size_without_pixels_is_noted_but_not_set_up() {
    for none in [
        PhysicalSize { width: 0, height: 600 },
        PhysicalSize { width: 800, height: 0 },
        PhysicalSize { width: 0, height: 0 },
    ] {
        let mut s = running();
        assert_eq!(s.handle_event(&own(WindowEvent::Resized(none)), 0), Action::Nothing);
        assert_eq!(s.phase, Phase::Resizing);
        assert!(in_step(&s, none));
        assert!(s.is_in_step());
        assert_eq!(s.handle_event(&Event::RedrawRequested, 0), Action::Nothing);
        assert_eq!(s.handle_event(&Event::MainEventsCleared, 0), Action::Nothing);
        s.resized();
        assert_eq!(s.phase, Phase::Resizing);
        let scaled = own(WindowEvent::ScaleFactorChanged { new_inner_size: none });
        assert_eq!(s.handle_event(&scaled, 0), Action::Nothing);
        assert_eq!(s.handle_event(&own(WindowEvent::Resized(BIG)), 0), Action::Resize { size: BIG });
        s.resized();
        assert_eq!(s.phase, Phase::Running);
        assert_eq!(s.handle_event(&Event::RedrawRequested, 0), Action::Render);
    }
}

#[test]
fn driver_without_pixels_does_not_run() {
    let zero = [[0u32; 4]; 4];
    let none = PhysicalSize { width: 0, height: 0 };
    let mut s = State::new(none, Scene::new(SIZE.width, SIZE.height, 2, zero, zero).unwrap());
    s.start();
    assert_eq!(s.phase, Phase::Resizing);
    assert!(s.is_in_step());
    assert_eq!(s.handle_event(&Event::RedrawRequested, 0), Action::Nothing);
    s.phase = Phase::Running;
    assert!(!s.is_in_step());
}

#[test]
fn new_size_keeps_the_rest_of_the_camera() {
    let mut s = running();
    s.scene.camera.eye = [1, 2, 3];
    s.scene.camera.target = [4, 5, 6];
    s.scene.camera.up = [7, 8, 9];
    s.scene.camera.projection.fovy = 10;
    s.scene.camera.projection.znear = 11;
    s.scene.camera.projection.zfar = 12;
    s.handle_event(&own(WindowEvent::Resized(BIG)), 0);
    let camera = s.scene.camera;
    assert_eq!((camera.eye, camera.target, camera.up), ([1, 2, 3], [4, 5, 6], [7, 8, 9]));
    let p = camera.projection;
    assert_eq!((p.fovy, p.znear, p.zfar), (10, 11, 12));
    assert_eq!((p.aspect_width, p.aspect_height), (BIG.width, BIG.height));
    let zero = [[0u32; 4]; 4];
    let mut scene = Scene::new(SIZE.width, SIZE.height, 2, zero, zero).unwrap();
    scene.camera.projection.fovy = 20;
    scene.camera.eye = [21, 22, 23];
    let s = State::new(BIG, scene);
    assert_eq!(s.scene.camera.projection.fovy, 20);
    assert_eq!(s.scene.camera.eye, [21, 22, 23]);
}

#[test]
fn wheel_turns_add_up_until_the_next_update() {
    let mut s = running();
    let wheel = |lines: f32| {
        own(WindowEvent::MouseWheel {
            delta: MouseScrollDelta::LineDelta { horizontal: 0, vertical: lines.to_bits() },
        })
    };
    s.handle_event(&wheel(1.0), 0);
    s.handle_event(&wheel(1.0), 0);
    s.handle_event(&wheel(-0.5), 0);
    assert_eq!(
        s.handle_event(&Event::MainEventsCleared, 0),
        Action::Update {
            steps: vec![
                CameraStep::Dolly { scroll: 1f32.to_bits() },
                CameraStep::Dolly { scroll: 1f32.to_bits() },
                CameraStep::Dolly { scroll: (-0.5f32).to_bits() },
            ]
        }
    );
    assert_eq!(s.handle_event(&Event::MainEventsCleared, 0), Action::Update { steps: vec![] });
}

#[test]
fn scale_change_brings_a_new_size_too() {
    let mut s = running();
    let event = own(WindowEvent::ScaleFactorChanged { new_inner_size: BIG });
    assert_eq!(s.handle_event(&event, 0), Action::Resize { size: BIG });
    assert_eq!(s.phase, Phase::Resizing);
    let again = own(WindowEvent::Resized(SIZE));
    assert_eq!(s.handle_event(&again, 0), Action::Resize { size: SIZE });
    assert_eq!(s.phase, Phase::Resizing);
    assert!(in_step(&s, SIZE));
}

#[test]
fn size_that_comes_before_the_start_is_kept() {
    let mut s = state();
    assert_eq!(s.handle_event(&own(WindowEvent::Resized(BIG)), 0), Action::Resize { size: BIG });
    assert_eq!(s.phase, Phase::Init);
    assert!(in_step(&s, BIG));
    s.start();
    assert_eq!(s.handle_event(&Event::RedrawRequested, 0), Action::Render);
}

#[test]
fn controller_takes_its_events_first() {
    let mut s = running();
    assert_eq!(s.handle_event(&key(VirtualKeyCode::W, ElementState::Pressed), 0), Action::Nothing);
    assert!(s.camera_controller.pan.forward);
    let moved = own(WindowEvent::CursorMoved { x: 5f64.to_bits(), y: 6f64.to_bits() });
    assert_eq!(s.handle_event(&moved, 0), Action::Nothing);
    assert_eq!(s.camera_controller.pointer.position_current, (5f64.to_bits(), 6f64.to_bits()));
    assert_eq!(s.handle_event(&own(WindowEvent::Other), 0), Action::Nothing);
    assert_eq!(s.phase, Phase::Running);
}

#[test]
fn lost_frame_is_asked_for_once_more_then_let_go() {
    assert_eq!(State::acquire(0, true), Acquire::Draw);
    assert_eq!(State::acquire(0, false), Acquire::Reconfigure);
    assert_eq!(State::acquire(1, true), Acquire::Draw);
    assert_eq!(State::acquire(1, false), Acquire::Skip);
    assert_eq!(State::acquire(7, false), Acquire::Skip);
}
