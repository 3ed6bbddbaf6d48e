use orbit_camera::camera::{zoom_factor, CameraTransform, OrbitCamera, OrbitCameraPlugin};
use orbit_camera::input::{InputState, MouseMotion, MouseScrollUnit, MouseWheel};
use orbit_camera::vec3::Vec3Fx;

const SCALE: i64 = 1_000_000;

fn origin() -> Vec3Fx {
    Vec3Fx { x: 0, y: 0, z: 0 }
}

fn idle() -> InputState {
    InputState {
        shift_pressed: false,
        left_pressed: false,
        right_pressed: false,
        up_pressed: false,
        down_pressed: false,
    }
}

fn drag_primary() -> InputState {
    InputState { left_pressed: true, ..idle() }
}

fn norm_from(v: Vec3Fx, c: Vec3Fx) -> f64 {
    let dx = (v.x - c.x) as f64 / 1e6;
    let dy = (v.y - c.y) as f64 / 1e6;
    let dz = (v.z - c.z) as f64 / 1e6;
    (dx * dx + dy * dy + dz * dz).sqrt()
}

#[test]
fn new_sets_the_demo_configuration() {
    let cam = OrbitCamera::new(1, 2, 3, origin());
    assert_eq!(cam.x, 1);
    assert_eq!(cam.y, 2);
    assert_eq!(cam.distance, 3);
    assert_eq!(cam.rotate_sensitivity, SCALE);
    assert_eq!(cam.zoom_sensitivity, 800_000);
    assert_eq!(cam.pan_sensitivity, SCALE);
    assert_eq!(cam.max_zoom_distance, 120_000_000);
    assert_eq!(cam.min_zoom_distance, 8_000_000);
    assert_eq!(cam.max_polar_angle, 3_130_000);
    assert_eq!(cam.min_polar_angle, 10_000);
}

#[test]
fn default_leaves_zoom_unbounded() {
    let cam = OrbitCamera::default();
    assert_eq!(cam.distance, 5_000_000);
    assert_eq!(cam.max_zoom_distance, -1_000_000);
    assert_eq!(cam.min_zoom_distance, -1_000_000);
    assert_eq!(cam.zoom_sensitivity, 800_000);
}

/// One frame of primary-button drag with delta (10, 0) at dt = 1 and
/// sensitivity 1 turns the horizontal angle to minus ten radians and keeps
/// the camera at its distance from the center.
#[test]
fn primary_drag_rotates_ten_radians() {
    let mut cam = OrbitCamera::new(0, 0, 12_500_000, origin());
    let mut tr = CameraTransform { translation: Vec3Fx { x: 0, y: 0, z: 12_500_000 } };
    let events = vec![MouseMotion { delta_x: 10_000_000, delta_y: 0 }];
    OrbitCameraPlugin::mouse_motion_system(SCALE, &events, &drag_primary(), &mut cam, &mut tr);
    assert_eq!(cam.x, -10_000_000);
    assert_eq!(cam.y, 10_000); // clamped up to the lower polar bound
    assert_eq!(cam.distance, 12_500_000);
    assert_eq!(cam.center, origin());
    // The recomputed position still sits one orbit radius from the center.
    let d = norm_from(tr.translation, cam.center);
    assert!((d - 12.5).abs() < 0.15, "distance from center was {d}");
    // And it matches the yaw/pitch placement formula.
    let (x, y) = (-10.0_f64, 0.01_f64);
    let expected = (
        -x.sin() * y.sin() * 12.5,
        y.cos() * 12.5,
        -x.cos() * y.sin() * 12.5,
    );
    assert!((tr.translation.x as f64 / 1e6 - expected.0).abs() < 0.1);
    assert!((tr.translation.y as f64 / 1e6 - expected.1).abs() < 0.1);
    assert!((tr.translation.z as f64 / 1e6 - expected.2).abs() < 0.1);
}

/// However hard the drag, the polar angle lands inside its bounds.
#[test]
fn polar_angle_is_clamped_both_ways() {
    let mut cam = OrbitCamera::new(0, 1_500_000, 12_500_000, origin());
    let mut tr = CameraTransform { translation: Vec3Fx { x: 0, y: 0, z: 12_500_000 } };
    // A huge downward drag pushes the polar angle to its upper bound.
    let events = vec![MouseMotion { delta_x: 0, delta_y: -1_000_000_000 }];
    OrbitCameraPlugin::mouse_motion_system(SCALE, &events, &drag_primary(), &mut cam, &mut tr);
    assert_eq!(cam.y, 3_130_000);
    // A huge upward drag pushes it to the lower bound.
    let events = vec![MouseMotion { delta_x: 0, delta_y: 1_000_000_000 }];
    OrbitCameraPlugin::mouse_motion_system(SCALE, &events, &drag_primary(), &mut cam, &mut tr);
    assert_eq!(cam.y, 10_000);
}

/// Rotating by a drag and then by its exact opposite restores both angles.
#[test]
fn rotate_round_trip_restores_angles() {
    let mut cam = OrbitCamera::new(250_000, 1_500_000, 12_500_000, origin());
    let mut tr = CameraTransform { translation: Vec3Fx { x: 0, y: 0, z: 12_500_000 } };
    let forward = vec![MouseMotion { delta_x: 500_000, delta_y: 300_000 }];
    let back = vec![MouseMotion { delta_x: -500_000, delta_y: -300_000 }];
    OrbitCameraPlugin::mouse_motion_system(SCALE, &forward, &drag_primary(), &mut cam, &mut tr);
    assert_ne!(cam.x, 250_000);
    OrbitCameraPlugin::mouse_motion_system(SCALE, &back, &drag_primary(), &mut cam, &mut tr);
    assert_eq!(cam.x, 250_000);
    assert_eq!(cam.y, 1_500_000);
}

/// A frame with no input leaves angles, center and distance untouched.
#[test]
fn idle_frame_changes_nothing() {
    let mut cam = OrbitCamera::new(250_000, 1_500_000, 12_500_000, origin());
    let mut tr = CameraTransform { translation: Vec3Fx { x: 0, y: 0, z: 12_500_000 } };
    let before = cam;
    let no_motion: Vec<MouseMotion> = Vec::new();
    let no_wheel: Vec<MouseWheel> = Vec::new();
    OrbitCameraPlugin::mouse_motion_system(SCALE, &no_motion, &idle(), &mut cam, &mut tr);
    OrbitCameraPlugin::mouse_zoom_system(&no_wheel, &mut cam, &mut tr);
    OrbitCameraPlugin::keyboard_controls_system(&idle(), &mut cam, &mut tr);
    assert_eq!(cam, before);
    assert_eq!(tr.translation, Vec3Fx { x: 0, y: 0, z: 12_500_000 });
}

/// Scrolling three lines at zoom sensitivity 0.8 scales a distance of ten
/// down to exactly 10 * 0.8^3 = 5.12.
#[test]
fn three_line_scroll_scales_by_the_cube() {
    let mut cam = OrbitCamera::default();
    cam.distance = 10_000_000;
    let mut tr = CameraTransform { translation: Vec3Fx { x: 0, y: 0, z: 10_000_000 } };
    let events = vec![MouseWheel { unit: MouseScrollUnit::Line, amount: 30 }];
    OrbitCameraPlugin::mouse_zoom_system(&events, &mut cam, &mut tr);
    assert_eq!(cam.distance, 5_120_000);
    assert_eq!(tr.translation, Vec3Fx { x: 0, y: 0, z: 5_120_000 });
}

/// The same scroll against the demo's bounds is clamped up to the lower one.
#[test]
fn scroll_is_clamped_to_the_lower_bound() {
    let mut cam = OrbitCamera::new(0, 0, 10_000_000, origin());
    let mut tr = CameraTransform { translation: Vec3Fx { x: 0, y: 0, z: 10_000_000 } };
    let events = vec![MouseWheel { unit: MouseScrollUnit::Line, amount: 30 }];
    OrbitCameraPlugin::mouse_zoom_system(&events, &mut cam, &mut tr);
    assert_eq!(cam.distance, 8_000_000);
}

/// Zooming out against a non-negative upper bound stops at that bound;
/// with a negative bound the distance keeps growing.
#[test]
fn zoom_out_clamps_only_when_bounded() {
    let mut cam = OrbitCamera::new(0, 0, 100_000_000, origin());
    let mut tr = CameraTransform { translation: Vec3Fx { x: 0, y: 0, z: 100_000_000 } };
    let events = vec![MouseWheel { unit: MouseScrollUnit::Line, amount: -30 }];
    OrbitCameraPlugin::mouse_zoom_system(&events, &mut cam, &mut tr);
    assert_eq!(cam.distance, 120_000_000);

    let mut cam = OrbitCamera::default();
    cam.distance = 100_000_000;
    let mut tr = CameraTransform { translation: Vec3Fx { x: 0, y: 0, z: 100_000_000 } };
    let events = vec![MouseWheel { unit: MouseScrollUnit::Line, amount: -30 }];
    OrbitCameraPlugin::mouse_zoom_system(&events, &mut cam, &mut tr);
    assert_eq!(cam.distance, 195_312_500);
}

/// Pixel scroll counts a tenth of a line per pixel: three hundred tenths of
/// a pixel are thirty pixels, worth three lines.
#[test]
fn pixel_scroll_normalizes_to_lines() {
    let mut cam = OrbitCamera::default();
    cam.distance = 10_000_000;
    let mut tr = CameraTransform { translation: Vec3Fx { x: 0, y: 0, z: 10_000_000 } };
    let events = vec![
        MouseWheel { unit: MouseScrollUnit::Pixel, amount: 200 },
        MouseWheel { unit: MouseScrollUnit::Line, amount: 10 },
    ];
    OrbitCameraPlugin::mouse_zoom_system(&events, &mut cam, &mut tr);
    assert_eq!(cam.distance, 5_120_000);
}

/// Holding the down key for a frame applies a zoom magnitude of -0.2, which
/// at sensitivity 0.8 moves the camera further out.
#[test]
fn keyboard_down_zooms_out() {
    let mut cam = OrbitCamera::new(0, 0, 10_000_000, origin());
    let mut tr = CameraTransform { translation: Vec3Fx { x: 0, y: 0, z: 10_000_000 } };
    let input = InputState { down_pressed: true, ..idle() };
    OrbitCameraPlugin::keyboard_controls_system(&input, &mut cam, &mut tr);
    assert!(cam.distance > 10_000_000, "distance was {}", cam.distance);
    assert!(cam.distance < 10_600_000, "distance was {}", cam.distance);
    let expected = 10.0 * 0.8_f64.powf(-0.2);
    let got = cam.distance as f64 / 1e6;
    assert!((got - expected).abs() < 0.01, "got {got}, expected {expected}");
}

/// Holding the up key zooms in by the same fifth of a line.
#[test]
fn keyboard_up_zooms_in() {
    let mut cam = OrbitCamera::new(0, 0, 10_000_000, origin());
    let mut tr = CameraTransform { translation: Vec3Fx { x: 0, y: 0, z: 10_000_000 } };
    let input = InputState { up_pressed: true, ..idle() };
    OrbitCameraPlugin::keyboard_controls_system(&input, &mut cam, &mut tr);
    assert!(cam.distance < 10_000_000, "distance was {}", cam.distance);
    let expected = 10.0 * 0.8_f64.powf(0.2);
    let got = cam.distance as f64 / 1e6;
    assert!((got - expected).abs() < 0.01, "got {got}, expected {expected}");
}

/// Shift with the primary button pans: the center and the camera move by the
/// same screen-plane vector and the angles stay.
#[test]
fn shift_primary_drag_pans() {
    let mut cam = OrbitCamera::new(250_000, 1_500_000, 12_500_000, origin());
    let mut tr = CameraTransform { translation: Vec3Fx { x: 0, y: 0, z: 12_500_000 } };
    let input = InputState { shift_pressed: true, left_pressed: true, ..idle() };
    let events = vec![MouseMotion { delta_x: 2_000_000, delta_y: 1_000_000 }];
    OrbitCameraPlugin::mouse_motion_system(SCALE, &events, &input, &mut cam, &mut tr);
    assert_eq!(cam.center, Vec3Fx { x: 2_000_000, y: 1_000_000, z: 0 });
    assert_eq!(tr.translation, Vec3Fx { x: 2_000_000, y: 1_000_000, z: 12_500_000 });
    assert_eq!(cam.x, 250_000);
    assert_eq!(cam.y, 1_500_000);
    assert_eq!(cam.distance, 12_500_000);
}

/// The secondary button pans on its own.
#[test]
fn secondary_drag_pans() {
    let mut cam = OrbitCamera::new(0, 1_500_000, 12_500_000, origin());
    let mut tr = CameraTransform { translation: Vec3Fx { x: 0, y: 0, z: 12_500_000 } };
    let input = InputState { right_pressed: true, ..idle() };
    let events = vec![MouseMotion { delta_x: -3_000_000, delta_y: 500_000 }];
    OrbitCameraPlugin::mouse_motion_system(SCALE, &events, &input, &mut cam, &mut tr);
    assert_eq!(cam.center, Vec3Fx { x: -3_000_000, y: 500_000, z: 0 });
    assert_eq!(tr.translation, Vec3Fx { x: -3_000_000, y: 500_000, z: 12_500_000 });
    assert_eq!(cam.x, 0);
}

/// Shift with the secondary button selects no mode: nothing moves.
#[test]
fn shift_secondary_drag_does_nothing() {
    let mut cam = OrbitCamera::new(0, 1_500_000, 12_500_000, origin());
    let mut tr = CameraTransform { translation: Vec3Fx { x: 0, y: 0, z: 12_500_000 } };
    let before = cam;
    let input = InputState { shift_pressed: true, right_pressed: true, ..idle() };
    let events = vec![MouseMotion { delta_x: 2_000_000, delta_y: 1_000_000 }];
    OrbitCameraPlugin::mouse_motion_system(SCALE, &events, &input, &mut cam, &mut tr);
    assert_eq!(cam, before);
    assert_eq!(tr.translation, Vec3Fx { x: 0, y: 0, z: 12_500_000 });
}

/// Motion events accumulate before one rotation is applied.
#[test]
fn motion_events_accumulate() {
    let mut cam = OrbitCamera::new(0, 1_500_000, 12_500_000, origin());
    let mut tr = CameraTransform { translation: Vec3Fx { x: 0, y: 0, z: 12_500_000 } };
    let events = vec![
        MouseMotion { delta_x: 1_000_000, delta_y: 0 },
        MouseMotion { delta_x: 2_000_000, delta_y: 0 },
        MouseMotion { delta_x: -500_000, delta_y: 0 },
    ];
    OrbitCameraPlugin::mouse_motion_system(SCALE, &events, &drag_primary(), &mut cam, &mut tr);
    assert_eq!(cam.x, -2_500_000);
}

/// The zoom factor itself: 0.8^3 exactly, one at rest, and its inverse
/// growth for negative scroll.
#[test]
fn zoom_factor_values() {
    assert_eq!(zoom_factor(800_000, 30), 512_000);
    assert_eq!(zoom_factor(800_000, 0), SCALE);
    assert_eq!(zoom_factor(800_000, -30), 1_953_125);
    assert!(zoom_factor(800_000, -2) > SCALE);
    assert!(zoom_factor(800_000, 2) < SCALE);
    let expected = 0.8_f64.powf(-0.2);
    let got = zoom_factor(800_000, -2) as f64 / 1e6;
    assert!((got - expected).abs() < 1e-3, "got {got}, expected {expected}");
}
