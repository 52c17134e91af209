use construction_sandbox::events::Events;
use construction_sandbox::input::{KeyCode, KeyboardInput, MouseMotion, Time, PIXEL};
use construction_sandbox::math::{CameraTransform, Vec3, DEGREE, FULL_TURN, LENGTH_UNIT};
use construction_sandbox::settings::{GameSettings, KeyboardBindings};
use construction_sandbox::state::NextState;
use construction_sandbox::universal_camera_controller::flying_camera::PITCH_LIMIT;
use construction_sandbox::universal_camera_controller::spherical_camera::{
    ORBIT_RADIUS, THETA_MAX, THETA_MIN,
};
use construction_sandbox::universal_camera_controller::{
    change_cam_mode, uni_cam_controller, uni_cam_ray_cast, uni_cam_watchdog, Bridge, Camera,
    CameraMode, CameraTarget, FlyingCamera, Ray3d, RayCaster, SphericalCamera, TargetPose,
    UniCamChangeStateEvent, UniCamController, UniCamPlugin, UniCamSettings, UniCamState,
    POSITION_RATE, ROTATION_RATE,
};

fn pose() -> CameraTransform {
    CameraTransform {
        translation: Vec3::new(2 * LENGTH_UNIT, 2 * LENGTH_UNIT, 2 * LENGTH_UNIT),
        forward: Vec3::new(0, 0, -LENGTH_UNIT),
        right: Vec3::new(LENGTH_UNIT, 0, 0),
        yaw: 30 * DEGREE,
        pitch: -10 * DEGREE,
    }
}

fn held(keys: &[KeyCode]) -> KeyboardInput {
    KeyboardInput { pressed: keys.to_vec(), just_pressed: Vec::new() }
}

fn struck(keys: &[KeyCode]) -> KeyboardInput {
    KeyboardInput { pressed: keys.to_vec(), just_pressed: keys.to_vec() }
}

fn bridge(keys: KeyboardInput, motion: Vec<MouseMotion>, delta_micros: u32) -> Bridge {
    Bridge {
        time: Time { delta_micros },
        settings: UniCamSettings::default(),
        evr_mouse_movement: motion,
        keys,
        game_settings: GameSettings::default(),
    }
}

fn motion(delta_x: i32, delta_y: i32) -> MouseMotion {
    MouseMotion { delta_x, delta_y }
}

const SECOND: u32 = 1_000_000;

#[test]
fn the_defaults_are_as_documented() {
    assert_eq!(UniCamSettings::default().movement_speed as i64, 7 * LENGTH_UNIT);
    assert_eq!(UniCamState::default(), UniCamState::Enabled);
    let flying = FlyingCamera::default();
    assert_eq!(flying.desired_position(), Vec3::zero());
    assert_eq!(flying.yaw(), 0);
    assert_eq!(flying.pitch(), 0);
    assert!(!flying.has_position());
    assert!(!flying.has_view());
    let orbiting = SphericalCamera::default();
    assert_eq!(orbiting.radius(), 3 * LENGTH_UNIT);
    assert_eq!(orbiting.theta(), 10 * DEGREE);
    assert_eq!(orbiting.phi(), 0);
    assert_eq!(POSITION_RATE, 20);
    assert_eq!(ROTATION_RATE, 30);
    assert_eq!(PITCH_LIMIT, 90 * DEGREE);
    assert_eq!(THETA_MIN, 10 * DEGREE);
    assert_eq!(THETA_MAX, 90 * DEGREE - DEGREE / 10);
    assert_eq!(ORBIT_RADIUS, 3 * LENGTH_UNIT);
}

#[test]
fn a_fresh_flying_camera_starts_from_the_pose_of_the_camera() {
    let mut flying = FlyingCamera::default();
    let target = flying.update(&pose(), &bridge(KeyboardInput::new(), Vec::new(), 16_667));
    assert_eq!(flying.desired_position(), pose().translation);
    assert_eq!(flying.yaw(), 30 * DEGREE);
    assert_eq!(flying.pitch(), -10 * DEGREE);
    assert!(flying.has_position());
    assert!(flying.has_view());
    assert_eq!(
        target,
        CameraTarget {
            pose: TargetPose::FreeFly {
                position: pose().translation,
                yaw: 30 * DEGREE,
                pitch: -10 * DEGREE,
            },
            position_rate: 20,
            rotation_rate: 30,
        }
    );
}

#[test]
fn a_desired_position_at_the_origin_persists() {
    let mut below = pose();
    below.translation = Vec3::new(0, -7 * LENGTH_UNIT, 0);
    let mut flying = FlyingCamera::default();
    // One second of rising from seven units below brings it to the origin.
    flying.update_position(&below, &bridge(held(&[KeyCode::Space]), Vec::new(), SECOND));
    assert_eq!(flying.desired_position(), Vec3::zero());
    assert!(flying.has_position());
    assert!(!flying.has_view());

    // The camera has not caught up; the desired position stays its own.
    let mut lagging = pose();
    lagging.translation = Vec3::new(LENGTH_UNIT, 0, 0);
    flying.update_position(&lagging, &bridge(KeyboardInput::new(), Vec::new(), 16_667));
    assert_eq!(flying.desired_position(), Vec3::zero());
    let target = flying.update(&lagging, &bridge(held(&[KeyCode::KeyD]), Vec::new(), SECOND));
    assert_eq!(flying.desired_position(), Vec3::new(7 * LENGTH_UNIT, 0, 0));
    assert_eq!(
        target.pose,
        TargetPose::FreeFly {
            position: Vec3::new(7 * LENGTH_UNIT, 0, 0),
            yaw: 30 * DEGREE,
            pitch: -10 * DEGREE,
        }
    );
}

#[test]
fn a_view_straight_ahead_persists() {
    let mut camera = pose();
    camera.yaw = 85_944_000;
    camera.pitch = 57_296_000;
    let mut flying = FlyingCamera::default();
    // One pixel each way brings heading and elevation to exactly zero.
    flying.update_view(&camera, &bridge(KeyboardInput::new(), vec![motion(PIXEL, PIXEL)], 16_667));
    assert_eq!(flying.yaw(), 0);
    assert_eq!(flying.pitch(), 0);
    assert!(flying.has_view());
    assert!(!flying.has_position());

    // They are the behavior's own: the camera's are not taken again.
    let mut elsewhere = pose();
    elsewhere.yaw = 200 * DEGREE;
    elsewhere.pitch = 50 * DEGREE;
    flying.update_view(&elsewhere, &bridge(KeyboardInput::new(), Vec::new(), 16_667));
    assert_eq!(flying.yaw(), 0);
    assert_eq!(flying.pitch(), 0);
    flying.update_view(&elsewhere, &bridge(KeyboardInput::new(), vec![motion(-PIXEL, 0)], 16_667));
    assert_eq!(flying.yaw(), 85_944_000);
    assert_eq!(flying.pitch(), 0);
}

#[test]
fn a_new_behavior_brings_the_pose_within_its_limits() {
    let mut camera = pose();
    camera.yaw = -90 * DEGREE;
    camera.pitch = 120 * DEGREE;
    let mut flying = FlyingCamera::default();
    flying.update_view(&camera, &bridge(KeyboardInput::new(), Vec::new(), 16_667));
    assert_eq!(flying.yaw(), 270 * DEGREE);
    assert_eq!(flying.pitch(), PITCH_LIMIT);
}

#[test]
fn the_movement_keys_push_the_desired_position() {
    let seven = 7 * LENGTH_UNIT;
    let start = pose().translation;
    let cases: [(KeyCode, Vec3); 6] = [
        (KeyCode::KeyW, Vec3::new(start.x, start.y, start.z - seven)),
        (KeyCode::KeyS, Vec3::new(start.x, start.y, start.z + seven)),
        (KeyCode::KeyD, Vec3::new(start.x + seven, start.y, start.z)),
        (KeyCode::KeyA, Vec3::new(start.x - seven, start.y, start.z)),
        (KeyCode::Space, Vec3::new(start.x, start.y + seven, start.z)),
        (KeyCode::ControlLeft, Vec3::new(start.x, start.y - seven, start.z)),
    ];
    for (key, expected) in cases {
        let mut flying = FlyingCamera::default();
        flying.update_position(&pose(), &bridge(held(&[key]), Vec::new(), SECOND));
        assert_eq!(flying.desired_position(), expected);
        assert_eq!(flying.yaw(), 0);
        assert_eq!(flying.pitch(), 0);
    }
}

#[test]
fn movement_scales_with_speed_and_time() {
    let mut flying = FlyingCamera::default();
    // A sixtieth of a second at seven units a second: 116 669 length units.
    flying.update_position(&pose(), &bridge(held(&[KeyCode::Space]), Vec::new(), 16_667));
    assert_eq!(flying.desired_position().y, 2 * LENGTH_UNIT + 116_669);

    let mut slow = bridge(held(&[KeyCode::KeyD]), Vec::new(), SECOND / 2);
    slow.settings.movement_speed = 3;
    let mut flying = FlyingCamera::default();
    flying.update_position(&pose(), &slow);
    // Three units in a second make one in half a second; along a direction of
    // the unit's length that is one unit.
    assert_eq!(flying.desired_position().x, 2 * LENGTH_UNIT + 1);
}

#[test]
fn movement_follows_the_direction_of_the_camera() {
    let mut camera = pose();
    camera.forward = Vec3::new(600_000, 0, -800_000);
    camera.right = Vec3::new(800_000, 0, 600_000);
    let mut flying = FlyingCamera::default();
    flying.update_position(&camera, &bridge(held(&[KeyCode::KeyW, KeyCode::KeyD]), Vec::new(), SECOND));
    assert_eq!(
        flying.desired_position(),
        Vec3::new(2_000_000 + 4_200_000 + 5_600_000, 2_000_000, 2_000_000 - 5_600_000 + 4_200_000)
    );
}

#[test]
fn opposed_keys_cancel() {
    let mut flying = FlyingCamera::default();
    let all = [
        KeyCode::KeyW,
        KeyCode::KeyS,
        KeyCode::KeyA,
        KeyCode::KeyD,
        KeyCode::Space,
        KeyCode::ControlLeft,
    ];
    flying.update_position(&pose(), &bridge(held(&all), Vec::new(), SECOND));
    assert_eq!(flying.desired_position(), pose().translation);
}

#[test]
fn movement_goes_by_the_bindings() {
    let mut input = bridge(held(&[KeyCode::Other(17)]), Vec::new(), SECOND);
    input.game_settings.keyboard = KeyboardBindings {
        jump: KeyCode::Other(17),
        ..KeyboardBindings::default()
    };
    let mut flying = FlyingCamera::default();
    flying.update_position(&pose(), &input);
    assert_eq!(flying.desired_position().y, 9 * LENGTH_UNIT);

    let mut flying = FlyingCamera::default();
    input.keys = held(&[KeyCode::Space]);
    flying.update_position(&pose(), &input);
    assert_eq!(flying.desired_position().y, 2 * LENGTH_UNIT);
}

#[test]
fn the_desired_position_accumulates() {
    let mut flying = FlyingCamera::default();
    let forward = bridge(held(&[KeyCode::KeyW]), Vec::new(), SECOND);
    flying.update_position(&pose(), &forward);
    // The camera lags behind; the desired position goes on from where it was.
    flying.update_position(&pose(), &forward);
    assert_eq!(flying.desired_position().z, 2 * LENGTH_UNIT - 14 * LENGTH_UNIT);
}

#[test]
fn the_desired_position_stops_at_the_limits() {
    let mut camera = pose();
    camera.translation = Vec3::new(0, i64::MAX - 5, 0);
    let mut flying = FlyingCamera::default();
    flying.update_position(&camera, &bridge(held(&[KeyCode::Space]), Vec::new(), SECOND));
    assert_eq!(flying.desired_position().y, i64::MAX);
}

#[test]
fn the_pointer_turns_the_view() {
    let mut flying = FlyingCamera::default();
    let input = bridge(KeyboardInput::new(), vec![motion(10 * PIXEL, 0), motion(-4 * PIXEL, 2 * PIXEL)], 16_667);
    flying.update_view(&pose(), &input);
    let sensitivity = GameSettings::default().mouse;
    assert_eq!(sensitivity.sensitivity_horizontal, 85_944);
    assert_eq!(sensitivity.sensitivity_vertical, 57_296);
    assert_eq!(flying.yaw(), 30 * DEGREE - 85_944 * 6_000);
    assert_eq!(flying.pitch(), -10 * DEGREE - 57_296 * 2_000);
    assert_eq!(flying.desired_position(), Vec3::zero());

    // From now on the behavior goes by its own angles, not the camera's.
    let mut elsewhere = pose();
    elsewhere.yaw = 200 * DEGREE;
    elsewhere.pitch = 80 * DEGREE;
    flying.update_view(&elsewhere, &bridge(KeyboardInput::new(), vec![motion(-6 * PIXEL, -2 * PIXEL)], 16_667));
    assert_eq!(flying.yaw(), 30 * DEGREE);
    assert_eq!(flying.pitch(), -10 * DEGREE);
}

#[test]
fn the_pitch_never_passes_a_right_angle() {
    let extremes = [i32::MAX, i32::MIN, 2_000_000 * PIXEL, -2_000_000 * PIXEL, 1, -1, 0];
    let mut flying = FlyingCamera::default();
    for delta_y in extremes {
        for count in [1usize, 3, 1000] {
            flying.update_view(&pose(), &bridge(KeyboardInput::new(), vec![motion(0, delta_y); count], 16_667));
            assert!(flying.pitch() >= -PITCH_LIMIT);
            assert!(flying.pitch() <= PITCH_LIMIT);
        }
    }
    flying.update_view(&pose(), &bridge(KeyboardInput::new(), vec![motion(0, i32::MIN)], 16_667));
    assert_eq!(flying.pitch(), PITCH_LIMIT);
    flying.update_view(&pose(), &bridge(KeyboardInput::new(), vec![motion(0, i32::MAX)], 16_667));
    assert_eq!(flying.pitch(), -PITCH_LIMIT);

    let mut steep = pose();
    steep.pitch = i64::MAX;
    let mut fresh = FlyingCamera::default();
    fresh.update_view(&steep, &bridge(KeyboardInput::new(), Vec::new(), 16_667));
    assert_eq!(fresh.pitch(), PITCH_LIMIT);
}

#[test]
fn the_yaw_goes_round() {
    let mut flying = FlyingCamera::default();
    let mut camera = pose();
    camera.yaw = 0;
    camera.pitch = 5 * DEGREE;
    // 85 944 angle units for each thousandth of a pixel: a pixel turns by
    // 0.085944 degrees.
    flying.update_view(&camera, &bridge(KeyboardInput::new(), vec![motion(PIXEL, 0)], 16_667));
    assert_eq!(flying.yaw(), FULL_TURN - 85_944_000);
    flying.update_view(&camera, &bridge(KeyboardInput::new(), vec![motion(-2 * PIXEL, 0)], 16_667));
    assert_eq!(flying.yaw(), 85_944_000);
    for delta_x in [i32::MAX, i32::MIN] {
        flying.update_view(&camera, &bridge(KeyboardInput::new(), vec![motion(delta_x, 0); 100], 16_667));
        assert!(flying.yaw() >= 0 && flying.yaw() < FULL_TURN);
    }
}

#[test]
fn the_orbit_keeps_theta_within_its_limits() {
    let mut orbiting = SphericalCamera::default();
    let target = orbiting.update(&bridge(KeyboardInput::new(), Vec::new(), 16_667));
    assert_eq!(orbiting.theta(), THETA_MIN);
    assert_eq!(orbiting.phi(), 0);
    assert_eq!(
        target,
        CameraTarget {
            pose: TargetPose::Orbit { radius: ORBIT_RADIUS, theta: THETA_MIN, phi: 0 },
            position_rate: 20,
            rotation_rate: 30,
        }
    );
    assert_eq!((target.position_rate, target.rotation_rate), (POSITION_RATE, ROTATION_RATE));

    orbiting.update(&bridge(KeyboardInput::new(), vec![motion(0, 100 * PIXEL)], 16_667));
    assert_eq!(orbiting.theta(), THETA_MIN + 57_296 * 100_000);

    for delta_y in [i32::MAX, i32::MIN, 1, -1, 5_000 * PIXEL] {
        for count in [1usize, 2, 500] {
            orbiting.update(&bridge(KeyboardInput::new(), vec![motion(7, delta_y); count], 16_667));
            assert!(orbiting.theta() >= THETA_MIN);
            assert!(orbiting.theta() <= THETA_MAX);
            assert!(orbiting.phi() >= 0 && orbiting.phi() < FULL_TURN);
            assert_eq!(orbiting.radius(), ORBIT_RADIUS);
        }
    }
    orbiting.update(&bridge(KeyboardInput::new(), vec![motion(0, i32::MAX)], 16_667));
    assert_eq!(orbiting.theta(), THETA_MAX);
    orbiting.update(&bridge(KeyboardInput::new(), vec![motion(0, i32::MIN)], 16_667));
    assert_eq!(orbiting.theta(), THETA_MIN);
}

#[test]
fn the_orbit_turns_its_azimuth_against_the_pointer() {
    let mut orbiting = SphericalCamera::default();
    orbiting.update(&bridge(KeyboardInput::new(), vec![motion(PIXEL, 0)], 16_667));
    assert_eq!(orbiting.phi(), FULL_TURN - 85_944_000);
    orbiting.update(&bridge(KeyboardInput::new(), vec![motion(-3 * PIXEL, 0)], 16_667));
    assert_eq!(orbiting.phi(), 2 * 85_944_000);
}

#[test]
fn the_controller_hands_the_input_to_the_active_behavior() {
    let mut controller = UniCamController::from(FlyingCamera::default());
    let input = bridge(held(&[KeyCode::KeyW]), vec![motion(PIXEL, PIXEL)], SECOND);
    let target = controller.update(&pose(), &input);
    let mut flying = FlyingCamera::default();
    let expected = flying.update(&pose(), &input);
    assert_eq!(target, expected);
    assert_eq!(controller.mode(), CameraMode::FreeFly(flying));

    let mut controller = UniCamController::from(SphericalCamera::default());
    let target = controller.update(&pose(), &input);
    let mut orbiting = SphericalCamera::default();
    let expected = orbiting.update(&input);
    assert_eq!(target, expected);
    assert_eq!(controller.mode(), CameraMode::Orbit(orbiting));
}

#[test]
fn swapping_resets_the_behavior_and_leaves_the_pose() {
    let mut camera = Camera { transform: pose(), controller: UniCamController::from(FlyingCamera::default()) };
    uni_cam_controller(&mut camera, &bridge(held(&[KeyCode::KeyW]), vec![motion(PIXEL, PIXEL)], SECOND));
    assert_ne!(camera.controller.mode(), CameraMode::FreeFly(FlyingCamera::default()));
    assert_eq!(camera.transform, pose());

    change_cam_mode(&mut camera, &struck(&[KeyCode::F3]));
    assert_eq!(camera.controller.mode(), CameraMode::Orbit(SphericalCamera::default()));
    assert_eq!(camera.transform, pose());

    change_cam_mode(&mut camera, &struck(&[KeyCode::F1]));
    assert_eq!(camera.controller.mode(), CameraMode::FreeFly(FlyingCamera::default()));
    assert_eq!(camera.transform, pose());

    // A held key is no press, and other keys select nothing.
    uni_cam_controller(&mut camera, &bridge(KeyboardInput::new(), vec![motion(PIXEL, PIXEL)], SECOND));
    let before = camera.controller.mode();
    change_cam_mode(&mut camera, &held(&[KeyCode::F1, KeyCode::F3]));
    change_cam_mode(&mut camera, &struck(&[KeyCode::KeyB, KeyCode::Escape]));
    assert_eq!(camera.controller.mode(), before);

    // Both keys at once: the orbit is selected last.
    change_cam_mode(&mut camera, &struck(&[KeyCode::F1, KeyCode::F3]));
    assert_eq!(camera.controller.mode(), CameraMode::Orbit(SphericalCamera::default()));
}

#[test]
fn a_swap_to_free_flight_keeps_the_camera_where_it_is() {
    let mut plugin = UniCamPlugin::build(pose());
    let settings = GameSettings::default();
    plugin.update(Time { delta_micros: 16_667 }, vec![motion(40 * PIXEL, 0)], struck(&[KeyCode::F3]), &settings);
    let target = plugin
        .update(Time { delta_micros: 16_667 }, Vec::new(), struck(&[KeyCode::F1]), &settings)
        .unwrap();
    assert_eq!(plugin.camera.transform, pose());
    assert_eq!(
        target.pose,
        TargetPose::FreeFly {
            position: pose().translation,
            yaw: pose().yaw,
            pitch: pose().pitch,
        }
    );
}

#[test]
fn the_watchdog_takes_the_last_request() {
    let mut events = Events::new();
    let mut next = NextState::Unchanged;
    uni_cam_watchdog(&mut events, &mut next);
    assert_eq!(next, NextState::Unchanged);
    events.send(UniCamChangeStateEvent(UniCamState::Disabled));
    events.send(UniCamChangeStateEvent(UniCamState::Enabled));
    events.send(UniCamChangeStateEvent(UniCamState::Disabled));
    uni_cam_watchdog(&mut events, &mut next);
    assert_eq!(next, NextState::Pending(UniCamState::Disabled));
    assert!(events.is_empty());
    uni_cam_watchdog(&mut events, &mut next);
    assert_eq!(next, NextState::Pending(UniCamState::Disabled));
}

#[test]
fn a_disabled_controller_does_nothing() {
    let mut plugin = UniCamPlugin::build(pose());
    let settings = GameSettings::default();
    assert_eq!(plugin.state, UniCamState::Enabled);
    assert_eq!(plugin.settings, UniCamSettings::default());
    assert_eq!(plugin.camera.controller.mode(), CameraMode::FreeFly(FlyingCamera::default()));

    plugin.events.send(UniCamChangeStateEvent(UniCamState::Disabled));
    let target = plugin.update(Time { delta_micros: 16_667 }, Vec::new(), KeyboardInput::new(), &settings);
    // The request waits for the next tick; this one still runs.
    assert!(target.is_some());
    assert_eq!(plugin.state, UniCamState::Enabled);
    assert_eq!(plugin.next_state, NextState::Pending(UniCamState::Disabled));

    let before = plugin.camera.controller.mode();
    let target = plugin.update(
        Time { delta_micros: 16_667 },
        vec![motion(50 * PIXEL, 50 * PIXEL)],
        struck(&[KeyCode::F3, KeyCode::KeyW]),
        &settings,
    );
    assert_eq!(target, None);
    assert_eq!(plugin.state, UniCamState::Disabled);
    assert_eq!(plugin.camera.controller.mode(), before);
    assert_eq!(plugin.camera.transform, pose());

    plugin.events.send(UniCamChangeStateEvent(UniCamState::Enabled));
    assert_eq!(plugin.update(Time { delta_micros: 16_667 }, Vec::new(), KeyboardInput::new(), &settings), None);
    assert!(plugin
        .update(Time { delta_micros: 16_667 }, Vec::new(), KeyboardInput::new(), &settings)
        .is_some());
    assert_eq!(plugin.state, UniCamState::Enabled);
}

#[test]
fn the_ray_runs_along_the_line_of_sight_of_the_one_camera() {
    assert_eq!(RayCaster::default(), RayCaster(None));
    assert_eq!(uni_cam_ray_cast(&Vec::new()), None);
    assert_eq!(
        uni_cam_ray_cast(&vec![pose()]),
        Some(Ray3d { origin: pose().translation, direction: pose().forward })
    );
    assert_eq!(uni_cam_ray_cast(&vec![pose(), pose()]), None);
}

#[test]
fn the_camera_approaches_a_position_without_turning() {
    let mut camera = Camera { transform: pose(), controller: UniCamController::from(FlyingCamera::default()) };
    let desired = Vec3::new(4 * LENGTH_UNIT, 2 * LENGTH_UNIT, -2 * LENGTH_UNIT);
    camera.approach(desired, 250_000);
    assert_eq!(
        camera.transform,
        CameraTransform {
            translation: Vec3::new(2_500_000, 2 * LENGTH_UNIT, LENGTH_UNIT),
            ..pose()
        }
    );
    assert_eq!(camera.controller.mode(), CameraMode::FreeFly(FlyingCamera::default()));
    camera.approach(desired, 1_000_000);
    assert_eq!(camera.transform.translation, desired);
    camera.approach(desired, 123_456);
    assert_eq!(camera.transform.translation, desired);
}
