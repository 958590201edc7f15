use platformer_core::cursor::{CursorMode, PointerAction};
use platformer_core::fixed::SCALE;
use platformer_core::frame::{tick, FrameInput, GameWorld, LocomotionLaw};
use platformer_core::grounded::{
    ContactEvent, ContactKind, EventDrivenTracker, GroundedProvider, SweepDerivedTracker,
};
use platformer_core::intent::KeySet;
use platformer_core::orientation::MouseDelta;
use platformer_core::player::{CameraArm, MouseSettings, PhysicsConfig, PlayerState};
use platformer_core::progression::{GameState, ProgressionPhase, TransitionAction};
use platformer_core::vec3::{Vec3Fx, YawRot};

const PLAYER_ID: u64 = 1;
const SENSOR_ID: u64 = 2;
const GOAL_ID: u64 = 42;
const DT_60HZ: i64 = 16_667;

fn config() -> PhysicsConfig {
    PhysicsConfig {
        speed: 20_000_000,
        ground_friction: 900_000,
        air_friction: SCALE,
        jump_impulse: 75_000_000,
        gravity: 1_000_000,
        float_height: 2_200_000,
    }
}

fn world(law: LocomotionLaw) -> GameWorld<EventDrivenTracker> {
    GameWorld {
        player: PlayerState::at_spawn(),
        camera: CameraArm::level(),
        cursor: CursorMode::Released,
        game: GameState::new(),
        tracker: EventDrivenTracker::new(SENSOR_ID),
        settings: MouseSettings { sensitivity: 500_000 },
        config: config(),
        law,
        player_id: PLAYER_ID,
    }
}

fn quiet_input() -> FrameInput {
    FrameInput {
        keys: KeySet { forward: false, back: false, left: false, right: false, jump: false },
        interact_pressed: false,
        cancel_pressed: false,
        mouse: Vec::new(),
        contacts: Vec::new(),
        sweep_hit: false,
        dt: DT_60HZ,
        rot: YawRot::identity(),
        goals: vec![GOAL_ID],
    }
}

#[test]
fn velocity_target_tick_emits_walk_command() {
    let mut w = world(LocomotionLaw::VelocityTarget);
    let mut input = quiet_input();
    input.keys.forward = true;
    let out = tick(&mut w, &input);
    let cmd = out.walk.expect("the velocity-target law emits a walk command");
    assert_eq!(cmd.desired_velocity, Vec3Fx { x: 0, y: 0, z: -20_000_000 });
    assert_eq!(cmd.float_height, 2_200_000);
    assert_eq!(out.displacement, None);
    assert!(out.actions.is_empty());
}

#[test]
fn explicit_tick_emits_displacement() {
    let mut w = world(LocomotionLaw::ExplicitIntegration);
    let mut input = quiet_input();
    input.keys.jump = true;
    // A contact start on the ground sensor is drained before locomotion
    // reads the grounded flag, so the jump fires this same frame.
    input.contacts =
        vec![ContactEvent { kind: ContactKind::Started, first: SENSOR_ID, second: 9 }];
    let out = tick(&mut w, &input);
    assert!(w.tracker.is_grounded());
    assert_eq!(out.displacement, Some(Vec3Fx { x: 0, y: 1_108_355, z: 0 }));
    assert_eq!(w.player.velocity, Vec3Fx { x: 0, y: 1_108_355, z: 0 });
    assert_eq!(out.walk, None);
}

#[test]
fn mouse_deltas_ignored_until_grab_click_frame() {
    let mut w = world(LocomotionLaw::VelocityTarget);
    let mut input = quiet_input();
    input.mouse = vec![MouseDelta { dx: 10, dy: -4 }];
    let out = tick(&mut w, &input);
    assert_eq!(w.player.yaw, 0);
    assert_eq!(w.camera.pitch, 0);
    assert_eq!(out.pointer, None);

    // The capture toggle resolves before orientation, so the very frame
    // of the grab click already turns the camera.
    input.interact_pressed = true;
    let out = tick(&mut w, &input);
    assert_eq!(out.pointer, Some(PointerAction::LockAndHide));
    assert_eq!(w.cursor, CursorMode::Grabbed);
    assert_eq!(w.player.yaw, -83_330);
    assert_eq!(w.camera.pitch, 33_332);
}

#[test]
fn goal_contact_tick_runs_full_transition() {
    let mut w = world(LocomotionLaw::VelocityTarget);
    w.player.position = Vec3Fx { x: 3_000_000, y: 1_000_000, z: 0 };
    let mut input = quiet_input();
    input.contacts =
        vec![ContactEvent { kind: ContactKind::Started, first: GOAL_ID, second: PLAYER_ID }];
    let out = tick(&mut w, &input);
    assert_eq!(w.game.level, 1);
    assert_eq!(w.game.phase, ProgressionPhase::Playing);
    assert_eq!(w.player.position, Vec3Fx { x: 0, y: 5_000_000, z: 0 });
    assert_eq!(w.player.yaw, 0);
    assert_eq!(
        out.actions,
        vec![
            TransitionAction::PauseClock,
            TransitionAction::DespawnLevelGeometry,
            TransitionAction::LoadLevel(1),
            TransitionAction::ResetPlayer,
            TransitionAction::ResumeClock,
        ]
    );
}

#[test]
fn sweep_derived_world_grounds_from_sweep() {
    let mut w = GameWorld {
        player: PlayerState::at_spawn(),
        camera: CameraArm::level(),
        cursor: CursorMode::Released,
        game: GameState::new(),
        tracker: SweepDerivedTracker::new(),
        settings: MouseSettings { sensitivity: 500_000 },
        config: config(),
        law: LocomotionLaw::ExplicitIntegration,
        player_id: PLAYER_ID,
    };
    let mut input = quiet_input();
    input.keys.jump = true;
    input.sweep_hit = true;
    let out = tick(&mut w, &input);
    assert_eq!(out.displacement, Some(Vec3Fx { x: 0, y: 1_108_355, z: 0 }));
}
