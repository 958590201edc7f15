use platformer_core::fixed::SCALE;
use platformer_core::intent::KeySet;
use platformer_core::locomotion::{explicit_integration_update, velocity_target_update};
use platformer_core::player::{PhysicsConfig, PlayerState, FALL_RESET_Y};
use platformer_core::vec3::{Vec3Fx, YawRot};

const DT_60HZ: i64 = 16_667;

fn no_keys() -> KeySet {
    KeySet { forward: false, back: false, left: false, right: false, jump: false }
}

fn forward_key() -> KeySet {
    KeySet { forward: true, back: false, left: false, right: false, jump: false }
}

fn jump_key() -> KeySet {
    KeySet { forward: false, back: false, left: false, right: false, jump: true }
}

fn config() -> PhysicsConfig {
    PhysicsConfig {
        speed: 20_000_000,
        ground_friction: 900_000,
        air_friction: SCALE,
        jump_impulse: 75_000_000,
        gravity: 1_000_000,
        float_height: 2_200_000,
    }
}

#[test]
fn jump_then_friction_then_gravity_exact_scalar() {
    // grounded, jump pressed, ground friction 0.9, gravity 1.0, dt 1/60:
    // vertical velocity 75 * dt = 1.250025, scaled by 0.9 to 1.125022,
    // reduced by gravity * dt to 1.108355.
    let mut player = PlayerState::at_spawn();
    let keys = jump_key();
    let disp = explicit_integration_update(
        &mut player,
        &keys,
        YawRot::identity(),
        true,
        &config(),
        DT_60HZ,
    );
    assert_eq!(player.velocity, Vec3Fx { x: 0, y: 1_108_355, z: 0 });
    assert_eq!(disp, player.velocity);
    let as_float = player.velocity.y as f64 / SCALE as f64;
    assert!((as_float - 1.108).abs() < 0.001);
}

#[test]
fn jump_impulse_needs_grounded_and_key() {
    let cfg = config();
    // Grounded but no jump key: vertical velocity only feels gravity.
    let mut player = PlayerState::at_spawn();
    let keys = no_keys();
    explicit_integration_update(&mut player, &keys, YawRot::identity(), true, &cfg, DT_60HZ);
    assert_eq!(player.velocity.y, -16_667);

    // Jump key but airborne: no impulse either (air friction 1.0 here).
    let mut player = PlayerState::at_spawn();
    let keys = jump_key();
    explicit_integration_update(&mut player, &keys, YawRot::identity(), false, &cfg, DT_60HZ);
    assert_eq!(player.velocity.y, -16_667);

    // Grounded and jump key: the impulse replaces the vertical velocity.
    let mut player = PlayerState::at_spawn();
    let keys = jump_key();
    explicit_integration_update(&mut player, &keys, YawRot::identity(), true, &cfg, DT_60HZ);
    assert_eq!(player.velocity.y, 1_108_355);
}

#[test]
fn friction_factor_follows_grounded_flag() {
    let cfg = PhysicsConfig {
        speed: 0,
        ground_friction: 500_000,
        air_friction: 250_000,
        jump_impulse: 0,
        gravity: 0,
        float_height: 0,
    };
    let start = Vec3Fx { x: 1_000_000, y: 2_000_000, z: -400_000 };
    let keys = no_keys();

    let mut player = PlayerState::at_spawn();
    player.velocity = start;
    explicit_integration_update(&mut player, &keys, YawRot::identity(), true, &cfg, DT_60HZ);
    assert_eq!(player.velocity, Vec3Fx { x: 500_000, y: 1_000_000, z: -200_000 });

    let mut player = PlayerState::at_spawn();
    player.velocity = start;
    explicit_integration_update(&mut player, &keys, YawRot::identity(), false, &cfg, DT_60HZ);
    assert_eq!(player.velocity, Vec3Fx { x: 250_000, y: 500_000, z: -100_000 });
}

#[test]
fn friction_applies_regardless_of_intent() {
    let cfg = PhysicsConfig {
        speed: 2_000_000,
        ground_friction: 500_000,
        air_friction: 250_000,
        jump_impulse: 0,
        gravity: 0,
        float_height: 0,
    };
    // Forward intent accumulates 2 * dt = 0.033334 into -z, then the
    // whole vector, intent included, is halved by ground friction.
    let mut player = PlayerState::at_spawn();
    player.velocity = Vec3Fx { x: 600_000, y: 0, z: 0 };
    let keys = forward_key();
    explicit_integration_update(&mut player, &keys, YawRot::identity(), true, &cfg, DT_60HZ);
    assert_eq!(player.velocity.x, 300_000);
    assert_eq!(player.velocity.z, -16_667);
}

#[test]
fn fall_reset_returns_to_spawn_without_residual_velocity() {
    let mut player = PlayerState::at_spawn();
    player.position = Vec3Fx { x: 9_000_000, y: -21_000_000, z: -3_000_000 };
    player.yaw = 777_000;
    player.velocity = Vec3Fx { x: 5_000_000, y: -8_000_000, z: 2_000_000 };
    assert!(player.position.y < FALL_RESET_Y);
    let keys = forward_key();
    let disp = explicit_integration_update(
        &mut player,
        &keys,
        YawRot::identity(),
        true,
        &config(),
        DT_60HZ,
    );
    assert_eq!(player.position, Vec3Fx { x: 0, y: 5_000_000, z: 0 });
    assert_eq!(player.yaw, 0);
    assert_eq!(player.velocity, Vec3Fx { x: 0, y: 0, z: 0 });
    assert_eq!(disp, Vec3Fx { x: 0, y: 0, z: 0 });
}

#[test]
fn velocity_target_declares_speed_along_intent() {
    let mut player = PlayerState::at_spawn();
    let keys = forward_key();
    let cmd = velocity_target_update(&mut player, &keys, YawRot::identity(), &config());
    assert_eq!(cmd.desired_velocity, Vec3Fx { x: 0, y: 0, z: -20_000_000 });
    assert_eq!(cmd.float_height, 2_200_000);
    assert_eq!(cmd.jump, None);
    // The law moves nothing itself.
    assert_eq!(player.position, PlayerState::at_spawn().position);
}

#[test]
fn velocity_target_jump_follows_key_alone() {
    let mut player = PlayerState::at_spawn();
    let keys = jump_key();
    let cmd = velocity_target_update(&mut player, &keys, YawRot::identity(), &config());
    assert_eq!(cmd.jump, Some(75_000_000));
}

#[test]
fn velocity_target_fall_reset_requests_no_motion() {
    let mut player = PlayerState::at_spawn();
    player.position = Vec3Fx { x: 1_000_000, y: -20_000_001, z: 0 };
    player.yaw = -5;
    let keys = forward_key();
    let cmd = velocity_target_update(&mut player, &keys, YawRot::identity(), &config());
    assert_eq!(player.position, Vec3Fx { x: 0, y: 5_000_000, z: 0 });
    assert_eq!(player.yaw, 0);
    assert_eq!(cmd.desired_velocity, Vec3Fx { x: 0, y: 0, z: 0 });
}

#[test]
fn intent_rotates_with_yaw() {
    // A quarter turn: cos 0, sin 1. Forward intent lands on -x.
    let rot = YawRot::new(0, SCALE).expect("on the unit circle");
    let mut player = PlayerState::at_spawn();
    let keys = forward_key();
    let cmd = velocity_target_update(&mut player, &keys, rot, &config());
    assert_eq!(cmd.desired_velocity, Vec3Fx { x: -20_000_000, y: 0, z: 0 });
}
