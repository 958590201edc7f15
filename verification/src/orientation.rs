//! Orientation controller: mouse deltas into body yaw and camera pitch.
//!
//! Each mouse-delta sample turns the player body about the vertical axis
//! (yaw, cumulative and unbounded) and tilts the camera arm (pitch).  The
//! pitch is re-derived from a clamped scalar on every sample, so it can
//! never drift outside its range.  While the cursor is not grabbed, the
//! frame's samples are discarded, not buffered.

use vstd::prelude::*;

verus! {

use crate::cursor::CursorMode;
use crate::fixed::{
    clamp_fx, mul_small, sat_add, scale_mul, spec_abs, spec_clamp, spec_mul_scale, spec_sat_add,
};
use crate::player::{
    valid_dt, CameraArm, MouseSettings, PlayerState, MOUSE_DELTA_MAX, PITCH_MAX, PITCH_MIN,
    TUNABLE_MAX,
};

/// One mouse-motion sample: horizontal and vertical counts.
#[derive(Clone, Copy, PartialEq, Eq, Structural, Debug)]
pub struct MouseDelta {
    pub dx: i64,
    pub dy: i64,
}

/// A sample the controller accepts: both counts bounded.
pub open spec fn valid_delta(d: MouseDelta) -> bool {
    spec_abs(d.dx as int) <= MOUSE_DELTA_MAX as int && spec_abs(d.dy as int)
        <= MOUSE_DELTA_MAX as int
}

/// Micro-radians per mouse count for a sensitivity and a frame time.
pub open spec fn spec_step_rate(sensitivity: int, dt: int) -> int {
    spec_mul_scale(sensitivity, dt)
}

/// Yaw after one sample: the horizontal count turns the body, negative
/// counts turning it the positive way.
pub open spec fn spec_yaw_step(yaw: int, dx: int, rate: int) -> int {
    spec_sat_add(yaw, -(dx * rate))
}

/// Pitch after one sample: the candidate pitch is re-derived through the
/// clamp, never accumulated unbounded.
pub open spec fn spec_pitch_step(pitch: int, dy: int, rate: int) -> int {
    spec_clamp(spec_sat_add(pitch, -(dy * rate)), PITCH_MIN as int, PITCH_MAX as int)
}

/// Yaw and pitch after a whole frame's samples, applied in order.
pub open spec fn spec_orientation_fold(yaw: int, pitch: int, deltas: Seq<MouseDelta>, rate: int) -> (
    int,
    int,
)
    decreases deltas.len(),
{
    if deltas.len() == 0 {
        (yaw, pitch)
    } else {
        let d = deltas[0];
        spec_orientation_fold(
            spec_yaw_step(yaw, d.dx as int, rate),
            spec_pitch_step(pitch, d.dy as int, rate),
            deltas.subrange(1, deltas.len() as int),
            rate,
        )
    }
}

/// The pitch the fold yields never leaves the clamp range: after any
/// sequence of mouse-delta samples, a pitch that starts in range is in
/// range.
pub proof fn lemma_pitch_stays_clamped(yaw: int, pitch: int, deltas: Seq<MouseDelta>, rate: int)
    requires
        PITCH_MIN as int <= pitch <= PITCH_MAX as int,
    ensures
        PITCH_MIN as int <= spec_orientation_fold(yaw, pitch, deltas, rate).1 <= PITCH_MAX as int,
    decreases deltas.len(),
{
    if deltas.len() > 0 {
        let d = deltas[0];
        lemma_pitch_stays_clamped(
            spec_yaw_step(yaw, d.dx as int, rate),
            spec_pitch_step(pitch, d.dy as int, rate),
            deltas.subrange(1, deltas.len() as int),
            rate,
        );
    }
}

/// Applies a frame's mouse-delta samples to the player's yaw and the
/// camera's pitch, in sample order, but only while the cursor is grabbed;
/// otherwise the samples are discarded and nothing changes.
pub fn update_orientation(
    player: &mut PlayerState,
    camera: &mut CameraArm,
    deltas: &Vec<MouseDelta>,
    settings: &MouseSettings,
    dt: i64,
    mode: CursorMode,
)
    requires
        old(camera).wf(),
        settings.wf(),
        valid_dt(dt),
        forall|i: int| 0 <= i < deltas@.len() ==> valid_delta(deltas@[i]),
    ensures
        final(player).position == old(player).position,
        final(player).velocity == old(player).velocity,
        final(camera).wf(),
        mode == CursorMode::Released ==> *final(player) == *old(player) && *final(camera) == *old(
            camera,
        ),
        mode == CursorMode::Grabbed ==> {
            let folded = spec_orientation_fold(
                old(player).yaw as int,
                old(camera).pitch as int,
                deltas@,
                spec_step_rate(settings.sensitivity as int, dt as int),
            );
            final(player).yaw as int == folded.0 && final(camera).pitch as int == folded.1
        },
{
    if matches!(mode, CursorMode::Released) {
        return ;
    }
    let rate: i64 = scale_mul(settings.sensitivity, dt);
    proof {
        assert(spec_abs(rate as int) <= TUNABLE_MAX as int) by {
            crate::fixed::lemma_mul_scale_shrink(settings.sensitivity as int, dt as int);
        }
    }
    let ghost rate0: int = rate as int;
    let ghost yaw0: int = player.yaw as int;
    let ghost pitch0: int = camera.pitch as int;
    let mut i: usize = 0;
    proof {
        assert(deltas@.subrange(0, deltas@.len() as int) =~= deltas@);
    }
    while i < deltas.len()
        invariant
            0 <= i <= deltas@.len(),
            forall|j: int| 0 <= j < deltas@.len() ==> valid_delta(deltas@[j]),
            spec_abs(rate as int) <= TUNABLE_MAX as int,
            rate as int == rate0,
            player.position == old(player).position,
            player.velocity == old(player).velocity,
            camera.wf(),
            spec_orientation_fold(yaw0, pitch0, deltas@, rate0) == spec_orientation_fold(
                player.yaw as int,
                camera.pitch as int,
                deltas@.subrange(i as int, deltas@.len() as int),
                rate0,
            ),
        decreases deltas@.len() - i,
    {
        let ghost rest = deltas@.subrange(i as int, deltas@.len() as int);
        let d: MouseDelta = deltas[i];
        let yaw_turn: i64 = mul_small(d.dx, rate);
        let pitch_turn: i64 = mul_small(d.dy, rate);
        player.yaw = sat_add(player.yaw, -yaw_turn);
        let candidate: i64 = sat_add(camera.pitch, -pitch_turn);
        camera.pitch = clamp_fx(candidate, PITCH_MIN, PITCH_MAX);
        proof {
            assert(rest[0] == deltas@[i as int]);
            assert(rest.subrange(1, rest.len() as int) =~= deltas@.subrange(
                i + 1,
                deltas@.len() as int,
            ));
        }
        i = i + 1;
    }
    proof {
        assert(deltas@.subrange(deltas@.len() as int, deltas@.len() as int) =~= Seq::<
            MouseDelta,
        >::empty());
    }
}

} // verus!
