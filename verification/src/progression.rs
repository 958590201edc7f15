//! Level progression: goal contacts into level changes.
//!
//! The progression controller is a state machine over playing and
//! transitioning.  A contact event pairing the player with a goal-tagged
//! entity — in either order — fires exactly one transition: pause the
//! clock, despawn the level geometry, step the level counter by one,
//! request the next level by index, reset the player to the spawn point
//! with identity rotation, resume the clock.  The whole transition runs
//! inside one frame, so no observer ever sees the transitioning state.
//! Several goal contacts in one frame are processed in event order, each
//! firing its own full transition.

use vstd::prelude::*;

verus! {

use crate::fixed::{sat_add, scale_mul, spec_mul_scale, spec_sat_add};
use crate::grounded::{ContactEvent, ContactKind};
use crate::player::{spec_spawn_point, spawn_point, valid_dt, PlayerState};

/// Angular speed of the spinning goal decoration, micro-radians per
/// second (5 radians per second).
pub const GOAL_SPIN_RATE: i64 = 5_000_000;

/// Where the progression machine stands; it only ever rests at
/// `Playing`, since a transition completes within its frame.
#[derive(Clone, Copy, PartialEq, Eq, Structural, Debug)]
pub enum ProgressionPhase {
    Playing,
    Transitioning,
}

/// The process-wide level counter and progression phase.
#[derive(Clone, Copy, PartialEq, Eq, Structural, Debug)]
pub struct GameState {
    /// Current level index.
    pub level: u64,
    pub phase: ProgressionPhase,
}

impl GameState {
    /// A fresh game at the first level, playing.
    pub fn new() -> (r: GameState)
        ensures
            r.level == 0,
            r.phase == ProgressionPhase::Playing,
    {
        GameState { level: 0, phase: ProgressionPhase::Playing }
    }
}

/// A side effect the external collaborators must apply during a level
/// transition, in the order emitted.
#[derive(Clone, Copy, PartialEq, Eq, Structural, Debug)]
pub enum TransitionAction {
    /// Pause the simulation clock before tearing the level down.
    PauseClock,
    /// Despawn every entity tagged as level geometry, children included.
    DespawnLevelGeometry,
    /// Load the level with this index.
    LoadLevel(u64),
    /// Move the player back to the spawn point.
    ResetPlayer,
    /// Resume the simulation clock; the transition is over.
    ResumeClock,
}

/// Whether an event is a contact between the player and a goal-tagged
/// entity, in either order.
pub open spec fn spec_is_goal_contact(e: ContactEvent, player_id: u64, goals: Seq<u64>) -> bool {
    e.kind == ContactKind::Started && ((e.first == player_id && goals.contains(e.second)) || (
    e.second == player_id && goals.contains(e.first)))
}

/// How many of a frame's events are goal contacts.
pub open spec fn spec_goal_contact_count(events: Seq<ContactEvent>, player_id: u64, goals: Seq<u64>) -> int
    decreases events.len(),
{
    if events.len() == 0 {
        0
    } else {
        (if spec_is_goal_contact(events[0], player_id, goals) {
            1int
        } else {
            0int
        }) + spec_goal_contact_count(events.subrange(1, events.len() as int), player_id, goals)
    }
}

/// The five side effects of one transition out of a level: the counter
/// already stepped to `next_level`.
pub open spec fn spec_transition_actions(next_level: int) -> Seq<TransitionAction> {
    seq![
        TransitionAction::PauseClock,
        TransitionAction::DespawnLevelGeometry,
        TransitionAction::LoadLevel(next_level as u64),
        TransitionAction::ResetPlayer,
        TransitionAction::ResumeClock,
    ]
}

/// The whole frame's emitted actions: one transition block per goal
/// contact, in event order, with successive level indexes.
pub open spec fn spec_frame_actions(
    events: Seq<ContactEvent>,
    player_id: u64,
    goals: Seq<u64>,
    level: int,
) -> Seq<TransitionAction>
    decreases events.len(),
{
    if events.len() == 0 {
        Seq::empty()
    } else {
        let rest = events.subrange(1, events.len() as int);
        if spec_is_goal_contact(events[0], player_id, goals) {
            spec_transition_actions(level + 1) + spec_frame_actions(rest, player_id, goals, level + 1)
        } else {
            spec_frame_actions(rest, player_id, goals, level)
        }
    }
}

/// The goal-contact count is never negative and no larger than the frame.
pub proof fn lemma_goal_contact_count_range(
    events: Seq<ContactEvent>,
    player_id: u64,
    goals: Seq<u64>,
)
    ensures
        0 <= spec_goal_contact_count(events, player_id, goals) <= events.len(),
    decreases events.len(),
{
    if events.len() > 0 {
        lemma_goal_contact_count_range(
            events.subrange(1, events.len() as int),
            player_id,
            goals,
        );
    }
}

/// One goal contact steps the level counter by exactly one and emits
/// exactly one transition block.
pub proof fn lemma_single_goal_contact(
    e: ContactEvent,
    player_id: u64,
    goals: Seq<u64>,
    level: int,
)
    requires
        spec_is_goal_contact(e, player_id, goals),
    ensures
        spec_goal_contact_count(seq![e], player_id, goals) == 1,
        spec_frame_actions(seq![e], player_id, goals, level) == spec_transition_actions(level + 1),
{
    let s = seq![e];
    let rest = s.subrange(1, 1);
    assert(s[0] == e);
    assert(rest =~= Seq::<ContactEvent>::empty());
    assert(spec_goal_contact_count(rest, player_id, goals) == 0);
    assert(spec_frame_actions(rest, player_id, goals, level + 1) =~= Seq::<
        TransitionAction,
    >::empty());
    assert(spec_frame_actions(s, player_id, goals, level) == spec_transition_actions(level + 1)
        + spec_frame_actions(rest, player_id, goals, level + 1));
    assert(spec_frame_actions(s, player_id, goals, level) =~= spec_transition_actions(level + 1));
}

/// Whether an entity identifier is among the goal-tagged entities.
fn contains_id(ids: &Vec<u64>, id: u64) -> (r: bool)
    ensures
        r == ids@.contains(id),
{
    let mut i: usize = 0;
    while i < ids.len()
        invariant
            0 <= i <= ids@.len(),
            forall|j: int| 0 <= j < i ==> ids@[j] != id,
        decreases ids@.len() - i,
    {
        if ids[i] == id {
            return true;
        }
        i = i + 1;
    }
    false
}

/// Whether this event pairs the player with a goal-tagged entity.
pub fn is_goal_contact(e: &ContactEvent, player_id: u64, goals: &Vec<u64>) -> (r: bool)
    ensures
        r == spec_is_goal_contact(*e, player_id, goals@),
{
    if !matches!(e.kind, ContactKind::Started) {
        return false;
    }
    (e.first == player_id && contains_id(goals, e.second)) || (e.second == player_id
        && contains_id(goals, e.first))
}

/// Fires one level transition: the counter steps by one, the player
/// returns to the spawn point with identity rotation, and the five side
/// effects are appended for the collaborators to apply.  The machine
/// passes through the transitioning phase and rests playing again, all
/// within the call.
pub fn goal_transition(
    game: &mut GameState,
    player: &mut PlayerState,
    actions: &mut Vec<TransitionAction>,
)
    requires
        old(game).level < u64::MAX,
        old(game).phase == ProgressionPhase::Playing,
    ensures
        final(game).level == old(game).level + 1,
        final(game).phase == ProgressionPhase::Playing,
        final(player).position == spec_spawn_point(),
        final(player).yaw == 0,
        final(player).velocity == old(player).velocity,
        final(actions)@ == old(actions)@ + spec_transition_actions(old(game).level + 1),
{
    game.phase = ProgressionPhase::Transitioning;
    actions.push(TransitionAction::PauseClock);
    actions.push(TransitionAction::DespawnLevelGeometry);
    game.level = game.level + 1;
    actions.push(TransitionAction::LoadLevel(game.level));
    player.position = spawn_point();
    player.yaw = 0;
    actions.push(TransitionAction::ResetPlayer);
    actions.push(TransitionAction::ResumeClock);
    game.phase = ProgressionPhase::Playing;
    proof {
        assert(actions@ =~= old(actions)@ + spec_transition_actions(old(game).level + 1));
    }
}

/// Drains a frame's contact events in order and fires one full
/// transition per goal contact: the level counter steps by exactly the
/// number of goal contacts, and the player stands at the spawn point with
/// identity rotation exactly when there was at least one.
pub fn process_goal_contacts(
    game: &mut GameState,
    player: &mut PlayerState,
    events: &Vec<ContactEvent>,
    player_id: u64,
    goals: &Vec<u64>,
) -> (actions: Vec<TransitionAction>)
    requires
        old(game).phase == ProgressionPhase::Playing,
        old(game).level + spec_goal_contact_count(events@, player_id, goals@) <= u64::MAX,
    ensures
        final(game).level == old(game).level + spec_goal_contact_count(events@, player_id, goals@),
        final(game).phase == ProgressionPhase::Playing,
        actions@ == spec_frame_actions(events@, player_id, goals@, old(game).level as int),
        spec_goal_contact_count(events@, player_id, goals@) > 0 ==> final(player).position
            == spec_spawn_point() && final(player).yaw == 0,
        spec_goal_contact_count(events@, player_id, goals@) == 0 ==> *final(player) == *old(player),
        final(player).velocity == old(player).velocity,
{
    let mut actions: Vec<TransitionAction> = Vec::new();
    let mut i: usize = 0;
    proof {
        assert(events@.subrange(0, events@.len() as int) =~= events@);
    }
    while i < events.len()
        invariant
            0 <= i <= events@.len(),
            game.phase == ProgressionPhase::Playing,
            old(game).level + spec_goal_contact_count(events@, player_id, goals@) <= u64::MAX,
            game.level as int + spec_goal_contact_count(
                events@.subrange(i as int, events@.len() as int),
                player_id,
                goals@,
            ) == old(game).level as int + spec_goal_contact_count(events@, player_id, goals@),
            game.level >= old(game).level,
            actions@ + spec_frame_actions(
                events@.subrange(i as int, events@.len() as int),
                player_id,
                goals@,
                game.level as int,
            ) == spec_frame_actions(events@, player_id, goals@, old(game).level as int),
            game.level > old(game).level ==> player.position == spec_spawn_point() && player.yaw
                == 0,
            game.level == old(game).level ==> *player == *old(player),
            player.velocity == old(player).velocity,
        decreases events@.len() - i,
    {
        let ghost rest = events@.subrange(i as int, events@.len() as int);
        proof {
            assert(rest[0] == events@[i as int]);
            assert(rest.subrange(1, rest.len() as int) =~= events@.subrange(
                i + 1,
                events@.len() as int,
            ));
            lemma_goal_contact_count_range(rest.subrange(1, rest.len() as int), player_id, goals@);
        }
        let e: ContactEvent = events[i];
        if is_goal_contact(&e, player_id, goals) {
            goal_transition(game, player, &mut actions);
            proof {
                assert(actions@ + spec_frame_actions(
                    events@.subrange(i + 1, events@.len() as int),
                    player_id,
                    goals@,
                    game.level as int,
                ) =~= spec_frame_actions(events@, player_id, goals@, old(game).level as int));
            }
        }
        i = i + 1;
    }
    proof {
        assert(events@.subrange(events@.len() as int, events@.len() as int) =~= Seq::<
            ContactEvent,
        >::empty());
        assert(actions@ + Seq::<TransitionAction>::empty() =~= actions@);
    }
    actions
}

/// Advances the spinning goal decoration's yaw by one frame.
pub fn goal_spin_step(angle: i64, dt: i64) -> (r: i64)
    requires
        valid_dt(dt),
    ensures
        r as int == spec_sat_add(angle as int, spec_mul_scale(GOAL_SPIN_RATE as int, dt as int)),
{
    sat_add(angle, scale_mul(GOAL_SPIN_RATE, dt))
}

} // verus!
