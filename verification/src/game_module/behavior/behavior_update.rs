use vstd::prelude::*;
use crate::game_module::actors::character::data::{ActionAnimationState, MoveAnimationState};
use crate::game_module::actors::character::stats::CharacterAnimationState;
use crate::game_module::behavior::behavior_base::{BehaviorData, BehaviorKind, BehaviorState};
use crate::game_module::behavior::behavior_civilian::{civilian_stage, civilian_stage_exec};
use crate::game_module::behavior::behavior_common::{step_of, BehaviorCommand, BehaviorObservation, BehaviorStep};
use crate::game_module::behavior::behavior_default::{default_stage, default_stage_exec};
use crate::game_module::behavior::behavior_roamer::{roamer_stage, roamer_stage_exec};
use crate::game_module::state_cycle::{schedule, state_schedule, State};

verus! {

/// One stage of the mind of the given kind. A UFO's mind does nothing.
pub open spec fn kind_stage(
    kind: BehaviorKind,
    data: BehaviorData,
    a: CharacterAnimationState,
    stage: State,
    st: BehaviorState,
    is_first_update: bool,
    obs: BehaviorObservation,
) -> BehaviorStep {
    match kind {
        BehaviorKind::Default => default_stage(data, a, stage, st, is_first_update, obs),
        BehaviorKind::Civilian => civilian_stage(data, a, stage, st, obs),
        BehaviorKind::Roamer => roamer_stage(data, a, stage, st, is_first_update, obs),
        BehaviorKind::Ufo => step_of(data, a, Seq::empty()),
    }
}

/// The default and roamer minds use up a forced change when they read it;
/// the civilian and UFO minds keep the flag.
pub open spec fn resets_force(kind: BehaviorKind) -> bool {
    kind == BehaviorKind::Default || kind == BehaviorKind::Roamer
}

/// A change is due: it is forced, or the requested state is not the
/// current one.
pub open spec fn transition_due(data: BehaviorData) -> bool {
    data._is_force || data._behavior_state != data._next_behavior_state
}

/// The mind as it starts an update: the minds that use up a forced change
/// clear the flag.
pub open spec fn update_started(kind: BehaviorKind, data: BehaviorData) -> BehaviorData {
    if resets_force(kind) {
        BehaviorData { _is_force: false, ..data }
    } else {
        data
    }
}

/// One stage of an update of a mind, as the update runs it: a state that
/// begins is first written back as the request.
pub open spec fn update_stage(
    kind: BehaviorKind,
    data: BehaviorData,
    a: CharacterAnimationState,
    stage: State,
    st: BehaviorState,
    is_first_update: bool,
    obs: BehaviorObservation,
) -> BehaviorStep {
    let d = if stage == State::Begin { BehaviorData { _next_behavior_state: st, ..data } } else { data };
    kind_stage(kind, d, a, stage, st, is_first_update, obs)
}

/// One whole update of a mind, given what the world tells each stage. When
/// a change is due, the current state ends, the requested state begins,
/// and the requested state is updated, the first time since it was asked
/// for; otherwise the requested state is only updated.
pub open spec fn behavior_updated(
    kind: BehaviorKind,
    data: BehaviorData,
    a: CharacterAnimationState,
    obs_end: BehaviorObservation,
    obs_begin: BehaviorObservation,
    obs_update: BehaviorObservation,
) -> BehaviorStep {
    let prev = data._behavior_state;
    let next = data._next_behavior_state;
    let d0 = update_started(kind, data);
    if transition_due(data) {
        let s1 = update_stage(kind, d0, a, State::End, prev, false, obs_end);
        let s2 = update_stage(kind, s1.data, s1.anim, State::Begin, next, false, obs_begin);
        let s3 = update_stage(kind, s2.data, s2.anim, State::Update, next, prev != next, obs_update);
        step_of(s3.data, s3.anim, s1.commands + s2.commands + s3.commands)
    } else {
        update_stage(kind, d0, a, State::Update, next, false, obs_update)
    }
}

/// One stage of the mind of the given kind, as `kind_stage` states it.
fn kind_stage_exec(
    kind: BehaviorKind,
    data: &mut BehaviorData,
    anim: &mut CharacterAnimationState,
    stage: State,
    st: BehaviorState,
    is_first_update: bool,
    obs: &BehaviorObservation,
) -> (r: Vec<BehaviorCommand>)
    requires
        kind == BehaviorKind::Roamer && stage == State::Begin && st == BehaviorState::Attack ==> obs.has_target,
    ensures
        ({
            let s = kind_stage(kind, *old(data), *old(anim), stage, st, is_first_update, *obs);
            &&& *final(data) == s.data
            &&& *final(anim) == s.anim
            &&& r@ == s.commands
        }),
{
    match kind {
        BehaviorKind::Default => default_stage_exec(data, anim, stage, st, is_first_update, obs),
        BehaviorKind::Civilian => civilian_stage_exec(data, anim, stage, st, obs),
        BehaviorKind::Roamer => roamer_stage_exec(data, anim, stage, st, is_first_update, obs),
        BehaviorKind::Ufo => Vec::new(),
    }
}

/// A new default or roamer mind is asked to rest at once; the civilian and
/// UFO minds wait for a request.
pub fn initialize_behavior(kind: BehaviorKind, data: &mut BehaviorData)
    ensures
        *final(data) == (if resets_force(kind) {
            BehaviorData { _next_behavior_state: BehaviorState::Idle, _is_force: true, ..*old(data) }
        } else {
            *old(data)
        }),
{
    if kind == BehaviorKind::Default || kind == BehaviorKind::Roamer {
        data.set_next_behavior_state(BehaviorState::Idle, true);
    }
}

/// Starts an update of a mind: lists its stages, which the caller runs in
/// order with `update_behavior_stage`, asking the world anew before each.
pub fn begin_behavior_update(kind: BehaviorKind, data: &mut BehaviorData) -> (r: Vec<(State, BehaviorState)>)
    ensures
        r@ == schedule(old(data)._behavior_state, old(data)._next_behavior_state, transition_due(*old(data))),
        *final(data) == update_started(kind, *old(data)),
{
    let prev = data.get_behavior_state();
    let next = data.get_next_behavior_state();
    let is_force = if kind == BehaviorKind::Default || kind == BehaviorKind::Roamer {
        data.is_force_behavior_state_changed_and_reset()
    } else {
        data.is_force_behavior_state_changed()
    };
    state_schedule(prev, next, is_force || prev != next)
}

/// Runs one stage of an update of a mind. The caller counts the
/// behavior's time down after an update stage. A roamer's attack only
/// begins toward a target.
pub fn update_behavior_stage(
    kind: BehaviorKind,
    data: &mut BehaviorData,
    anim: &mut CharacterAnimationState,
    stage: State,
    st: BehaviorState,
    is_first_update: bool,
    obs: &BehaviorObservation,
) -> (r: Vec<BehaviorCommand>)
    requires
        kind == BehaviorKind::Roamer && stage == State::Begin && st == BehaviorState::Attack ==> obs.has_target,
    ensures
        ({
            let s = update_stage(kind, *old(data), *old(anim), stage, st, is_first_update, *obs);
            &&& *final(data) == s.data
            &&& *final(anim) == s.anim
            &&& r@ == s.commands
        }),
{
    if stage == State::Begin {
        data.set_behavior_state(st);
    }
    kind_stage_exec(kind, data, anim, stage, st, is_first_update, obs)
}

/// A stage only ever asks for a behavior, unforced: the current state
/// stays, the force flag is kept or cleared, and only an update stage of a
/// living state asks for anything.
pub proof fn lemma_stage_frame(
    kind: BehaviorKind,
    data: BehaviorData,
    a: CharacterAnimationState,
    stage: State,
    st: BehaviorState,
    is_first_update: bool,
    obs: BehaviorObservation,
)
    ensures
        ({
            let s = kind_stage(kind, data, a, stage, st, is_first_update, obs);
            &&& s.data._behavior_state == data._behavior_state
            &&& (s.data._is_force == data._is_force || !s.data._is_force)
            &&& (stage != State::Update || st == BehaviorState::Dead) ==> s.data == data
        }),
{
    match kind {
        BehaviorKind::Default => {
            match st {
                BehaviorState::Idle => {},
                BehaviorState::Roaming => {},
                BehaviorState::Dead => {},
                BehaviorState::WakeUp => {},
                BehaviorState::Follow => {},
                _ => {},
            }
        },
        BehaviorKind::Civilian => {
            match st {
                BehaviorState::Idle => {},
                BehaviorState::Eating => {},
                BehaviorState::Roaming => {},
                BehaviorState::Interaction => {},
                BehaviorState::WakeUp => {},
                _ => {},
            }
        },
        BehaviorKind::Roamer => {
            match st {
                BehaviorState::Idle => {},
                BehaviorState::Eating => {},
                BehaviorState::Interaction => {},
                BehaviorState::Roaming => {},
                BehaviorState::Chase => {},
                BehaviorState::Attack => {},
                BehaviorState::Dead => {},
                BehaviorState::WakeUp => {},
                _ => {},
            }
        },
        BehaviorKind::Ufo => {},
    }
}

/// Death is final for every mind: once death is asked for, an update
/// never asks for anything else.
pub proof fn lemma_dead_stays_dead(
    kind: BehaviorKind,
    data: BehaviorData,
    a: CharacterAnimationState,
    obs_end: BehaviorObservation,
    obs_begin: BehaviorObservation,
    obs_update: BehaviorObservation,
)
    requires
        data._next_behavior_state == BehaviorState::Dead,
    ensures
        behavior_updated(kind, data, a, obs_end, obs_begin, obs_update).data._next_behavior_state
            == BehaviorState::Dead,
{
    lemma_update_frame(kind, data, a, obs_end, obs_begin, obs_update);
}

/// The frame of a whole update: the current state stays, no change is
/// newly forced, and the minds that use up a forced change leave none.
proof fn lemma_update_frame(
    kind: BehaviorKind,
    data: BehaviorData,
    a: CharacterAnimationState,
    obs_end: BehaviorObservation,
    obs_begin: BehaviorObservation,
    obs_update: BehaviorObservation,
)
    ensures
        ({
            let u = behavior_updated(kind, data, a, obs_end, obs_begin, obs_update);
            &&& u.data._behavior_state == data._behavior_state
            &&& resets_force(kind) ==> !u.data._is_force
            &&& u.data._is_force ==> data._is_force
            &&& data._next_behavior_state == BehaviorState::Dead ==> u.data._next_behavior_state == BehaviorState::Dead
        }),
{
    let prev = data._behavior_state;
    let next = data._next_behavior_state;
    let d0 = update_started(kind, data);
    if transition_due(data) {
        lemma_stage_frame(kind, d0, a, State::End, prev, false, obs_end);
        let s1 = kind_stage(kind, d0, a, State::End, prev, false, obs_end);
        let d1 = BehaviorData { _next_behavior_state: next, ..s1.data };
        lemma_stage_frame(kind, d1, s1.anim, State::Begin, next, false, obs_begin);
        let s2 = kind_stage(kind, d1, s1.anim, State::Begin, next, false, obs_begin);
        lemma_stage_frame(kind, s2.data, s2.anim, State::Update, next, prev != next, obs_update);
    } else {
        lemma_stage_frame(kind, d0, a, State::Update, next, false, obs_update);
    }
}

/// The minds that use up a forced change leave no change forced after an
/// update; no mind forces a change of its own.
pub proof fn lemma_update_never_forces(
    kind: BehaviorKind,
    data: BehaviorData,
    a: CharacterAnimationState,
    obs_end: BehaviorObservation,
    obs_begin: BehaviorObservation,
    obs_update: BehaviorObservation,
)
    ensures
        resets_force(kind) ==> !behavior_updated(kind, data, a, obs_end, obs_begin, obs_update).data._is_force,
        behavior_updated(kind, data, a, obs_end, obs_begin, obs_update).data._is_force ==> data._is_force,
{
    lemma_update_frame(kind, data, a, obs_end, obs_begin, obs_update);
}

/// An update writes only the request: the current behavior state stays as
/// it was.
pub proof fn lemma_update_keeps_current_state(
    kind: BehaviorKind,
    data: BehaviorData,
    a: CharacterAnimationState,
    obs_end: BehaviorObservation,
    obs_begin: BehaviorObservation,
    obs_update: BehaviorObservation,
)
    ensures
        behavior_updated(kind, data, a, obs_end, obs_begin, obs_update).data._behavior_state == data._behavior_state,
{
    lemma_update_frame(kind, data, a, obs_end, obs_begin, obs_update);
}


/// After its attack wait ends, a roamer chases a living target that stays
/// in tracking range, and rests when the target is gone, dead or out of
/// range; while the wait lasts on a living target it asks for nothing.
pub proof fn lemma_roamer_attack_then_chase_or_rest(
    data: BehaviorData,
    a: CharacterAnimationState,
    is_first_update: bool,
    obs: BehaviorObservation,
)
    ensures
        ({
            let s = kind_stage(BehaviorKind::Roamer, data, a, State::Update, BehaviorState::Attack, is_first_update, obs);
            let in_sight = obs.has_target && obs.is_target_alive && obs.is_target_in_tracking_range;
            &&& !obs.has_attack_time_left && in_sight ==> s.data == (BehaviorData {
                _next_behavior_state: BehaviorState::Chase,
                _is_force: false,
                ..data
            })
            &&& !obs.has_attack_time_left && !in_sight ==> s.data == (BehaviorData {
                _next_behavior_state: BehaviorState::Idle,
                _is_force: false,
                ..data
            })
            &&& obs.has_attack_time_left && obs.has_target && obs.is_target_alive ==> s.data == data
        }),
{
}

/// A roamer's chase: a living target in tracking range is attacked once in
/// reach and run at otherwise; with no living target in range it rests.
pub proof fn lemma_roamer_chase(data: BehaviorData, a: CharacterAnimationState, is_first_update: bool, obs: BehaviorObservation)
    requires
        !(obs.is_following_intimacy && obs.is_target_player),
    ensures
        ({
            let s = kind_stage(BehaviorKind::Roamer, data, a, State::Update, BehaviorState::Chase, is_first_update, obs);
            let in_sight = obs.has_target && obs.is_target_alive && obs.is_target_in_tracking_range;
            &&& in_sight && obs.is_target_in_attack_range ==> s.data._next_behavior_state == BehaviorState::Attack
                && !s.data._is_force
            &&& in_sight && !obs.is_target_in_attack_range ==> s.data == data && s.commands == seq![
                BehaviorCommand::MoveTowardTarget,
            ]
            &&& !in_sight ==> s.data._next_behavior_state == BehaviorState::Idle && !s.data._is_force
            &&& s.anim == a
        }),
{
}

/// A resting or roaming roamer chases as soon as an enemy comes near or the
/// player it likes goes too far.
pub proof fn lemma_roamer_notices_enemies(
    data: BehaviorData,
    a: CharacterAnimationState,
    is_first_update: bool,
    obs: BehaviorObservation,
)
    requires
        obs.is_enemy_in_range || obs.is_player_too_far_for_intimacy,
    ensures
        kind_stage(BehaviorKind::Roamer, data, a, State::Update, BehaviorState::Idle, is_first_update, obs).data
            == (BehaviorData { _next_behavior_state: BehaviorState::Chase, _is_force: false, ..data }),
        kind_stage(BehaviorKind::Roamer, data, a, State::Update, BehaviorState::Roaming, is_first_update, obs).data
            == (BehaviorData { _next_behavior_state: BehaviorState::Chase, _is_force: false, ..data }),
{
}


/// A civilian that holds food goes to eat it, whether resting or roaming;
/// one that rests without hunger roams once its time is up; a hungry one
/// sits down (or stays seated) as it begins to rest.
pub proof fn lemma_civilian_eats_what_it_holds(
    data: BehaviorData,
    a: CharacterAnimationState,
    is_first_update: bool,
    obs: BehaviorObservation,
)
    ensures
        obs.holds_eatable_item ==> kind_stage(BehaviorKind::Civilian, data, a, State::Update, BehaviorState::Idle, is_first_update, obs).data
            == (BehaviorData { _next_behavior_state: BehaviorState::Eating, _is_force: false, ..data }),
        obs.holds_eatable_item ==> kind_stage(BehaviorKind::Civilian, data, a, State::Update, BehaviorState::Roaming, is_first_update, obs).data
            == (BehaviorData { _next_behavior_state: BehaviorState::Eating, _is_force: false, ..data }),
        !obs.holds_eatable_item && !obs.is_hungry && obs.is_end_behavior_time ==> kind_stage(
            BehaviorKind::Civilian,
            data,
            a,
            State::Update,
            BehaviorState::Idle,
            is_first_update,
            obs,
        ).data == (BehaviorData { _next_behavior_state: BehaviorState::Roaming, _is_force: false, ..data }),
        !obs.holds_eatable_item && obs.is_hungry ==> kind_stage(BehaviorKind::Civilian, data, a, State::Update, BehaviorState::Idle, is_first_update, obs).data
            == data,
        obs.is_hungry ==> {
            let b = kind_stage(BehaviorKind::Civilian, data, a, State::Begin, BehaviorState::Idle, is_first_update, obs).anim;
            b._move_animation_state == MoveAnimationState::SitDownLoop || b._next_move_animation_state
                == MoveAnimationState::SitDownLoop
        },
        obs.is_hungry ==> kind_stage(BehaviorKind::Civilian, data, a, State::Begin, BehaviorState::Idle, is_first_update, obs).anim._next_action_animation_state
            == Some(ActionAnimationState::Hungry),
{
}

/// A talk with a civilian ends when its time is up, and until then the
/// civilian faces the one it talks with.
pub proof fn lemma_civilian_talks_until_time_is_up(
    data: BehaviorData,
    a: CharacterAnimationState,
    is_first_update: bool,
    obs: BehaviorObservation,
)
    ensures
        ({
            let s = kind_stage(BehaviorKind::Civilian, data, a, State::Update, BehaviorState::Interaction, is_first_update, obs);
            &&& obs.is_end_behavior_time ==> s.data == (BehaviorData {
                _next_behavior_state: BehaviorState::Idle,
                _is_force: false,
                ..data
            })
            &&& !obs.is_end_behavior_time && obs.has_target ==> s.data == data && s.commands == seq![
                BehaviorCommand::LookAtTarget,
            ]
        }),
{
}

} // verus!
