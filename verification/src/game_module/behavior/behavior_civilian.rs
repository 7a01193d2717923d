use vstd::prelude::*;
use crate::game_module::actors::character::character::{move_stop, with_move_idle, with_next_action, with_next_move};
use crate::game_module::actors::character::data::{ActionAnimationState, MoveAnimationState};
use crate::game_module::actors::character::stats::CharacterAnimationState;
use crate::game_module::behavior::behavior_base::{BehaviorData, BehaviorState};
use crate::game_module::behavior::behavior_common::{
    request, step_of, BehaviorCommand, BehaviorObservation, BehaviorStep,
};
use crate::game_module::state_cycle::State;

verus! {

/// A civilian sits down when it begins to rest hungry, and stands idle
/// otherwise.
pub open spec fn civilian_rest(a: CharacterAnimationState, is_hungry: bool) -> CharacterAnimationState {
    if is_hungry {
        let a1 = with_next_action(a, ActionAnimationState::Hungry);
        if a1._move_animation_state == MoveAnimationState::SitDownLoop {
            a1
        } else {
            with_next_move(a1, MoveAnimationState::SitDownLoop)
        }
    } else {
        with_move_idle(with_next_action(a, ActionAnimationState::Nothing))
    }
}

/// One stage of a civilian's mind: it rests (sitting when hungry), eats
/// the food it holds, roams, talks with the player, and wakes up.
pub open spec fn civilian_stage(
    data: BehaviorData,
    a: CharacterAnimationState,
    stage: State,
    st: BehaviorState,
    obs: BehaviorObservation,
) -> BehaviorStep {
    let none = step_of(data, a, Seq::empty());
    match st {
        BehaviorState::Idle => match stage {
            State::Begin => step_of(data, civilian_rest(a, obs.is_hungry), seq![BehaviorCommand::StartIdleTimer]),
            State::Update => if obs.holds_eatable_item {
                step_of(request(data, BehaviorState::Eating), a, Seq::empty())
            } else if !obs.is_hungry && obs.is_end_behavior_time {
                step_of(request(data, BehaviorState::Roaming), a, Seq::empty())
            } else {
                none
            },
            State::End => none,
        },
        BehaviorState::Eating => match stage {
            State::Begin => {
                let a1 = with_next_action(a, ActionAnimationState::Eating);
                step_of(
                    data,
                    if !move_stop(a1) { with_move_idle(a1) } else { a1 },
                    seq![BehaviorCommand::StartEatingTimer],
                )
            },
            State::Update => if a._action_animation_state != ActionAnimationState::Eating {
                step_of(request(data, BehaviorState::Idle), a, Seq::empty())
            } else {
                none
            },
            State::End => none,
        },
        BehaviorState::Roaming => match stage {
            State::Begin => step_of(data, a, seq![BehaviorCommand::StartRoaming]),
            State::Update => if obs.holds_eatable_item {
                step_of(request(data, BehaviorState::Eating), a, Seq::empty())
            } else if obs.is_end_behavior_time || obs.is_roaming_arrived_or_blocked {
                step_of(request(data, BehaviorState::Idle), a, Seq::empty())
            } else {
                none
            },
            State::End => none,
        },
        BehaviorState::Interaction => match stage {
            State::Begin => step_of(
                data,
                if !move_stop(a) { with_move_idle(a) } else { a },
                seq![BehaviorCommand::StartInteractionTimer],
            ),
            State::Update => if obs.is_end_behavior_time {
                step_of(request(data, BehaviorState::Idle), a, Seq::empty())
            } else if obs.has_target {
                step_of(data, a, seq![BehaviorCommand::LookAtTarget])
            } else {
                none
            },
            State::End => none,
        },
        BehaviorState::WakeUp => match stage {
            State::Update => if a._action_animation_state != ActionAnimationState::WakeUp {
                step_of(request(data, BehaviorState::Idle), a, Seq::empty())
            } else {
                none
            },
            _ => none,
        },
        _ => none,
    }
}

/// One stage of a civilian's mind, as `civilian_stage` states it.
pub fn civilian_stage_exec(
    data: &mut BehaviorData,
    anim: &mut CharacterAnimationState,
    stage: State,
    st: BehaviorState,
    obs: &BehaviorObservation,
) -> (r: Vec<BehaviorCommand>)
    ensures
        ({
            let s = civilian_stage(*old(data), *old(anim), stage, st, *obs);
            &&& *final(data) == s.data
            &&& *final(anim) == s.anim
            &&& r@ == s.commands
        }),
{
    let mut cmds: Vec<BehaviorCommand> = Vec::new();
    match st {
        BehaviorState::Idle => match stage {
            State::Begin => {
                if obs.is_hungry {
                    anim.set_action_hungry();
                    anim.set_sit_down();
                } else {
                    anim.set_action_none();
                    anim.set_move_idle();
                }
                cmds.push(BehaviorCommand::StartIdleTimer);
            },
            State::Update => {
                if obs.holds_eatable_item {
                    data.set_next_behavior_state(BehaviorState::Eating, false);
                } else if !obs.is_hungry && obs.is_end_behavior_time {
                    data.set_next_behavior_state(BehaviorState::Roaming, false);
                }
            },
            State::End => {},
        },
        BehaviorState::Eating => match stage {
            State::Begin => {
                anim.set_action_eating();
                if !anim.is_move_stop() {
                    anim.set_move_idle();
                }
                cmds.push(BehaviorCommand::StartEatingTimer);
            },
            State::Update => {
                if !anim.is_action(ActionAnimationState::Eating) {
                    data.set_next_behavior_state(BehaviorState::Idle, false);
                }
            },
            State::End => {},
        },
        BehaviorState::Roaming => match stage {
            State::Begin => cmds.push(BehaviorCommand::StartRoaming),
            State::Update => {
                if obs.holds_eatable_item {
                    data.set_next_behavior_state(BehaviorState::Eating, false);
                } else if obs.is_end_behavior_time || obs.is_roaming_arrived_or_blocked {
                    data.set_next_behavior_state(BehaviorState::Idle, false);
                }
            },
            State::End => {},
        },
        BehaviorState::Interaction => match stage {
            State::Begin => {
                if !anim.is_move_stop() {
                    anim.set_move_idle();
                }
                cmds.push(BehaviorCommand::StartInteractionTimer);
            },
            State::Update => {
                if obs.is_end_behavior_time {
                    data.set_next_behavior_state(BehaviorState::Idle, false);
                } else if obs.has_target {
                    cmds.push(BehaviorCommand::LookAtTarget);
                }
            },
            State::End => {},
        },
        BehaviorState::WakeUp => match stage {
            State::Update => {
                if !anim.is_action(ActionAnimationState::WakeUp) {
                    data.set_next_behavior_state(BehaviorState::Idle, false);
                }
            },
            _ => {},
        },
        _ => {},
    }
    proof {
        let s = civilian_stage(*old(data), *old(anim), stage, st, *obs);
        assert(cmds@ =~= s.commands);
    }
    cmds
}

} // verus!
