use vstd::prelude::*;
use crate::game_module::actors::character::character::{with_move_idle, with_next_action};
use crate::game_module::actors::character::data::ActionAnimationState;
use crate::game_module::actors::character::stats::CharacterAnimationState;
use crate::game_module::behavior::behavior_base::{BehaviorData, BehaviorState};
use crate::game_module::behavior::behavior_common::{
    action_over, begin_idle, begin_idle_exec, begin_wake_up, begin_wake_up_exec, follow_commands, request, step_of,
    update_intimacy_follow, BehaviorCommand, BehaviorObservation, BehaviorStep, IntimacyFollowResult,
};
use crate::game_module::state_cycle::State;

verus! {

/// One stage of the default mind: it rests, roams, follows the player it
/// likes, wakes up, and dies.
pub open spec fn default_stage(
    data: BehaviorData,
    a: CharacterAnimationState,
    stage: State,
    st: BehaviorState,
    is_first_update: bool,
    obs: BehaviorObservation,
) -> BehaviorStep {
    let none = step_of(data, a, Seq::empty());
    match st {
        BehaviorState::Idle => match stage {
            State::Begin => step_of(data, begin_idle(a).0, begin_idle(a).1),
            State::Update => if obs.is_player_too_far_for_intimacy {
                step_of(request(data, BehaviorState::Follow), a, Seq::empty())
            } else if obs.is_end_behavior_time {
                step_of(request(data, BehaviorState::Roaming), a, Seq::empty())
            } else {
                none
            },
            State::End => none,
        },
        BehaviorState::Roaming => match stage {
            State::Begin => step_of(data, a, seq![BehaviorCommand::StartRoaming]),
            State::Update => if obs.is_player_too_far_for_intimacy {
                step_of(request(data, BehaviorState::Follow), a, Seq::empty())
            } else if obs.is_end_behavior_time || obs.is_roaming_arrived_or_blocked {
                step_of(request(data, BehaviorState::Idle), a, Seq::empty())
            } else {
                none
            },
            State::End => none,
        },
        BehaviorState::Dead => match stage {
            State::Begin => step_of(
                data,
                with_move_idle(with_next_action(with_move_idle(a), ActionAnimationState::Dead)),
                Seq::empty(),
            ),
            _ => none,
        },
        BehaviorState::WakeUp => match stage {
            State::Begin => step_of(data, begin_wake_up(a), Seq::empty()),
            State::Update => if action_over(is_first_update, a, ActionAnimationState::WakeUp) {
                step_of(request(data, BehaviorState::Idle), a, Seq::empty())
            } else {
                none
            },
            State::End => none,
        },
        BehaviorState::Follow => match stage {
            State::Update => match obs.intimacy_follow {
                IntimacyFollowResult::Arrived => step_of(request(data, BehaviorState::Roaming), a, Seq::empty()),
                IntimacyFollowResult::Moving => step_of(data, a, follow_commands(obs.intimacy_follow)),
                IntimacyFollowResult::NotFollowing => step_of(request(data, BehaviorState::Idle), a, Seq::empty()),
            },
            _ => none,
        },
        _ => none,
    }
}

/// One stage of the default mind, as `default_stage` states it.
pub fn default_stage_exec(
    data: &mut BehaviorData,
    anim: &mut CharacterAnimationState,
    stage: State,
    st: BehaviorState,
    is_first_update: bool,
    obs: &BehaviorObservation,
) -> (r: Vec<BehaviorCommand>)
    ensures
        ({
            let s = default_stage(*old(data), *old(anim), stage, st, is_first_update, *obs);
            &&& *final(data) == s.data
            &&& *final(anim) == s.anim
            &&& r@ == s.commands
        }),
{
    let mut cmds: Vec<BehaviorCommand> = Vec::new();
    match st {
        BehaviorState::Idle => match stage {
            State::Begin => begin_idle_exec(anim, &mut cmds),
            State::Update => {
                if obs.is_player_too_far_for_intimacy {
                    data.set_next_behavior_state(BehaviorState::Follow, false);
                } else if obs.is_end_behavior_time {
                    data.set_next_behavior_state(BehaviorState::Roaming, false);
                }
            },
            State::End => {},
        },
        BehaviorState::Roaming => match stage {
            State::Begin => cmds.push(BehaviorCommand::StartRoaming),
            State::Update => {
                if obs.is_player_too_far_for_intimacy {
                    data.set_next_behavior_state(BehaviorState::Follow, false);
                } else if obs.is_end_behavior_time || obs.is_roaming_arrived_or_blocked {
                    data.set_next_behavior_state(BehaviorState::Idle, false);
                }
            },
            State::End => {},
        },
        BehaviorState::Dead => match stage {
            State::Begin => {
                anim.set_action_dead();
                anim.set_move_idle();
            },
            _ => {},
        },
        BehaviorState::WakeUp => match stage {
            State::Begin => begin_wake_up_exec(anim),
            State::Update => {
                if !is_first_update && !anim.is_action(ActionAnimationState::WakeUp) {
                    data.set_next_behavior_state(BehaviorState::Idle, false);
                }
            },
            State::End => {},
        },
        BehaviorState::Follow => match stage {
            State::Update => match update_intimacy_follow(obs, &mut cmds) {
                IntimacyFollowResult::Arrived => data.set_next_behavior_state(BehaviorState::Roaming, false),
                IntimacyFollowResult::Moving => {},
                IntimacyFollowResult::NotFollowing => data.set_next_behavior_state(BehaviorState::Idle, false),
            },
            _ => {},
        },
        _ => {},
    }
    proof {
        let s = default_stage(*old(data), *old(anim), stage, st, is_first_update, *obs);
        assert(cmds@ =~= s.commands);
    }
    cmds
}

} // verus!
