use vstd::prelude::*;
use crate::game_module::actors::character::character::{
    attack_animation, available_attack, available_move, with_move_idle, with_next_action,
};
use crate::game_module::actors::character::data::ActionAnimationState;
use crate::game_module::actors::character::stats::CharacterAnimationState;
use crate::game_module::behavior::behavior_base::{BehaviorData, BehaviorState};
use crate::game_module::behavior::behavior_common::{
    action_over, begin_eating, begin_eating_exec, begin_idle, begin_idle_exec, begin_interaction,
    begin_interaction_exec, begin_wake_up, begin_wake_up_exec, follow_commands, interaction_should_idle, request,
    step_of, update_interaction_should_idle, update_intimacy_follow, BehaviorCommand, BehaviorObservation,
    BehaviorStep, IntimacyFollowResult,
};
use crate::game_module::state_cycle::State;

verus! {

/// The chase of a roamer in one update: following the player it likes,
/// or running at a living target in tracking range and attacking it once
/// within reach; with no one to chase it rests.
pub open spec fn roamer_chase(data: BehaviorData, a: CharacterAnimationState, obs: BehaviorObservation) -> BehaviorStep {
    if obs.has_target && obs.is_target_alive {
        if obs.is_following_intimacy && obs.is_target_player {
            if obs.intimacy_follow == IntimacyFollowResult::Arrived {
                step_of(request(data, BehaviorState::Roaming), a, Seq::empty())
            } else {
                step_of(data, a, follow_commands(obs.intimacy_follow))
            }
        } else if obs.is_target_in_tracking_range {
            if obs.is_target_in_attack_range {
                step_of(request(data, BehaviorState::Attack), a, Seq::empty())
            } else {
                step_of(data, a, seq![BehaviorCommand::MoveTowardTarget])
            }
        } else {
            step_of(request(data, BehaviorState::Idle), a, Seq::empty())
        }
    } else {
        step_of(request(data, BehaviorState::Idle), a, Seq::empty())
    }
}

/// An attack of a roamer begins: it turns to its target, stops, strikes
/// when it can, waits a random time, and growls.
pub open spec fn roamer_begin_attack(a: CharacterAnimationState, obs: BehaviorObservation) -> CharacterAnimationState {
    let a1 = with_move_idle(a);
    if available_attack(a1, obs.is_alive, obs.is_on_ground, obs.attack_delay_passed, obs.kick_delay_passed) {
        with_next_action(a1, ActionAnimationState::Attack)
    } else {
        a1
    }
}

/// An attack of a roamer goes on while its living target is there and its
/// wait lasts: it keeps still, counting the wait down only between blows.
/// Then it chases a target still in tracking range, or rests.
pub open spec fn roamer_attack_update(data: BehaviorData, a: CharacterAnimationState, obs: BehaviorObservation) -> BehaviorStep {
    if obs.has_target && obs.is_target_alive && obs.has_attack_time_left {
        if attack_animation(a) {
            if !available_move(a, obs.is_alive, obs.is_on_ground) {
                step_of(data, with_move_idle(a), Seq::empty())
            } else {
                step_of(data, a, Seq::empty())
            }
        } else {
            step_of(data, with_move_idle(a), seq![BehaviorCommand::CountDownAttackTime])
        }
    } else if obs.has_target && obs.is_target_alive && obs.is_target_in_tracking_range {
        step_of(request(data, BehaviorState::Chase), a, Seq::empty())
    } else {
        step_of(request(data, BehaviorState::Idle), a, Seq::empty())
    }
}

/// One stage of a roamer's mind: it rests and roams until an enemy comes
/// near or the player it likes goes too far, then chases and attacks; it
/// also eats, talks, wakes up and dies.
pub open spec fn roamer_stage(
    data: BehaviorData,
    a: CharacterAnimationState,
    stage: State,
    st: BehaviorState,
    is_first_update: bool,
    obs: BehaviorObservation,
) -> BehaviorStep {
    let none = step_of(data, a, Seq::empty());
    match st {
        BehaviorState::Idle => match stage {
            State::Begin => step_of(data, begin_idle(a).0, begin_idle(a).1),
            State::Update => if obs.is_enemy_in_range || obs.is_player_too_far_for_intimacy {
                step_of(request(data, BehaviorState::Chase), a, Seq::empty())
            } else if obs.is_end_behavior_time {
                step_of(request(data, BehaviorState::Roaming), a, Seq::empty())
            } else {
                none
            },
            State::End => none,
        },
        BehaviorState::Eating => match stage {
            State::Begin => step_of(data, begin_eating(a, obs).0, begin_eating(a, obs).1),
            State::Update => if action_over(is_first_update, a, ActionAnimationState::Eating) {
                step_of(request(data, BehaviorState::Idle), a, Seq::empty())
            } else {
                none
            },
            State::End => none,
        },
        BehaviorState::Interaction => match stage {
            State::Begin => step_of(data, begin_interaction(a, obs).0, begin_interaction(a, obs).1),
            State::Update => {
                let (idle, a1, c) = interaction_should_idle(a, obs);
                step_of(if idle { request(data, BehaviorState::Idle) } else { data }, a1, c)
            },
            State::End => none,
        },
        BehaviorState::Roaming => match stage {
            State::Begin => step_of(data, a, seq![BehaviorCommand::StartRoaming]),
            State::Update => if obs.is_enemy_in_range || obs.is_player_too_far_for_intimacy {
                step_of(request(data, BehaviorState::Chase), a, Seq::empty())
            } else if obs.is_end_behavior_time || obs.is_roaming_arrived_or_blocked {
                step_of(request(data, BehaviorState::Idle), a, Seq::empty())
            } else {
                none
            },
            State::End => none,
        },
        BehaviorState::Chase => match stage {
            State::Update => roamer_chase(data, a, obs),
            _ => none,
        },
        BehaviorState::Attack => match stage {
            State::Begin => step_of(
                data,
                roamer_begin_attack(a, obs),
                seq![BehaviorCommand::FaceTarget, BehaviorCommand::StartAttackTimer, BehaviorCommand::PlayGrowl],
            ),
            State::Update => roamer_attack_update(data, a, obs),
            State::End => none,
        },
        BehaviorState::Dead => match stage {
            State::Begin => step_of(
                data,
                with_next_action(with_move_idle(a), ActionAnimationState::Dead),
                Seq::empty(),
            ),
            _ => none,
        },
        BehaviorState::WakeUp => match stage {
            State::Begin => step_of(data, begin_wake_up(a), Seq::empty()),
            State::Update => if action_over(is_first_update, a, ActionAnimationState::WakeUp) {
                step_of(request(data, BehaviorState::Idle), a, Seq::empty())
            } else {
                none
            },
            State::End => none,
        },
        _ => none,
    }
}

/// One stage of a roamer's mind, as `roamer_stage` states it. An attack
/// only begins toward a target.
pub fn roamer_stage_exec(
    data: &mut BehaviorData,
    anim: &mut CharacterAnimationState,
    stage: State,
    st: BehaviorState,
    is_first_update: bool,
    obs: &BehaviorObservation,
) -> (r: Vec<BehaviorCommand>)
    requires
        stage == State::Begin && st == BehaviorState::Attack ==> obs.has_target,
    ensures
        ({
            let s = roamer_stage(*old(data), *old(anim), stage, st, is_first_update, *obs);
            &&& *final(data) == s.data
            &&& *final(anim) == s.anim
            &&& r@ == s.commands
        }),
{
    let mut cmds: Vec<BehaviorCommand> = Vec::new();
    match st {
        BehaviorState::Idle => match stage {
            State::Begin => begin_idle_exec(anim, &mut cmds),
            State::Update => {
                if obs.is_enemy_in_range {
                    data.set_next_behavior_state(BehaviorState::Chase, false);
                } else if obs.is_player_too_far_for_intimacy {
                    data.set_next_behavior_state(BehaviorState::Chase, false);
                } else if obs.is_end_behavior_time {
                    data.set_next_behavior_state(BehaviorState::Roaming, false);
                }
            },
            State::End => {},
        },
        BehaviorState::Eating => match stage {
            State::Begin => begin_eating_exec(anim, obs, &mut cmds),
            State::Update => {
                if !is_first_update && !anim.is_action(ActionAnimationState::Eating) {
                    data.set_next_behavior_state(BehaviorState::Idle, false);
                }
            },
            State::End => {},
        },
        BehaviorState::Interaction => match stage {
            State::Begin => begin_interaction_exec(anim, obs, &mut cmds),
            State::Update => {
                if update_interaction_should_idle(anim, obs, &mut cmds) {
                    data.set_next_behavior_state(BehaviorState::Idle, false);
                }
            },
            State::End => {},
        },
        BehaviorState::Roaming => match stage {
            State::Begin => cmds.push(BehaviorCommand::StartRoaming),
            State::Update => {
                if obs.is_enemy_in_range {
                    data.set_next_behavior_state(BehaviorState::Chase, false);
                } else if obs.is_player_too_far_for_intimacy {
                    data.set_next_behavior_state(BehaviorState::Chase, false);
                } else if obs.is_end_behavior_time || obs.is_roaming_arrived_or_blocked {
                    data.set_next_behavior_state(BehaviorState::Idle, false);
                }
            },
            State::End => {},
        },
        BehaviorState::Chase => match stage {
            State::Update => roamer_chase_exec(data, anim, obs, &mut cmds),
            _ => {},
        },
        BehaviorState::Attack => match stage {
            State::Begin => roamer_begin_attack_exec(anim, obs, &mut cmds),
            State::Update => roamer_attack_update_exec(data, anim, obs, &mut cmds),
            State::End => {},
        },
        BehaviorState::Dead => match stage {
            State::Begin => anim.set_action_dead(),
            _ => {},
        },
        BehaviorState::WakeUp => match stage {
            State::Begin => begin_wake_up_exec(anim),
            State::Update => {
                if !is_first_update && !anim.is_action(ActionAnimationState::WakeUp) {
                    data.set_next_behavior_state(BehaviorState::Idle, false);
                }
            },
            State::End => {},
        },
        _ => {},
    }
    proof {
        let s = roamer_stage(*old(data), *old(anim), stage, st, is_first_update, *obs);
        assert(cmds@ =~= s.commands);
    }
    cmds
}

fn roamer_chase_exec(
    data: &mut BehaviorData,
    anim: &CharacterAnimationState,
    obs: &BehaviorObservation,
    cmds: &mut Vec<BehaviorCommand>,
)
    ensures
        ({
            let s = roamer_chase(*old(data), *anim, *obs);
            &&& *final(data) == s.data
            &&& final(cmds)@ == old(cmds)@ + s.commands
        }),
{
    let mut do_idle = true;
    if obs.has_target && obs.is_target_alive {
        if obs.is_following_intimacy && obs.is_target_player {
            match update_intimacy_follow(obs, cmds) {
                IntimacyFollowResult::Arrived => {
                    data.set_next_behavior_state(BehaviorState::Roaming, false);
                },
                _ => {},
            }
            do_idle = false;
        } else if obs.is_target_in_tracking_range {
            if obs.is_target_in_attack_range {
                data.set_next_behavior_state(BehaviorState::Attack, false);
            } else {
                cmds.push(BehaviorCommand::MoveTowardTarget);
            }
            do_idle = false;
        }
    }
    if do_idle {
        data.set_next_behavior_state(BehaviorState::Idle, false);
    }
    proof {
        let s = roamer_chase(*old(data), *anim, *obs);
        assert(cmds@ =~= old(cmds)@ + s.commands);
    }
}

fn roamer_begin_attack_exec(
    anim: &mut CharacterAnimationState,
    obs: &BehaviorObservation,
    cmds: &mut Vec<BehaviorCommand>,
)
    ensures
        *final(anim) == roamer_begin_attack(*old(anim), *obs),
        final(cmds)@ == old(cmds)@ + seq![
            BehaviorCommand::FaceTarget,
            BehaviorCommand::StartAttackTimer,
            BehaviorCommand::PlayGrowl,
        ],
{
    cmds.push(BehaviorCommand::FaceTarget);
    anim.set_move_idle();
    if anim.is_available_attack(obs.is_alive, obs.is_on_ground, obs.attack_delay_passed, obs.kick_delay_passed) {
        anim.set_next_action_animation(ActionAnimationState::Attack);
    }
    cmds.push(BehaviorCommand::StartAttackTimer);
    cmds.push(BehaviorCommand::PlayGrowl);
    assert(cmds@ =~= old(cmds)@ + seq![
        BehaviorCommand::FaceTarget,
        BehaviorCommand::StartAttackTimer,
        BehaviorCommand::PlayGrowl,
    ]);
}

fn roamer_attack_update_exec(
    data: &mut BehaviorData,
    anim: &mut CharacterAnimationState,
    obs: &BehaviorObservation,
    cmds: &mut Vec<BehaviorCommand>,
)
    ensures
        ({
            let s = roamer_attack_update(*old(data), *old(anim), *obs);
            &&& *final(data) == s.data
            &&& *final(anim) == s.anim
            &&& final(cmds)@ == old(cmds)@ + s.commands
        }),
{
    if obs.has_target && obs.is_target_alive && obs.has_attack_time_left {
        if anim.is_attack_animation() {
            if !anim.is_available_move(obs.is_alive, obs.is_on_ground) {
                anim.set_move_idle();
            }
        } else {
            anim.set_move_idle();
            cmds.push(BehaviorCommand::CountDownAttackTime);
        }
    } else if obs.has_target && obs.is_target_alive && obs.is_target_in_tracking_range {
        data.set_next_behavior_state(BehaviorState::Chase, false);
    } else {
        data.set_next_behavior_state(BehaviorState::Idle, false);
    }
    proof {
        let s = roamer_attack_update(*old(data), *old(anim), *obs);
        assert(cmds@ =~= old(cmds)@ + s.commands);
    }
}

} // verus!
