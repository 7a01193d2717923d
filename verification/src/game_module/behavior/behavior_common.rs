use vstd::prelude::*;
use crate::game_module::actors::character::character::{move_stop, with_move_idle, with_next_action};
use crate::game_module::actors::character::data::{ActionAnimationState, MoveAnimationState};
use crate::game_module::actors::character::stats::CharacterAnimationState;
use crate::game_module::behavior::behavior_base::{BehaviorData, BehaviorState};

verus! {

/// What following the player out of affection comes to in one update.
#[derive(Clone, Copy, Debug, PartialEq, Eq, Structural)]
pub enum IntimacyFollowResult {
    /// Close enough to the player: roam around them.
    Arrived,
    /// Still on the way: keep running toward the player.
    Moving,
    /// Not following (anymore): rest.
    NotFollowing,
}

/// What the world tells a character's mind in one update. Distances,
/// timers and chances are measured by the caller.
#[derive(Clone, Copy, Debug, PartialEq, Eq, Structural)]
pub struct BehaviorObservation {
    /// The time given to the current behavior has run out.
    pub is_end_behavior_time: bool,
    /// The character follows the player out of affection and the player
    /// has gone too far.
    pub is_player_too_far_for_intimacy: bool,
    /// The roaming target is reached, or the way is blocked by an obstacle
    /// or a cliff while the character is not falling.
    pub is_roaming_arrived_or_blocked: bool,
    /// What following the player comes to.
    pub intimacy_follow: IntimacyFollowResult,
    pub has_target: bool,
    pub is_target_alive: bool,
    pub is_target_player: bool,
    pub is_following_intimacy: bool,
    /// An enemy stands within tracking range.
    pub is_enemy_in_range: bool,
    pub is_target_in_tracking_range: bool,
    pub is_target_in_attack_range: bool,
    /// Time is left before the next attack decision.
    pub has_attack_time_left: bool,
    pub is_alive: bool,
    pub is_on_ground: bool,
    pub attack_delay_passed: bool,
    pub kick_delay_passed: bool,
    pub is_hungry: bool,
    pub holds_eatable_item: bool,
    pub is_interacting: bool,
}

/// The work a character's mind asks of the world.
#[derive(Clone, Copy, Debug, PartialEq, Eq, Structural)]
pub enum BehaviorCommand {
    /// Rest for a random idle time.
    StartIdleTimer,
    /// Pick a place to roam to, walk toward it, and give it the roaming time.
    StartRoaming,
    /// Give eating its time.
    StartEatingTimer,
    /// Give an interaction its time.
    StartInteractionTimer,
    /// The character is no longer busy with the player.
    StopInteracting,
    LookAtTarget,
    /// Run toward the target.
    MoveTowardTarget,
    /// Turn toward the target.
    FaceTarget,
    /// Wait a random time before the next attack decision.
    StartAttackTimer,
    PlayGrowl,
    /// Count the attack wait down by this update's time.
    CountDownAttackTime,
}

/// One stage's effect: the mind, the animations, and the work asked.
pub struct BehaviorStep {
    pub data: BehaviorData,
    pub anim: CharacterAnimationState,
    pub commands: Seq<BehaviorCommand>,
}

pub open spec fn step_of(data: BehaviorData, anim: CharacterAnimationState, commands: Seq<BehaviorCommand>) -> BehaviorStep {
    BehaviorStep { data, anim, commands }
}

/// Asks for the next behavior without forcing it.
pub open spec fn request(data: BehaviorData, next: BehaviorState) -> BehaviorData {
    BehaviorData { _next_behavior_state: next, _is_force: false, ..data }
}

/// Resting begins: the character stops and waits a random time.
pub open spec fn begin_idle(a: CharacterAnimationState) -> (CharacterAnimationState, Seq<BehaviorCommand>) {
    (with_move_idle(a), seq![BehaviorCommand::StartIdleTimer])
}

/// Eating begins: the character stops if it moves, faces its target, stops
/// being busy with the player, and eats.
pub open spec fn begin_eating(a: CharacterAnimationState, obs: BehaviorObservation) -> (
    CharacterAnimationState,
    Seq<BehaviorCommand>,
) {
    let a1 = if !move_stop(a) { with_move_idle(a) } else { a };
    (
        with_next_action(a1, ActionAnimationState::Eating),
        (if obs.has_target { seq![BehaviorCommand::LookAtTarget] } else { Seq::empty() }) + seq![
            BehaviorCommand::StopInteracting,
            BehaviorCommand::StartEatingTimer,
        ],
    )
}

/// An interaction begins: the character stops if it moves and faces its
/// target.
pub open spec fn begin_interaction(a: CharacterAnimationState, obs: BehaviorObservation) -> (
    CharacterAnimationState,
    Seq<BehaviorCommand>,
) {
    let a1 = if !move_stop(a) && a._move_animation_state != MoveAnimationState::SitDownLoop {
        with_move_idle(a)
    } else {
        a
    };
    (
        a1,
        (if obs.has_target { seq![BehaviorCommand::LookAtTarget] } else { Seq::empty() }) + seq![
            BehaviorCommand::StartInteractionTimer,
        ],
    )
}

/// Whether an interaction is over, and what keeping it up asks: once its
/// time runs out, the character stops being busy; while the player keeps
/// it busy, it stays (stopping unless it sits) and faces the target.
pub open spec fn interaction_should_idle(a: CharacterAnimationState, obs: BehaviorObservation) -> (
    bool,
    CharacterAnimationState,
    Seq<BehaviorCommand>,
) {
    if obs.is_end_behavior_time {
        (true, a, seq![BehaviorCommand::StopInteracting])
    } else if obs.is_interacting {
        (
            false,
            if a._move_animation_state != MoveAnimationState::SitDownLoop { with_move_idle(a) } else { a },
            if obs.has_target { seq![BehaviorCommand::LookAtTarget] } else { Seq::empty() },
        )
    } else {
        (true, a, Seq::empty())
    }
}

/// Waking up begins.
pub open spec fn begin_wake_up(a: CharacterAnimationState) -> CharacterAnimationState {
    with_next_action(with_move_idle(a), ActionAnimationState::WakeUp)
}

/// After its first update, an action the behavior waits for is over once
/// the character no longer plays it.
pub open spec fn action_over(is_first_update: bool, a: CharacterAnimationState, action: ActionAnimationState) -> bool {
    !is_first_update && a._action_animation_state != action
}

/// The work of following the player: running on while on the way.
pub open spec fn follow_commands(r: IntimacyFollowResult) -> Seq<BehaviorCommand> {
    if r == IntimacyFollowResult::Moving {
        seq![BehaviorCommand::MoveTowardTarget]
    } else {
        Seq::empty()
    }
}

pub fn begin_idle_exec(anim: &mut CharacterAnimationState, cmds: &mut Vec<BehaviorCommand>)
    ensures
        *final(anim) == begin_idle(*old(anim)).0,
        final(cmds)@ == old(cmds)@ + begin_idle(*old(anim)).1,
{
    anim.set_move_idle();
    cmds.push(BehaviorCommand::StartIdleTimer);
    assert(cmds@ =~= old(cmds)@ + seq![BehaviorCommand::StartIdleTimer]);
}

pub fn begin_eating_exec(
    anim: &mut CharacterAnimationState,
    obs: &BehaviorObservation,
    cmds: &mut Vec<BehaviorCommand>,
)
    ensures
        *final(anim) == begin_eating(*old(anim), *obs).0,
        final(cmds)@ == old(cmds)@ + begin_eating(*old(anim), *obs).1,
{
    if !anim.is_move_stop() {
        anim.set_move_idle();
    }
    if obs.has_target {
        cmds.push(BehaviorCommand::LookAtTarget);
    }
    cmds.push(BehaviorCommand::StopInteracting);
    anim.set_action_eating();
    cmds.push(BehaviorCommand::StartEatingTimer);
    assert(cmds@ =~= old(cmds)@ + begin_eating(*old(anim), *obs).1);
}

pub fn begin_interaction_exec(
    anim: &mut CharacterAnimationState,
    obs: &BehaviorObservation,
    cmds: &mut Vec<BehaviorCommand>,
)
    ensures
        *final(anim) == begin_interaction(*old(anim), *obs).0,
        final(cmds)@ == old(cmds)@ + begin_interaction(*old(anim), *obs).1,
{
    if !anim.is_move_stop() && !anim.is_move_state(MoveAnimationState::SitDownLoop) {
        anim.set_move_idle();
    }
    if obs.has_target {
        cmds.push(BehaviorCommand::LookAtTarget);
    }
    cmds.push(BehaviorCommand::StartInteractionTimer);
    assert(cmds@ =~= old(cmds)@ + begin_interaction(*old(anim), *obs).1);
}

pub fn update_interaction_should_idle(
    anim: &mut CharacterAnimationState,
    obs: &BehaviorObservation,
    cmds: &mut Vec<BehaviorCommand>,
) -> (r: bool)
    ensures
        ({
            let (idle, a1, c) = interaction_should_idle(*old(anim), *obs);
            &&& r == idle
            &&& *final(anim) == a1
            &&& final(cmds)@ == old(cmds)@ + c
        }),
{
    if obs.is_end_behavior_time {
        cmds.push(BehaviorCommand::StopInteracting);
        assert(cmds@ =~= old(cmds)@ + seq![BehaviorCommand::StopInteracting]);
        return true;
    }
    if obs.is_interacting {
        if !anim.is_move_state(MoveAnimationState::SitDownLoop) {
            anim.set_move_idle();
        }
        if obs.has_target {
            cmds.push(BehaviorCommand::LookAtTarget);
        }
        assert(cmds@ =~= old(cmds)@ + interaction_should_idle(*old(anim), *obs).2);
        return false;
    }
    assert(cmds@ =~= old(cmds)@ + Seq::<BehaviorCommand>::empty());
    true
}

pub fn begin_wake_up_exec(anim: &mut CharacterAnimationState)
    ensures
        *final(anim) == begin_wake_up(*old(anim)),
{
    anim.set_action_wake_up();
}

pub fn update_intimacy_follow(obs: &BehaviorObservation, cmds: &mut Vec<BehaviorCommand>) -> (r: IntimacyFollowResult)
    ensures
        r == obs.intimacy_follow,
        final(cmds)@ == old(cmds)@ + follow_commands(obs.intimacy_follow),
{
    if obs.intimacy_follow == IntimacyFollowResult::Moving {
        cmds.push(BehaviorCommand::MoveTowardTarget);
    }
    assert(cmds@ =~= old(cmds)@ + follow_commands(obs.intimacy_follow));
    obs.intimacy_follow
}

} // verus!
