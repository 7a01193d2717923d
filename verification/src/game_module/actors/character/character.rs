use vstd::prelude::*;
use crate::game_module::actors::character::data::{
    ActionAnimationState, ActionEvent, CharacterPowerData, MoveAnimationState,
};
use crate::game_module::actors::character::stats::{CharacterAnimationState, CharacterStats};
use crate::game_module::game_constants::MAX_CORPSE_HIT_COUNT;
use crate::game_module::state_cycle::{schedule, State};

verus! {

/// Sounds a character plays while it animates.
#[derive(Clone, Copy, Debug, PartialEq, Eq, Structural)]
pub enum SoundCue {
    Attack,
    Footstep,
    Jump,
    Roll,
    Eating,
}

/// The work one stage of an animation update asks of the world around the
/// character.
#[derive(Clone, Copy, Debug, PartialEq, Eq, Structural)]
pub enum AnimationCommand {
    /// Stop the animation of the legs.
    ClearMoveAnimation,
    /// Start the clip of the given move state.
    PlayMoveClip(MoveAnimationState),
    /// Stop the animation of the upper body.
    ClearActionAnimation,
    /// Start the clip of the given action.
    PlayActionClip(ActionAnimationState),
    PlaySound(SoundCue),
    /// Applied by the character's own update, like `SetIsDeadLoop`.
    SetInvincibility(bool),
    /// Start the pause after a roll during which no roll is possible.
    SetRollDelay,
    /// Stop running and moving.
    StopMoving,
    SetWeaponVisible(bool),
    SetIsDeadLoop(bool),
    /// Send the player back to the bed at home.
    RespawnAtHome,
    StartSnoring,
    StopSnoring,
    /// Move the casting gauge while the button is held.
    UpdateFishingCast,
    /// Play the action clip at its normal speed.
    ResetActionSpeed,
    StartFishingMinigame,
    UpdateFishingMinigame,
    /// The eaten item feeds the character (its health, which the
    /// character's own update applies) and leaves the player's inventory or
    /// the character's hand.
    ApplyEatingEffects,
    /// The catch of a won fishing game goes to the inventory.
    PickFishingReward,
}

/// What the world tells the action update of a character.
#[derive(Clone, Copy, Debug, PartialEq, Eq, Structural)]
pub struct ActionKeyframeObservation {
    pub is_player: bool,
    /// The key time of the action (the hit of an attack, the grab of a
    /// pickup) passed during this update.
    pub event_time_reached: bool,
    pub animation_end: bool,
    pub is_on_ground: bool,
    pub is_teleport_mode: bool,
    pub is_fishing_button_held: bool,
    pub is_fishing_spot: bool,
    pub fishing_succeeded: bool,
    pub has_attached_item: bool,
}

/// What the world tells the move update of a character.
#[derive(Clone, Copy, Debug, PartialEq, Eq, Structural)]
pub struct MoveKeyframeObservation {
    pub is_player: bool,
    /// One of the key times of the move clip (see `move_key_times`) passed
    /// during this update.
    pub event_time_reached: bool,
    pub animation_end: bool,
}

// ---------------------------------------------------------------------------
// Predicates on the animation state

pub open spec fn move_stop(a: CharacterAnimationState) -> bool {
    a._move_animation_state == MoveAnimationState::Nothing
        || a._move_animation_state == MoveAnimationState::Idle
        || a._move_animation_state == MoveAnimationState::SitDownLoop
}

pub open spec fn idle_action(a: CharacterAnimationState) -> bool {
    a._action_animation_state == ActionAnimationState::Nothing
        || a._action_animation_state == ActionAnimationState::Hungry
}

pub open spec fn attack_animation(a: CharacterAnimationState) -> bool {
    a._action_animation_state == ActionAnimationState::Attack
        || a._action_animation_state == ActionAnimationState::PowerAttack
        || a._action_animation_state == ActionAnimationState::Kick
}

/// Upper-body actions blended over a moving lower body.
pub open spec fn additive_animation(a: CharacterAnimationState) -> bool {
    let act = a._action_animation_state;
    let mv = a._move_animation_state;
    (act == ActionAnimationState::Attack || act == ActionAnimationState::PowerAttack
        || act == ActionAnimationState::Hit || act == ActionAnimationState::Eating
        || act == ActionAnimationState::Hungry || act == ActionAnimationState::Pickup) && (mv
        == MoveAnimationState::Jump || mv == MoveAnimationState::Run || mv
        == MoveAnimationState::RunningJump || mv == MoveAnimationState::SitDownLoop || mv
        == MoveAnimationState::Walk)
}

/// The actions during which a character cannot move on its own.
pub open spec fn blocks_move(act: ActionAnimationState) -> bool {
    act == ActionAnimationState::LayingDown || act == ActionAnimationState::Sleep || act
        == ActionAnimationState::SleepNoSnoring || act == ActionAnimationState::WakeUp || act
        == ActionAnimationState::FishingBegin || act == ActionAnimationState::FishingLoop || act
        == ActionAnimationState::FishingEnd
}

pub open spec fn available_move(a: CharacterAnimationState, is_alive: bool, is_on_ground: bool) -> bool {
    &&& is_alive
    &&& a._move_animation_state != MoveAnimationState::Roll
    &&& (!is_on_ground || a._action_animation_state != ActionAnimationState::Kick)
    &&& !blocks_move(a._action_animation_state)
}

pub open spec fn available_attack(
    a: CharacterAnimationState,
    is_alive: bool,
    is_on_ground: bool,
    attack_delay_passed: bool,
    kick_delay_passed: bool,
) -> bool {
    if available_move(a, is_alive, is_on_ground) {
        if idle_action(a) || a._action_animation_state == ActionAnimationState::Hit {
            true
        } else {
            a._action_animation_state == ActionAnimationState::Attack && attack_delay_passed
        }
    } else {
        a._action_animation_state == ActionAnimationState::Kick && kick_delay_passed
    }
}

impl CharacterAnimationState {
    pub fn is_move_state(&self, move_state: MoveAnimationState) -> (r: bool)
        ensures
            r == (self._move_animation_state == move_state),
    {
        self._move_animation_state == move_state
    }

    /// Not moving: no move state, idle, or sitting.
    pub fn is_move_stop(&self) -> (r: bool)
        ensures
            r == move_stop(*self),
    {
        self.is_move_state(MoveAnimationState::Nothing) || self.is_move_state(MoveAnimationState::Idle)
            || self.is_move_state(MoveAnimationState::SitDownLoop)
    }

    pub fn is_action(&self, action: ActionAnimationState) -> (r: bool)
        ensures
            r == (self._action_animation_state == action),
    {
        self._action_animation_state == action
    }

    /// No action, or only looking hungry.
    pub fn is_idle_action(&self) -> (r: bool)
        ensures
            r == idle_action(*self),
    {
        self.is_action(ActionAnimationState::Nothing) || self.is_action(ActionAnimationState::Hungry)
    }

    pub fn is_additive_animation_for_action(&self) -> (r: bool)
        ensures
            r == additive_animation(*self),
    {
        (self.is_action(ActionAnimationState::Attack) || self.is_action(ActionAnimationState::PowerAttack)
            || self.is_action(ActionAnimationState::Hit) || self.is_action(ActionAnimationState::Eating)
            || self.is_action(ActionAnimationState::Hungry) || self.is_action(ActionAnimationState::Pickup))
            && (self.is_move_state(MoveAnimationState::Jump) || self.is_move_state(MoveAnimationState::Run)
            || self.is_move_state(MoveAnimationState::RunningJump) || self.is_move_state(
            MoveAnimationState::SitDownLoop,
        ) || self.is_move_state(MoveAnimationState::Walk))
    }

    pub fn is_attack_animation(&self) -> (r: bool)
        ensures
            r == attack_animation(*self),
    {
        self.is_action(ActionAnimationState::Attack) || self.is_action(ActionAnimationState::PowerAttack)
            || self.is_action(ActionAnimationState::Kick)
    }

    pub fn is_speed_running(&self) -> (r: bool)
        ensures
            r == (self._move_animation_state == MoveAnimationState::Run || self._move_animation_state
                == MoveAnimationState::RunningJump),
    {
        self.is_move_state(MoveAnimationState::Run) || self.is_move_state(MoveAnimationState::RunningJump)
    }

    /// The fishing gauge runs while the rod is cast or in the water.
    pub fn is_fishing_gauge_active(&self) -> (r: bool)
        ensures
            r == (self._action_animation_state == ActionAnimationState::FishingBegin
                || self._action_animation_state == ActionAnimationState::FishingLoop),
    {
        self.is_action(ActionAnimationState::FishingBegin) || self.is_action(ActionAnimationState::FishingLoop)
    }

    /// A living character moves unless it rolls, kicks on the ground,
    /// sleeps, wakes up or fishes.
    pub fn is_available_move(&self, is_alive: bool, is_on_ground: bool) -> (r: bool)
        ensures
            r == available_move(*self, is_alive, is_on_ground),
    {
        is_alive && !self.is_move_state(MoveAnimationState::Roll) && (!is_on_ground || !self.is_action(
            ActionAnimationState::Kick,
        )) && !self.is_action(ActionAnimationState::LayingDown) && !self.is_action(
            ActionAnimationState::Sleep,
        ) && !self.is_action(ActionAnimationState::SleepNoSnoring) && !self.is_action(
            ActionAnimationState::WakeUp,
        ) && !self.is_action(ActionAnimationState::FishingBegin) && !self.is_action(
            ActionAnimationState::FishingLoop,
        ) && !self.is_action(ActionAnimationState::FishingEnd)
    }

    /// A jump needs a character that may move and neither jumps nor falls.
    pub fn is_available_jump(&self, is_alive: bool, is_on_ground: bool, is_jump: bool, is_falling: bool) -> (r:
        bool)
        ensures
            r == (!is_jump && !is_falling && available_move(*self, is_alive, is_on_ground)),
    {
        !is_jump && !is_falling && self.is_available_move(is_alive, is_on_ground)
    }

    /// An attack may start from an idle or hit character that may move, or
    /// once the previous attack (or kick) has passed its delay.
    pub fn is_available_attack(
        &self,
        is_alive: bool,
        is_on_ground: bool,
        attack_delay_passed: bool,
        kick_delay_passed: bool,
    ) -> (r: bool)
        ensures
            r == available_attack(*self, is_alive, is_on_ground, attack_delay_passed, kick_delay_passed),
    {
        if self.is_available_move(is_alive, is_on_ground) {
            if self.is_idle_action() || self.is_action(ActionAnimationState::Hit) {
                return true;
            } else if self.is_action(ActionAnimationState::Attack) {
                return attack_delay_passed;
            }
        } else {
            if self.is_action(ActionAnimationState::Kick) {
                return kick_delay_passed;
            }
        }
        false
    }

    /// A roll needs stamina and no roll delay (for the player), no fall, an
    /// attack being possible, and no roll already going on.
    pub fn is_available_roll(
        &self,
        is_player: bool,
        has_roll_stamina: bool,
        is_in_roll_delay: bool,
        is_falling: bool,
        is_available_attack: bool,
    ) -> (r: bool)
        ensures
            r == (!(is_player && (!has_roll_stamina || is_in_roll_delay)) && !is_falling
                && is_available_attack && self._move_animation_state != MoveAnimationState::Roll),
    {
        if is_player && (!has_roll_stamina || is_in_roll_delay) {
            return false;
        }
        !is_falling && is_available_attack && !self.is_move_state(MoveAnimationState::Roll)
    }
}

// ---------------------------------------------------------------------------
// Requests of new animations

pub open spec fn with_next_move(a: CharacterAnimationState, m: MoveAnimationState) -> CharacterAnimationState {
    CharacterAnimationState { _next_move_animation_state: m, ..a }
}

pub open spec fn with_next_action(a: CharacterAnimationState, act: ActionAnimationState) -> CharacterAnimationState {
    CharacterAnimationState { _next_action_animation_state: Some(act), ..a }
}

/// Asks for the idle move unless the character already stands idle.
pub open spec fn with_move_idle(a: CharacterAnimationState) -> CharacterAnimationState {
    if a._move_animation_state == MoveAnimationState::Idle {
        a
    } else {
        with_next_move(a, MoveAnimationState::Idle)
    }
}

impl CharacterAnimationState {
    pub fn set_next_move_animation(&mut self, move_animation_state: MoveAnimationState)
        ensures
            *final(self) == with_next_move(*old(self), move_animation_state),
    {
        self._next_move_animation_state = move_animation_state;
    }

    pub fn set_next_action_animation(&mut self, action_animation_state: ActionAnimationState)
        ensures
            *final(self) == with_next_action(*old(self), action_animation_state),
    {
        self._next_action_animation_state = Some(action_animation_state);
    }

    /// The animation part of stopping a character: the idle move is asked
    /// for unless it already stands idle.
    pub fn set_move_idle(&mut self)
        ensures
            *final(self) == with_move_idle(*old(self)),
    {
        if !self.is_move_state(MoveAnimationState::Idle) {
            self.set_next_move_animation(MoveAnimationState::Idle);
        }
    }

    /// When the controls let go: unless rolling, a moving character on the
    /// ground is asked to stand idle.
    pub fn set_move_control_stop(&mut self, is_on_ground: bool)
        ensures
            *final(self) == (if old(self)._move_animation_state != MoveAnimationState::Roll && !move_stop(
                *old(self),
            ) && is_on_ground {
                with_next_move(*old(self), MoveAnimationState::Idle)
            } else {
                *old(self)
            }),
    {
        if !self.is_move_state(MoveAnimationState::Roll) {
            if !self.is_move_stop() && is_on_ground {
                self.set_next_move_animation(MoveAnimationState::Idle);
            }
        }
    }

    /// Asks to sit down unless the character already sits.
    pub fn set_sit_down(&mut self)
        ensures
            *final(self) == (if old(self)._move_animation_state == MoveAnimationState::SitDownLoop {
                *old(self)
            } else {
                with_next_move(*old(self), MoveAnimationState::SitDownLoop)
            }),
    {
        if !self.is_move_state(MoveAnimationState::SitDownLoop) {
            self.set_next_move_animation(MoveAnimationState::SitDownLoop);
        }
    }

    /// Sitting down is only possible for an idle character standing still on
    /// the ground.
    pub fn set_move_control_sit_down(&mut self, is_on_ground: bool)
        ensures
            *final(self) == (if idle_action(*old(self)) && old(self)._move_animation_state
                == MoveAnimationState::Idle && is_on_ground {
                with_next_move(*old(self), MoveAnimationState::SitDownLoop)
            } else {
                *old(self)
            }),
    {
        if self.is_idle_action() && self.is_move_state(MoveAnimationState::Idle) && is_on_ground {
            self.set_sit_down();
        }
    }

    pub fn set_action_none(&mut self)
        ensures
            *final(self) == with_next_action(*old(self), ActionAnimationState::Nothing),
    {
        self.set_next_action_animation(ActionAnimationState::Nothing);
    }

    /// Lying down to sleep first stops the character.
    pub fn set_action_sleep(&mut self)
        ensures
            *final(self) == with_next_action(with_move_idle(*old(self)), ActionAnimationState::Sleep),
    {
        self.set_move_idle();
        self.set_next_action_animation(ActionAnimationState::Sleep);
    }

    /// Dying first stops the character.
    pub fn set_action_dead(&mut self)
        ensures
            *final(self) == with_next_action(with_move_idle(*old(self)), ActionAnimationState::Dead),
    {
        self.set_move_idle();
        self.set_next_action_animation(ActionAnimationState::Dead);
    }

    pub fn set_action_hit(&mut self)
        ensures
            *final(self) == with_next_action(*old(self), ActionAnimationState::Hit),
    {
        self.set_next_action_animation(ActionAnimationState::Hit);
    }

    /// Dancing first stops the character.
    pub fn set_action_dance(&mut self)
        ensures
            *final(self) == with_next_action(with_move_idle(*old(self)), ActionAnimationState::Dance),
    {
        self.set_move_idle();
        self.set_next_action_animation(ActionAnimationState::Dance);
    }

    /// Lying down first stops the character.
    pub fn set_action_laying_down(&mut self)
        ensures
            *final(self) == with_next_action(with_move_idle(*old(self)), ActionAnimationState::LayingDown),
    {
        self.set_move_idle();
        self.set_next_action_animation(ActionAnimationState::LayingDown);
    }

    /// Sleeping quietly first stops the character.
    pub fn set_action_sleep_no_snoring(&mut self)
        ensures
            *final(self) == with_next_action(with_move_idle(*old(self)), ActionAnimationState::SleepNoSnoring),
    {
        self.set_move_idle();
        self.set_next_action_animation(ActionAnimationState::SleepNoSnoring);
    }

    pub fn set_action_hungry(&mut self)
        ensures
            *final(self) == with_next_action(*old(self), ActionAnimationState::Hungry),
    {
        self.set_next_action_animation(ActionAnimationState::Hungry);
    }

    pub fn set_action_eating(&mut self)
        ensures
            *final(self) == with_next_action(*old(self), ActionAnimationState::Eating),
    {
        self.set_next_action_animation(ActionAnimationState::Eating);
    }

    /// Waking up first stops the character.
    pub fn set_action_wake_up(&mut self)
        ensures
            *final(self) == with_next_action(with_move_idle(*old(self)), ActionAnimationState::WakeUp),
    {
        self.set_move_idle();
        self.set_next_action_animation(ActionAnimationState::WakeUp);
    }

    /// Ending the fishing game stops the character.
    pub fn set_action_fishing_end(&mut self)
        ensures
            *final(self) == with_move_idle(with_next_action(*old(self), ActionAnimationState::FishingEnd)),
    {
        self.set_next_action_animation(ActionAnimationState::FishingEnd);
        self.set_move_idle();
    }

    /// Jumps when a jump is possible: a running jump when running with
    /// stamina to spare, a plain one otherwise. The result tells whether the
    /// jump starts; the caller then starts it and spends the stamina.
    pub fn set_jump(
        &mut self,
        is_alive: bool,
        is_on_ground: bool,
        is_jump: bool,
        is_falling: bool,
        is_running: bool,
        stamina_runs_out: bool,
    ) -> (r: bool)
        ensures
            r == (!is_jump && !is_falling && available_move(*old(self), is_alive, is_on_ground)),
            *final(self) == (if r {
                with_next_move(
                    *old(self),
                    if is_running && !stamina_runs_out {
                        MoveAnimationState::RunningJump
                    } else {
                        MoveAnimationState::Jump
                    },
                )
            } else {
                *old(self)
            }),
    {
        if self.is_available_jump(is_alive, is_on_ground, is_jump, is_falling) {
            let move_anim = if is_running && !stamina_runs_out {
                MoveAnimationState::RunningJump
            } else {
                MoveAnimationState::Jump
            };
            self.set_next_move_animation(move_anim);
            true
        } else {
            false
        }
    }

    /// Rolls when a roll is possible, dropping any action. The result tells
    /// whether the roll starts; the caller then sets its speed and
    /// direction and spends the stamina.
    pub fn set_roll(
        &mut self,
        is_player: bool,
        has_roll_stamina: bool,
        is_in_roll_delay: bool,
        is_falling: bool,
        is_available_attack: bool,
    ) -> (r: bool)
        ensures
            r == (!(is_player && (!has_roll_stamina || is_in_roll_delay)) && !is_falling && is_available_attack
                && old(self)._move_animation_state != MoveAnimationState::Roll),
            *final(self) == (if r {
                with_next_move(
                    with_next_action(*old(self), ActionAnimationState::Nothing),
                    MoveAnimationState::Roll,
                )
            } else {
                *old(self)
            }),
    {
        if self.is_available_roll(is_player, has_roll_stamina, is_in_roll_delay, is_falling, is_available_attack) {
            self.set_action_none();
            self.set_next_move_animation(MoveAnimationState::Roll);
            true
        } else {
            false
        }
    }

    /// Asks for no action and no move at all.
    pub fn stop_animations(&mut self)
        ensures
            *final(self) == with_next_move(
                with_next_action(*old(self), ActionAnimationState::Nothing),
                MoveAnimationState::Nothing,
            ),
    {
        self.set_next_action_animation(ActionAnimationState::Nothing);
        self.set_next_move_animation(MoveAnimationState::Nothing);
    }
}


// ---------------------------------------------------------------------------
// Schedules of the two animation layers

impl CharacterAnimationState {
    /// Starts the move update: a requested move different from the current
    /// one ends the current move and begins the requested one, which
    /// becomes current.
    pub fn take_move_schedule(&mut self) -> (r: Vec<(State, MoveAnimationState)>)
        ensures
            r@ == schedule(
                old(self)._move_animation_state,
                old(self)._next_move_animation_state,
                old(self)._move_animation_state != old(self)._next_move_animation_state,
            ),
            *final(self) == (CharacterAnimationState {
                _move_animation_state: old(self)._next_move_animation_state,
                ..*old(self)
            }),
    {
        let current = self._move_animation_state;
        let next = self._next_move_animation_state;
        self._move_animation_state = next;
        crate::game_module::state_cycle::state_schedule(current, next, current != next)
    }

    /// Starts the action update: the event of the last update is cleared,
    /// and a requested action (even the current one again) ends the current
    /// action and begins the requested one, which becomes current. The
    /// request is used up.
    pub fn take_action_schedule(&mut self) -> (r: Vec<(State, ActionAnimationState)>)
        ensures
            r@ == schedule(
                old(self)._action_animation_state,
                next_or_current(*old(self)),
                old(self)._next_action_animation_state.is_some(),
            ),
            *final(self) == (CharacterAnimationState {
                _action_event: ActionEvent::Nothing,
                _action_animation_state: next_or_current(*old(self)),
                _next_action_animation_state: None,
                ..*old(self)
            }),
    {
        let current = self._action_animation_state;
        let requested = self._next_action_animation_state;
        self._action_event = ActionEvent::Nothing;
        self._next_action_animation_state = None;
        let next = match requested {
            Some(a) => a,
            None => current,
        };
        self._action_animation_state = next;
        crate::game_module::state_cycle::state_schedule(current, next, requested.is_some())
    }
}

/// The requested action if there is one, else the current one.
pub open spec fn next_or_current(a: CharacterAnimationState) -> ActionAnimationState {
    match a._next_action_animation_state {
        Some(n) => n,
        None => a._action_animation_state,
    }
}

// ---------------------------------------------------------------------------
// Move update

/// The key times of a move clip, in thousandths of the clip: footsteps of a
/// walk and a run, the sound of a roll.
pub open spec fn move_key_times_spec(state: MoveAnimationState) -> Seq<u32> {
    match state {
        MoveAnimationState::Walk => seq![200u32, 900u32],
        MoveAnimationState::Run => seq![100u32, 500u32],
        MoveAnimationState::Roll => seq![200u32],
        _ => Seq::empty(),
    }
}

/// The key times of a move clip, as `move_key_times_spec` lists them.
pub fn move_key_times(state: MoveAnimationState) -> (r: Vec<u32>)
    ensures
        r@ == move_key_times_spec(state),
{
    let mut r: Vec<u32> = Vec::new();
    match state {
        MoveAnimationState::Walk => {
            r.push(200);
            r.push(900);
        },
        MoveAnimationState::Run => {
            r.push(100);
            r.push(500);
        },
        MoveAnimationState::Roll => {
            r.push(200);
        },
        _ => {},
    }
    proof {
        assert(r@ =~= move_key_times_spec(state));
    }
    r
}

/// The work of one stage of the move update.
pub open spec fn move_step_commands(stage: State, state: MoveAnimationState, obs: MoveKeyframeObservation) -> Seq<
    AnimationCommand,
> {
    match stage {
        State::Begin => match state {
            MoveAnimationState::Nothing => seq![AnimationCommand::ClearMoveAnimation],
            MoveAnimationState::Jump | MoveAnimationState::RunningJump => seq![
                AnimationCommand::PlayMoveClip(state),
                AnimationCommand::PlaySound(SoundCue::Jump),
            ],
            MoveAnimationState::Roll => seq![
                AnimationCommand::PlayMoveClip(state),
                AnimationCommand::SetInvincibility(true),
            ],
            _ => seq![AnimationCommand::PlayMoveClip(state)],
        },
        State::Update => match state {
            MoveAnimationState::Walk | MoveAnimationState::Run => if obs.is_player && obs.event_time_reached {
                seq![AnimationCommand::PlaySound(SoundCue::Footstep)]
            } else {
                Seq::empty()
            },
            MoveAnimationState::Roll => if obs.is_player && obs.event_time_reached {
                seq![AnimationCommand::PlaySound(SoundCue::Roll)]
            } else if obs.animation_end {
                seq![AnimationCommand::StopMoving]
            } else {
                Seq::empty()
            },
            _ => Seq::empty(),
        },
        State::End => match state {
            MoveAnimationState::Roll => seq![
                AnimationCommand::SetRollDelay,
                AnimationCommand::SetInvincibility(false),
            ],
            _ => Seq::empty(),
        },
    }
}

/// The animation state after one stage of the move update: only the end
/// of a roll asks to stand idle.
pub open spec fn move_step_state(
    a: CharacterAnimationState,
    stage: State,
    state: MoveAnimationState,
    obs: MoveKeyframeObservation,
) -> CharacterAnimationState {
    if stage == State::Update && state == MoveAnimationState::Roll && !(obs.is_player
        && obs.event_time_reached) && obs.animation_end {
        with_move_idle(a)
    } else {
        a
    }
}

impl CharacterAnimationState {
    /// One stage of the move update of a character.
    pub fn move_keyframe_step(&mut self, stage: State, state: MoveAnimationState, obs: &MoveKeyframeObservation) -> (r:
        Vec<AnimationCommand>)
        ensures
            r@ == move_step_commands(stage, state, *obs),
            *final(self) == move_step_state(*old(self), stage, state, *obs),
    {
        let mut r: Vec<AnimationCommand> = Vec::new();
        match stage {
            State::Begin => {
                match state {
                    MoveAnimationState::Nothing => {
                        r.push(AnimationCommand::ClearMoveAnimation);
                    },
                    MoveAnimationState::Jump | MoveAnimationState::RunningJump => {
                        r.push(AnimationCommand::PlayMoveClip(state));
                        r.push(AnimationCommand::PlaySound(SoundCue::Jump));
                    },
                    MoveAnimationState::Roll => {
                        r.push(AnimationCommand::PlayMoveClip(state));
                        r.push(AnimationCommand::SetInvincibility(true));
                    },
                    _ => {
                        r.push(AnimationCommand::PlayMoveClip(state));
                    },
                }
            },
            State::Update => {
                match state {
                    MoveAnimationState::Walk | MoveAnimationState::Run => {
                        if obs.is_player && obs.event_time_reached {
                            r.push(AnimationCommand::PlaySound(SoundCue::Footstep));
                        }
                    },
                    MoveAnimationState::Roll => {
                        if obs.is_player && obs.event_time_reached {
                            r.push(AnimationCommand::PlaySound(SoundCue::Roll));
                        } else if obs.animation_end {
                            self.set_move_idle();
                            r.push(AnimationCommand::StopMoving);
                        }
                    },
                    _ => {},
                }
            },
            State::End => {
                match state {
                    MoveAnimationState::Roll => {
                        r.push(AnimationCommand::SetRollDelay);
                        r.push(AnimationCommand::SetInvincibility(false));
                    },
                    _ => {},
                }
            },
        }
        proof {
            assert(r@ =~= move_step_commands(stage, state, *obs));
        }
        r
    }
}

// ---------------------------------------------------------------------------
// Action update

/// The work of the stage that begins an action: its clip starts, and the
/// weapon, sounds and flags of the action are set.
pub open spec fn action_begin_commands(state: ActionAnimationState, obs: ActionKeyframeObservation) -> Seq<
    AnimationCommand,
> {
    let play = AnimationCommand::PlayActionClip(state);
    match state {
        ActionAnimationState::Nothing => seq![AnimationCommand::ClearActionAnimation],
        ActionAnimationState::Attack | ActionAnimationState::PowerAttack => seq![
            play,
            AnimationCommand::SetWeaponVisible(true),
        ],
        ActionAnimationState::Dance | ActionAnimationState::LayingDown | ActionAnimationState::Pickup
        | ActionAnimationState::WakeUp | ActionAnimationState::SleepNoSnoring => seq![
            play,
            AnimationCommand::SetWeaponVisible(false),
        ],
        ActionAnimationState::Dead => seq![
            play,
            AnimationCommand::SetWeaponVisible(false),
            AnimationCommand::SetInvincibility(true),
            AnimationCommand::SetIsDeadLoop(false),
        ],
        ActionAnimationState::Sleep => if obs.is_player {
            seq![play, AnimationCommand::StartSnoring, AnimationCommand::SetWeaponVisible(false)]
        } else {
            seq![play, AnimationCommand::SetWeaponVisible(false)]
        },
        ActionAnimationState::Eating => seq![play, AnimationCommand::PlaySound(SoundCue::Eating)],
        ActionAnimationState::FishingBegin => seq![
            play,
            AnimationCommand::PlaySound(SoundCue::Attack),
            AnimationCommand::SetWeaponVisible(true),
        ],
        ActionAnimationState::FishingLoop => seq![
            play,
            AnimationCommand::SetWeaponVisible(true),
            AnimationCommand::StartFishingMinigame,
        ],
        ActionAnimationState::FishingEnd => if obs.is_player && obs.fishing_succeeded {
            seq![
                play,
                AnimationCommand::PlaySound(SoundCue::Attack),
                AnimationCommand::SetWeaponVisible(true),
                AnimationCommand::PickFishingReward,
            ]
        } else {
            seq![
                play,
                AnimationCommand::PlaySound(SoundCue::Attack),
                AnimationCommand::SetWeaponVisible(true),
            ]
        },
        _ => seq![play],
    }
}

/// The event an action raises at its key time.
pub open spec fn action_key_event(state: ActionAnimationState) -> Option<ActionEvent> {
    match state {
        ActionAnimationState::Attack => Some(ActionEvent::Attack),
        ActionAnimationState::Kick => Some(ActionEvent::Kick),
        ActionAnimationState::Pickup => Some(ActionEvent::Pickup),
        ActionAnimationState::PowerAttack => Some(ActionEvent::PowerAttack),
        _ => None,
    }
}

/// The actions that end on their own when their clip ends.
pub open spec fn ends_with_clip(state: ActionAnimationState) -> bool {
    state == ActionAnimationState::Attack || state == ActionAnimationState::Hit || state
        == ActionAnimationState::Kick || state == ActionAnimationState::Pickup || state
        == ActionAnimationState::PowerAttack || state == ActionAnimationState::Eating || state
        == ActionAnimationState::Hungry || state == ActionAnimationState::WakeUp || state
        == ActionAnimationState::FishingEnd
}

/// The work of the stage that updates an action.
pub open spec fn action_update_commands(state: ActionAnimationState, obs: ActionKeyframeObservation) -> Seq<
    AnimationCommand,
> {
    match state {
        ActionAnimationState::Attack | ActionAnimationState::Pickup | ActionAnimationState::PowerAttack =>
            if obs.event_time_reached {
            seq![AnimationCommand::PlaySound(SoundCue::Attack)]
        } else {
            Seq::empty()
        },
        ActionAnimationState::Kick => (if obs.event_time_reached {
            seq![AnimationCommand::PlaySound(SoundCue::Attack)]
        } else {
            Seq::empty()
        }) + (if !obs.animation_end && obs.is_on_ground {
            seq![AnimationCommand::StopMoving]
        } else {
            Seq::empty()
        }),
        ActionAnimationState::Dead => if obs.animation_end {
            if obs.is_player && !obs.is_teleport_mode {
                seq![
                    AnimationCommand::SetInvincibility(false),
                    AnimationCommand::SetIsDeadLoop(true),
                    AnimationCommand::RespawnAtHome,
                ]
            } else {
                seq![AnimationCommand::SetInvincibility(false), AnimationCommand::SetIsDeadLoop(true)]
            }
        } else {
            Seq::empty()
        },
        ActionAnimationState::LayingDown => if obs.animation_end {
            seq![AnimationCommand::StopMoving]
        } else {
            Seq::empty()
        },
        ActionAnimationState::FishingBegin => if obs.is_fishing_button_held {
            seq![AnimationCommand::UpdateFishingCast]
        } else {
            seq![AnimationCommand::ResetActionSpeed]
        },
        ActionAnimationState::FishingLoop => seq![AnimationCommand::UpdateFishingMinigame],
        _ => Seq::empty(),
    }
}

/// The animation state after the stage that updates an action: the key
/// event is raised at its time, an action that ends with its clip asks for
/// no action, lying down turns into sleep, and a cast rod goes into the
/// water at a fishing spot.
pub open spec fn action_update_state(
    a: CharacterAnimationState,
    state: ActionAnimationState,
    obs: ActionKeyframeObservation,
) -> CharacterAnimationState {
    let with_event = match action_key_event(state) {
        Some(e) => if obs.event_time_reached {
            CharacterAnimationState { _action_event: e, ..a }
        } else {
            a
        },
        None => a,
    };
    if state == ActionAnimationState::Kick {
        if obs.animation_end {
            with_next_action(with_event, ActionAnimationState::Nothing)
        } else if obs.is_on_ground {
            with_move_idle(with_event)
        } else {
            with_event
        }
    } else if ends_with_clip(state) {
        if obs.animation_end {
            with_next_action(with_event, ActionAnimationState::Nothing)
        } else {
            with_event
        }
    } else if state == ActionAnimationState::LayingDown {
        if obs.animation_end {
            with_next_action(with_move_idle(a), ActionAnimationState::Sleep)
        } else {
            a
        }
    } else if state == ActionAnimationState::FishingBegin {
        if obs.animation_end {
            if obs.is_fishing_spot {
                with_next_action(a, ActionAnimationState::FishingLoop)
            } else {
                with_next_action(a, ActionAnimationState::Nothing)
            }
        } else {
            a
        }
    } else {
        a
    }
}

/// The work of the stage that ends an action.
pub open spec fn action_end_commands(state: ActionAnimationState, obs: ActionKeyframeObservation) -> Seq<
    AnimationCommand,
> {
    match state {
        ActionAnimationState::Dance | ActionAnimationState::LayingDown | ActionAnimationState::Pickup
        | ActionAnimationState::WakeUp => seq![AnimationCommand::SetWeaponVisible(true)],
        ActionAnimationState::Dead => seq![
            AnimationCommand::SetWeaponVisible(true),
            AnimationCommand::SetInvincibility(false),
            AnimationCommand::SetIsDeadLoop(false),
        ],
        ActionAnimationState::Sleep | ActionAnimationState::SleepNoSnoring => if obs.is_player {
            seq![AnimationCommand::StopSnoring, AnimationCommand::SetWeaponVisible(true)]
        } else {
            seq![AnimationCommand::SetWeaponVisible(true)]
        },
        ActionAnimationState::Eating => if obs.has_attached_item {
            seq![AnimationCommand::ApplyEatingEffects]
        } else {
            Seq::empty()
        },
        _ => Seq::empty(),
    }
}

pub open spec fn action_step_commands(stage: State, state: ActionAnimationState, obs: ActionKeyframeObservation) -> Seq<
    AnimationCommand,
> {
    match stage {
        State::Begin => action_begin_commands(state, obs),
        State::Update => action_update_commands(state, obs),
        State::End => action_end_commands(state, obs),
    }
}

pub open spec fn action_step_state(
    a: CharacterAnimationState,
    stage: State,
    state: ActionAnimationState,
    obs: ActionKeyframeObservation,
) -> CharacterAnimationState {
    if stage == State::Update {
        action_update_state(a, state, obs)
    } else {
        a
    }
}

fn action_begin(state: ActionAnimationState, obs: &ActionKeyframeObservation) -> (r: Vec<AnimationCommand>)
    ensures
        r@ == action_begin_commands(state, *obs),
{
    let mut r: Vec<AnimationCommand> = Vec::new();
    if state == ActionAnimationState::Nothing {
        r.push(AnimationCommand::ClearActionAnimation);
    } else {
        r.push(AnimationCommand::PlayActionClip(state));
        match state {
            ActionAnimationState::Attack | ActionAnimationState::PowerAttack => {
                r.push(AnimationCommand::SetWeaponVisible(true));
            },
            ActionAnimationState::Dance | ActionAnimationState::LayingDown | ActionAnimationState::Pickup
            | ActionAnimationState::WakeUp | ActionAnimationState::SleepNoSnoring => {
                r.push(AnimationCommand::SetWeaponVisible(false));
            },
            ActionAnimationState::Dead => {
                r.push(AnimationCommand::SetWeaponVisible(false));
                r.push(AnimationCommand::SetInvincibility(true));
                r.push(AnimationCommand::SetIsDeadLoop(false));
            },
            ActionAnimationState::Sleep => {
                if obs.is_player {
                    r.push(AnimationCommand::StartSnoring);
                }
                r.push(AnimationCommand::SetWeaponVisible(false));
            },
            ActionAnimationState::Eating => {
                r.push(AnimationCommand::PlaySound(SoundCue::Eating));
            },
            ActionAnimationState::FishingBegin => {
                r.push(AnimationCommand::PlaySound(SoundCue::Attack));
                r.push(AnimationCommand::SetWeaponVisible(true));
            },
            ActionAnimationState::FishingLoop => {
                r.push(AnimationCommand::SetWeaponVisible(true));
                r.push(AnimationCommand::StartFishingMinigame);
            },
            ActionAnimationState::FishingEnd => {
                r.push(AnimationCommand::PlaySound(SoundCue::Attack));
                r.push(AnimationCommand::SetWeaponVisible(true));
                if obs.is_player && obs.fishing_succeeded {
                    r.push(AnimationCommand::PickFishingReward);
                }
            },
            _ => {},
        }
    }
    proof {
        assert(r@ =~= action_begin_commands(state, *obs));
    }
    r
}

fn action_end(state: ActionAnimationState, obs: &ActionKeyframeObservation) -> (r: Vec<AnimationCommand>)
    ensures
        r@ == action_end_commands(state, *obs),
{
    let mut r: Vec<AnimationCommand> = Vec::new();
    match state {
        ActionAnimationState::Dance | ActionAnimationState::LayingDown | ActionAnimationState::Pickup
        | ActionAnimationState::WakeUp => {
            r.push(AnimationCommand::SetWeaponVisible(true));
        },
        ActionAnimationState::Dead => {
            r.push(AnimationCommand::SetWeaponVisible(true));
            r.push(AnimationCommand::SetInvincibility(false));
            r.push(AnimationCommand::SetIsDeadLoop(false));
        },
        ActionAnimationState::Sleep | ActionAnimationState::SleepNoSnoring => {
            if obs.is_player {
                r.push(AnimationCommand::StopSnoring);
            }
            r.push(AnimationCommand::SetWeaponVisible(true));
        },
        ActionAnimationState::Eating => {
            if obs.has_attached_item {
                r.push(AnimationCommand::ApplyEatingEffects);
            }
        },
        _ => {},
    }
    proof {
        assert(r@ =~= action_end_commands(state, *obs));
    }
    r
}

impl CharacterAnimationState {
    fn action_update(&mut self, state: ActionAnimationState, obs: &ActionKeyframeObservation) -> (r: Vec<
        AnimationCommand,
    >)
        ensures
            r@ == action_update_commands(state, *obs),
            *final(self) == action_update_state(*old(self), state, *obs),
    {
        let mut r: Vec<AnimationCommand> = Vec::new();
        match state {
            ActionAnimationState::Attack | ActionAnimationState::Kick | ActionAnimationState::Pickup
            | ActionAnimationState::PowerAttack => {
                if obs.event_time_reached {
                    let e = match state {
                        ActionAnimationState::Attack => ActionEvent::Attack,
                        ActionAnimationState::Kick => ActionEvent::Kick,
                        ActionAnimationState::Pickup => ActionEvent::Pickup,
                        _ => ActionEvent::PowerAttack,
                    };
                    self.set_action_event(e);
                    r.push(AnimationCommand::PlaySound(SoundCue::Attack));
                }
                if obs.animation_end {
                    self.set_action_none();
                } else if state == ActionAnimationState::Kick && obs.is_on_ground {
                    self.set_move_idle();
                    r.push(AnimationCommand::StopMoving);
                }
            },
            ActionAnimationState::Hit | ActionAnimationState::Eating | ActionAnimationState::Hungry
            | ActionAnimationState::WakeUp | ActionAnimationState::FishingEnd => {
                if obs.animation_end {
                    self.set_action_none();
                }
            },
            ActionAnimationState::Dead => {
                if obs.animation_end {
                    r.push(AnimationCommand::SetInvincibility(false));
                    r.push(AnimationCommand::SetIsDeadLoop(true));
                    if obs.is_player && !obs.is_teleport_mode {
                        r.push(AnimationCommand::RespawnAtHome);
                    }
                }
            },
            ActionAnimationState::LayingDown => {
                if obs.animation_end {
                    self.set_action_sleep();
                    r.push(AnimationCommand::StopMoving);
                }
            },
            ActionAnimationState::FishingBegin => {
                if obs.is_fishing_button_held {
                    r.push(AnimationCommand::UpdateFishingCast);
                } else {
                    r.push(AnimationCommand::ResetActionSpeed);
                }
                if obs.animation_end {
                    if obs.is_fishing_spot {
                        self.set_next_action_animation(ActionAnimationState::FishingLoop);
                    } else {
                        self.set_action_none();
                    }
                }
            },
            ActionAnimationState::FishingLoop => {
                r.push(AnimationCommand::UpdateFishingMinigame);
            },
            _ => {},
        }
        proof {
            assert(r@ =~= action_update_commands(state, *obs));
        }
        r
    }

    /// One stage of the action update of a character.
    pub fn action_keyframe_step(
        &mut self,
        stage: State,
        state: ActionAnimationState,
        obs: &ActionKeyframeObservation,
    ) -> (r: Vec<AnimationCommand>)
        ensures
            r@ == action_step_commands(stage, state, *obs),
            *final(self) == action_step_state(*old(self), stage, state, *obs),
    {
        match stage {
            State::Begin => action_begin(state, obs),
            State::Update => self.action_update(state, obs),
            State::End => action_end(state, obs),
        }
    }
}

/// A roll makes its character invincible as it begins and mortal again as
/// it ends, and so does death; the stages that begin and end a move or an
/// action never change the animation state.
pub proof fn lemma_invincibility_brackets(
    a: CharacterAnimationState,
    move_obs: MoveKeyframeObservation,
    action_obs: ActionKeyframeObservation,
)
    ensures
        move_step_commands(State::Begin, MoveAnimationState::Roll, move_obs).contains(
            AnimationCommand::SetInvincibility(true),
        ),
        move_step_commands(State::End, MoveAnimationState::Roll, move_obs).contains(
            AnimationCommand::SetInvincibility(false),
        ),
        action_step_commands(State::Begin, ActionAnimationState::Dead, action_obs).contains(
            AnimationCommand::SetInvincibility(true),
        ),
        action_step_commands(State::End, ActionAnimationState::Dead, action_obs).contains(
            AnimationCommand::SetInvincibility(false),
        ),
        forall|st: MoveAnimationState|
            move_step_state(a, State::Begin, st, move_obs) == a && move_step_state(a, State::End, st, move_obs) == a,
        forall|st: ActionAnimationState|
            action_step_state(a, State::Begin, st, action_obs) == a && action_step_state(
                a,
                State::End,
                st,
                action_obs,
            ) == a,
{
    assert(move_step_commands(State::Begin, MoveAnimationState::Roll, move_obs)[1]
        == AnimationCommand::SetInvincibility(true));
    assert(move_step_commands(State::End, MoveAnimationState::Roll, move_obs)[1]
        == AnimationCommand::SetInvincibility(false));
    assert(action_step_commands(State::Begin, ActionAnimationState::Dead, action_obs)[2]
        == AnimationCommand::SetInvincibility(true));
    assert(action_step_commands(State::End, ActionAnimationState::Dead, action_obs)[1]
        == AnimationCommand::SetInvincibility(false));
}

/// An action event is raised only while an attack, a kick or a pickup is
/// updated, at its key time, and it is that action's own event.
pub proof fn lemma_action_event_only_at_key_time(
    a: CharacterAnimationState,
    stage: State,
    st: ActionAnimationState,
    obs: ActionKeyframeObservation,
)
    ensures
        action_step_state(a, stage, st, obs)._action_event != a._action_event ==> stage == State::Update
            && obs.event_time_reached && action_key_event(st) == Some(
            action_step_state(a, stage, st, obs)._action_event,
        ),
{
}


/// At its key time an attack raises the attack event, a power attack the
/// power attack event, a kick the kick event and a pickup the pickup event;
/// each plays the attack sound then.
pub proof fn lemma_key_time_raises_event(a: CharacterAnimationState, obs: ActionKeyframeObservation)
    requires
        obs.event_time_reached,
    ensures
        action_step_state(a, State::Update, ActionAnimationState::Attack, obs)._action_event == ActionEvent::Attack,
        action_step_state(a, State::Update, ActionAnimationState::PowerAttack, obs)._action_event
            == ActionEvent::PowerAttack,
        action_step_state(a, State::Update, ActionAnimationState::Kick, obs)._action_event == ActionEvent::Kick,
        action_step_state(a, State::Update, ActionAnimationState::Pickup, obs)._action_event == ActionEvent::Pickup,
        action_step_commands(State::Update, ActionAnimationState::Attack, obs)[0] == AnimationCommand::PlaySound(
            SoundCue::Attack,
        ),
        action_step_commands(State::Update, ActionAnimationState::Kick, obs)[0] == AnimationCommand::PlaySound(
            SoundCue::Attack,
        ),
{
}

/// Actions that last as long as their clip ask for no action once the clip
/// ends; lying down turns into sleep; a cast rod goes into the water at a
/// fishing spot and is taken back elsewhere.
pub proof fn lemma_actions_end_with_their_clip(a: CharacterAnimationState, obs: ActionKeyframeObservation)
    requires
        obs.animation_end,
    ensures
        forall|st: ActionAnimationState|
            (st == ActionAnimationState::Attack || st == ActionAnimationState::PowerAttack || st
                == ActionAnimationState::Kick || st == ActionAnimationState::Pickup || st == ActionAnimationState::Hit
                || st == ActionAnimationState::Eating || st == ActionAnimationState::Hungry || st
                == ActionAnimationState::WakeUp || st == ActionAnimationState::FishingEnd) ==> #[trigger] action_step_state(
                a,
                State::Update,
                st,
                obs,
            )._next_action_animation_state == Some(ActionAnimationState::Nothing),
        action_step_state(a, State::Update, ActionAnimationState::LayingDown, obs)._next_action_animation_state
            == Some(ActionAnimationState::Sleep),
        obs.is_fishing_spot ==> action_step_state(
            a,
            State::Update,
            ActionAnimationState::FishingBegin,
            obs,
        )._next_action_animation_state == Some(ActionAnimationState::FishingLoop),
        !obs.is_fishing_spot ==> action_step_state(
            a,
            State::Update,
            ActionAnimationState::FishingBegin,
            obs,
        )._next_action_animation_state == Some(ActionAnimationState::Nothing),
{
}

/// A roll's clip ending stands the character idle and stops it, unless the
/// player's roll sound is due in that update; jumps play their sound as
/// they begin.
pub proof fn lemma_roll_and_jump(a: CharacterAnimationState, obs: MoveKeyframeObservation)
    ensures
        obs.animation_end && !(obs.is_player && obs.event_time_reached) ==> move_step_state(
            a,
            State::Update,
            MoveAnimationState::Roll,
            obs,
        ) == with_move_idle(a) && move_step_commands(State::Update, MoveAnimationState::Roll, obs) == seq![
            AnimationCommand::StopMoving,
        ],
        move_step_commands(State::Begin, MoveAnimationState::Jump, obs) == seq![
            AnimationCommand::PlayMoveClip(MoveAnimationState::Jump),
            AnimationCommand::PlaySound(SoundCue::Jump),
        ],
        move_step_commands(State::Begin, MoveAnimationState::RunningJump, obs) == seq![
            AnimationCommand::PlayMoveClip(MoveAnimationState::RunningJump),
            AnimationCommand::PlaySound(SoundCue::Jump),
        ],
{
}

} // verus!
