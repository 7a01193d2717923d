use vstd::prelude::*;
use crate::game_module::behavior::behavior_base::BehaviorState;

verus! {

/// The first roamer mind: it changes behavior at once, and keeps its
/// current behavior only.
#[derive(Clone, Copy, Debug, PartialEq, Eq, Structural)]
pub struct RoamerBehavior {
    pub _behavior_state: BehaviorState,
}

/// What the world tells the first roamer mind in one update.
#[derive(Clone, Copy, Debug, PartialEq, Eq, Structural)]
pub struct RoamerObservation {
    pub is_player_alive: bool,
    /// The living player stands within tracking range.
    pub is_enemy_in_range: bool,
    /// The player stands within twice the tracking range.
    pub is_player_in_chase_range: bool,
    pub is_player_in_attack_range: bool,
    /// The resting time has run out.
    pub is_idle_time_over: bool,
    /// Roaming time is left.
    pub has_move_time_left: bool,
    /// The roaming target is reached.
    pub is_arrived: bool,
    /// On the ground and blocked by an obstacle or a cliff.
    pub is_blocked: bool,
    pub has_attack_time_left: bool,
    pub is_attack_animation: bool,
}

/// The work the first roamer mind asks of the world.
#[derive(Clone, Copy, Debug, PartialEq, Eq, Structural)]
pub enum RoamerCommand {
    /// Stop moving.
    StopMoving,
    /// Rest for a random time.
    StartIdleTimer,
    /// Pick a place around the spawn point and walk toward it.
    StartRoaming,
    PlayGrowl,
    /// Turn toward the player.
    FaceTarget,
    Attack,
    /// Wait a random time before the next attack decision.
    StartAttackTimer,
    /// Run toward the player.
    ChaseTarget,
    CountDownIdleTime,
    CountDownMoveTime,
    CountDownAttackTime,
}

/// What beginning a behavior asks: resting stops and waits; roaming walks
/// off; chasing growls; attacking turns to the player, stops, strikes,
/// waits and growls.
pub open spec fn roamer_begin(state: BehaviorState) -> Seq<RoamerCommand> {
    match state {
        BehaviorState::Idle => seq![RoamerCommand::StopMoving, RoamerCommand::StartIdleTimer],
        BehaviorState::Move => seq![RoamerCommand::StartRoaming],
        BehaviorState::Chase => seq![RoamerCommand::PlayGrowl],
        BehaviorState::Attack => seq![
            RoamerCommand::FaceTarget,
            RoamerCommand::StopMoving,
            RoamerCommand::Attack,
            RoamerCommand::StartAttackTimer,
            RoamerCommand::PlayGrowl,
        ],
        _ => Seq::empty(),
    }
}

/// Switching behavior: a different (or forced) behavior becomes current
/// and begins.
pub open spec fn roamer_switch(current: BehaviorState, next: BehaviorState, is_force: bool) -> (BehaviorState, Seq<
    RoamerCommand,
>) {
    if current != next || is_force {
        (next, roamer_begin(next))
    } else {
        (current, Seq::empty())
    }
}

/// One update of the first roamer mind.
pub open spec fn roamer_updated(state: BehaviorState, obs: RoamerObservation) -> (BehaviorState, Seq<RoamerCommand>) {
    match state {
        BehaviorState::Nothing => roamer_switch(state, BehaviorState::Idle, false),
        BehaviorState::Idle => {
            let (s1, c1) = if obs.is_enemy_in_range {
                roamer_switch(state, BehaviorState::Chase, false)
            } else if obs.is_idle_time_over {
                roamer_switch(state, BehaviorState::Move, false)
            } else {
                (state, Seq::empty())
            };
            (s1, c1 + seq![RoamerCommand::CountDownIdleTime])
        },
        BehaviorState::Move => {
            let (s1, c1) = if obs.is_enemy_in_range {
                roamer_switch(state, BehaviorState::Chase, false)
            } else if !obs.has_move_time_left || obs.is_arrived || obs.is_blocked {
                roamer_switch(state, BehaviorState::Idle, false)
            } else {
                (state, Seq::empty())
            };
            (s1, c1 + seq![RoamerCommand::CountDownMoveTime])
        },
        BehaviorState::Chase => if obs.is_player_alive && obs.is_player_in_chase_range {
            if obs.is_player_in_attack_range {
                roamer_switch(state, BehaviorState::Attack, false)
            } else {
                (state, seq![RoamerCommand::ChaseTarget])
            }
        } else {
            roamer_switch(state, BehaviorState::Idle, false)
        },
        BehaviorState::Attack => if obs.is_player_alive && obs.has_attack_time_left {
            if !obs.is_attack_animation {
                (state, seq![RoamerCommand::StopMoving, RoamerCommand::CountDownAttackTime])
            } else {
                (state, Seq::empty())
            }
        } else {
            roamer_switch(state, BehaviorState::Idle, false)
        },
        _ => (state, Seq::empty()),
    }
}

impl RoamerBehavior {
    /// A new mind starts with no behavior.
    pub fn initialize_behavior(&mut self)
        ensures
            final(self)._behavior_state == BehaviorState::Nothing,
    {
        self._behavior_state = BehaviorState::Nothing;
    }

    /// Switches behavior, as `roamer_switch` states it.
    pub fn set_behavior(&mut self, behavior_state: BehaviorState, is_force: bool) -> (r: Vec<RoamerCommand>)
        ensures
            (final(self)._behavior_state, r@) == roamer_switch(old(self)._behavior_state, behavior_state, is_force),
    {
        let mut r: Vec<RoamerCommand> = Vec::new();
        if self._behavior_state != behavior_state || is_force {
            self._behavior_state = behavior_state;
            match behavior_state {
                BehaviorState::Idle => {
                    r.push(RoamerCommand::StopMoving);
                    r.push(RoamerCommand::StartIdleTimer);
                },
                BehaviorState::Move => r.push(RoamerCommand::StartRoaming),
                BehaviorState::Chase => r.push(RoamerCommand::PlayGrowl),
                BehaviorState::Attack => {
                    r.push(RoamerCommand::FaceTarget);
                    r.push(RoamerCommand::StopMoving);
                    r.push(RoamerCommand::Attack);
                    r.push(RoamerCommand::StartAttackTimer);
                    r.push(RoamerCommand::PlayGrowl);
                },
                _ => {},
            }
        }
        proof {
            assert(r@ =~= roamer_switch(old(self)._behavior_state, behavior_state, is_force).1);
        }
        r
    }

    /// One update of the mind, as `roamer_updated` states it.
    pub fn update_behavior(&mut self, obs: &RoamerObservation) -> (r: Vec<RoamerCommand>)
        ensures
            (final(self)._behavior_state, r@) == roamer_updated(old(self)._behavior_state, *obs),
    {
        match self._behavior_state {
            BehaviorState::Nothing => self.set_behavior(BehaviorState::Idle, false),
            BehaviorState::Idle => {
                let mut r = if obs.is_enemy_in_range {
                    self.set_behavior(BehaviorState::Chase, false)
                } else if obs.is_idle_time_over {
                    self.set_behavior(BehaviorState::Move, false)
                } else {
                    Vec::new()
                };
                r.push(RoamerCommand::CountDownIdleTime);
                r
            },
            BehaviorState::Move => {
                let mut r = if obs.is_enemy_in_range {
                    self.set_behavior(BehaviorState::Chase, false)
                } else if !obs.has_move_time_left || obs.is_arrived || obs.is_blocked {
                    self.set_behavior(BehaviorState::Idle, false)
                } else {
                    Vec::new()
                };
                r.push(RoamerCommand::CountDownMoveTime);
                r
            },
            BehaviorState::Chase => {
                if obs.is_player_alive && obs.is_player_in_chase_range {
                    if obs.is_player_in_attack_range {
                        self.set_behavior(BehaviorState::Attack, false)
                    } else {
                        let mut r: Vec<RoamerCommand> = Vec::new();
                        r.push(RoamerCommand::ChaseTarget);
                        r
                    }
                } else {
                    self.set_behavior(BehaviorState::Idle, false)
                }
            },
            BehaviorState::Attack => {
                if obs.is_player_alive && obs.has_attack_time_left {
                    let mut r: Vec<RoamerCommand> = Vec::new();
                    if !obs.is_attack_animation {
                        r.push(RoamerCommand::StopMoving);
                        r.push(RoamerCommand::CountDownAttackTime);
                    }
                    proof {
                        assert(r@ =~= roamer_updated(old(self)._behavior_state, *obs).1);
                    }
                    r
                } else {
                    self.set_behavior(BehaviorState::Idle, false)
                }
            },
            _ => Vec::new(),
        }
    }
}

} // verus!
