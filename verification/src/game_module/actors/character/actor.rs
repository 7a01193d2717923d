use vstd::prelude::*;
use crate::game_module::actors::character::character::{
    available_attack, with_move_idle, with_next_action, with_next_move,
};
use crate::game_module::actors::character::data::{
    is_attack_event_kind, power_of, ActionAnimationState, ActionEvent, CharacterDataType, CharacterPowerData,
    MoveAnimationState,
};
use crate::game_module::actors::character::stats::{clamp_upper_nonneg, CharacterAnimationState, CharacterStats};
use crate::game_module::actors::character::character::{idle_action, available_move};
use crate::game_module::actors::character::character::{
    action_step_commands, action_step_state, move_step_commands, move_step_state, ActionKeyframeObservation,
    AnimationCommand, MoveKeyframeObservation,
};
use crate::game_module::state_cycle::State;
use crate::game_module::actors::interaction_object::{choose_interaction_target, first_taming, InteractionKind};
use crate::game_module::behavior::behavior_base::{BehaviorData, BehaviorState};
use crate::game_module::game_client::{with_next, GameClient, GamePhase};
use crate::game_module::game_constants::{FALLING_DAMAGE_RATIO, MAX_CORPSE_HIT_COUNT};

verus! {

/// A character as the game rules see it: who it is, its life, its
/// animations and its mind.
#[derive(Clone, Copy, Debug, PartialEq, Eq, Structural)]
pub struct Character {
    pub _character_id: u64,
    pub _is_player: bool,
    pub _character_type: CharacterDataType,
    pub _power_data: CharacterPowerData,
    pub _character_stats: CharacterStats,
    pub _animation_state: CharacterAnimationState,
    pub _behavior: BehaviorData,
}

/// What a blow did to a character.
#[derive(Clone, Copy, Debug, PartialEq, Eq, Structural)]
pub enum DamageOutcome {
    /// Nothing happened: no damage, or a corpse that takes no more hits.
    Ignored,
    /// A living character lost health and lives on.
    Hurt,
    /// A living character lost its last health.
    Died,
    /// A corpse took one of its hits.
    CorpseHit,
}

/// A dead, untamed character that is no civilian and lies still in its
/// death pose.
pub open spec fn corpse(c: Character) -> bool {
    !c._character_stats._is_alive && !c._character_stats._is_tamed && c._character_type
        != CharacterDataType::Civilian && c._character_stats._is_dead_loop
}

/// The character after it dies: it stops living, its corpse gets all its
/// hits back, its stats are hidden, and it is asked to play the death
/// action and to take on the dead behavior at once.
pub open spec fn dead_of(c: Character) -> Character {
    Character {
        _character_stats: CharacterStats {
            _is_alive: false,
            _corpse_hit_count: MAX_CORPSE_HIT_COUNT,
            _is_stat_displayed: false,
            ..c._character_stats
        },
        _animation_state: with_next_action(with_move_idle(c._animation_state), ActionAnimationState::Dead),
        _behavior: BehaviorData {
            _next_behavior_state: BehaviorState::Dead,
            _is_force: true,
            ..c._behavior
        },
        ..c
    }
}

/// The character after a blow of the given damage, and what the blow did.
/// A blow that does no damage does nothing. A living character loses the
/// damage from its health (kept between zero and its maximum) and dies when
/// that leaves nothing; a player that survives and is not rolling flinches.
/// A corpse that is not tamed loses one of its hits while it has any.
pub open spec fn damaged(c: Character, damage: i32) -> (Character, DamageOutcome) {
    let stats = c._character_stats;
    if damage <= 0 {
        (c, DamageOutcome::Ignored)
    } else if stats._is_alive {
        let hp = stats._hp - damage;
        let c1 = Character {
            _character_stats: CharacterStats {
                _hp: clamp_upper_nonneg(hp, stats._max_hp as int) as i32,
                ..stats
            },
            ..c
        };
        if hp <= 0 {
            (dead_of(c1), DamageOutcome::Died)
        } else if c._is_player && c._animation_state._move_animation_state != MoveAnimationState::Roll {
            (
                Character {
                    _animation_state: with_next_action(c1._animation_state, ActionAnimationState::Hit),
                    ..c1
                },
                DamageOutcome::Hurt,
            )
        } else {
            (c1, DamageOutcome::Hurt)
        }
    } else if !stats._is_tamed && 0 < stats._corpse_hit_count {
        (
            Character {
                _character_stats: CharacterStats {
                    _corpse_hit_count: (stats._corpse_hit_count - 1) as i32,
                    ..stats
                },
                ..c
            },
            DamageOutcome::CorpseHit,
        )
    } else {
        (c, DamageOutcome::Ignored)
    }
}

/// The character after taming: it lives again with full health and its
/// corpse hits back, and is asked to wake up at once.
pub open spec fn tamed_of(c: Character) -> Character {
    let stats = c._character_stats;
    Character {
        _character_stats: CharacterStats {
            _is_tamed: true,
            _is_alive: true,
            _corpse_hit_count: MAX_CORPSE_HIT_COUNT,
            _hp: clamp_upper_nonneg(stats._max_hp as int, stats._max_hp as int) as i32,
            ..stats
        },
        _behavior: BehaviorData { _next_behavior_state: BehaviorState::WakeUp, _is_force: true, ..c._behavior },
        ..c
    }
}

/// The work an interaction of the player asks of the world.
#[derive(Clone, Copy, Debug, PartialEq, Eq, Structural)]
pub enum InteractionCommand {
    /// Go to bed: the scenario that wraps up the day starts.
    OpenWrapUpTheDayScenario,
    /// The toolbox opens.
    OpenToolbox,
    /// Turn to face the target.
    LookAtTarget,
    /// Talk to the character in front; when `fed`, hand it the food held.
    TalkToNpc { fed: bool },
    /// Tame the corpse in front, leaving an energy ball where it lay.
    TameTarget,
    /// Take a piece of the corpse in front.
    FarmTarget,
}

/// What the player interacts with: the first taming at hand, else the
/// nearest interaction.
pub open spec fn interaction_target(held: Seq<InteractionKind>, nearest: InteractionKind) -> InteractionKind {
    if first_taming(held, held.len() as int) is Some {
        InteractionKind::Taming
    } else {
        nearest
    }
}

/// The player may interact when standing on the ground, free to move and
/// doing nothing else.
pub open spec fn can_interact(c: Character, is_on_ground: bool) -> bool {
    is_on_ground && available_move(c._animation_state, c._character_stats._is_alive, is_on_ground)
        && idle_action(c._animation_state)
}

/// The player after interacting with a target of the given kind.
pub open spec fn interacted(c: Character, is_on_ground: bool, target: InteractionKind) -> Character {
    let a = c._animation_state;
    if !can_interact(c, is_on_ground) {
        c
    } else {
        match target {
            InteractionKind::PropBed | InteractionKind::PropMonolith => Character {
                _animation_state: with_move_idle(a),
                ..c
            },
            InteractionKind::PropPickup | InteractionKind::Taming | InteractionKind::Farming => Character {
                _animation_state: with_next_action(a, ActionAnimationState::Pickup),
                ..c
            },
            InteractionKind::PropTable => Character {
                _animation_state: if a._move_animation_state == MoveAnimationState::SitDownLoop {
                    with_move_idle(a)
                } else {
                    with_next_move(a, MoveAnimationState::SitDownLoop)
                },
                ..c
            },
            _ => c,
        }
    }
}

/// The work asked by interacting with a target of the given kind. A
/// character that holds nothing is fed when the player holds food.
pub open spec fn interaction_commands(
    c: Character,
    is_on_ground: bool,
    target: InteractionKind,
    player_holds_eatable: bool,
    target_holds_item: bool,
) -> Seq<InteractionCommand> {
    if !can_interact(c, is_on_ground) {
        Seq::empty()
    } else {
        match target {
            InteractionKind::PropBed => seq![InteractionCommand::OpenWrapUpTheDayScenario],
            InteractionKind::PropMonolith => seq![InteractionCommand::OpenToolbox],
            InteractionKind::PropTable => seq![InteractionCommand::LookAtTarget],
            InteractionKind::Npc => seq![
                InteractionCommand::LookAtTarget,
                InteractionCommand::TalkToNpc { fed: !target_holds_item && player_holds_eatable },
            ],
            InteractionKind::Taming => seq![InteractionCommand::TameTarget],
            InteractionKind::Farming => seq![InteractionCommand::FarmTarget],
            _ => Seq::empty(),
        }
    }
}

impl Character {
    /// The stats of the character are well formed.
    pub open spec fn wf(&self) -> bool {
        self._character_stats.wf()
    }

    pub fn is_player(&self) -> (r: bool)
        ensures
            r == self._is_player,
    {
        self._is_player
    }

    pub fn is_alive(&self) -> (r: bool)
        ensures
            r == self._character_stats._is_alive,
    {
        self._character_stats._is_alive
    }

    pub fn is_tamed(&self) -> (r: bool)
        ensures
            r == self._character_stats._is_tamed,
    {
        self._character_stats._is_tamed
    }

    pub fn is_civilian(&self) -> (r: bool)
        ensures
            r == (self._character_type == CharacterDataType::Civilian),
    {
        self._character_type == CharacterDataType::Civilian
    }

    pub fn is_corpse(&self) -> (r: bool)
        ensures
            r == corpse(*self),
    {
        !self.is_alive() && !self.is_tamed() && !self.is_civilian() && self._character_stats._is_dead_loop
    }

    pub fn set_tamed(&mut self, is_tamed: bool)
        ensures
            *final(self) == (Character {
                _character_stats: CharacterStats { _is_tamed: is_tamed, ..old(self)._character_stats },
                ..*old(self)
            }),
    {
        self._character_stats._is_tamed = is_tamed;
    }

    pub fn get_corpse_hit_count(&self) -> (r: i32)
        ensures
            r == self._character_stats._corpse_hit_count,
    {
        self._character_stats._corpse_hit_count
    }

    /// The damage of one of the character's attacks.
    pub fn get_power(&self, attack_event: ActionEvent) -> (r: i32)
        requires
            is_attack_event_kind(attack_event),
        ensures
            r == power_of(attack_event, self._power_data),
    {
        self._power_data.get_power(attack_event)
    }

    pub fn set_next_behavior(&mut self, behavior_state: BehaviorState, is_force: bool)
        ensures
            *final(self) == (Character {
                _behavior: BehaviorData {
                    _next_behavior_state: behavior_state,
                    _is_force: is_force,
                    ..old(self)._behavior
                },
                ..*old(self)
            }),
    {
        self._behavior.set_next_behavior_state(behavior_state, is_force);
    }

    /// Forces the character's mind to rest.
    pub fn set_behavior_none(&mut self)
        ensures
            *final(self) == (Character {
                _behavior: BehaviorData {
                    _next_behavior_state: BehaviorState::Nothing,
                    _is_force: true,
                    ..old(self)._behavior
                },
                ..*old(self)
            }),
    {
        self.set_next_behavior(BehaviorState::Nothing, true);
    }

    pub fn set_invincibility(&mut self, invincibility: bool)
        ensures
            *final(self) == (Character {
                _character_stats: CharacterStats { _invincibility: invincibility, ..old(self)._character_stats },
                ..*old(self)
            }),
    {
        self._character_stats._invincibility = invincibility;
    }

    pub fn set_is_dead_loop(&mut self, is_dead_loop: bool)
        ensures
            *final(self) == (Character {
                _character_stats: CharacterStats { _is_dead_loop: is_dead_loop, ..old(self)._character_stats },
                ..*old(self)
            }),
    {
        self._character_stats._is_dead_loop = is_dead_loop;
    }

    /// The character dies.
    pub fn set_dead(&mut self)
        ensures
            *final(self) == dead_of(*old(self)),
    {
        self._character_stats._is_alive = false;
        self._character_stats._corpse_hit_count = MAX_CORPSE_HIT_COUNT;
        self._character_stats.set_is_stat_displayed(false);
        self._animation_state.set_action_dead();
        self.set_next_behavior(BehaviorState::Dead, true);
    }

    /// Takes a blow. The caller plays the sound of pain or death that the
    /// outcome names.
    pub fn set_damage(&mut self, damage: i32) -> (r: DamageOutcome)
        requires
            old(self)._character_stats._is_alive && 0 < damage ==> i32::MIN <= old(self)._character_stats._hp - damage,
        ensures
            (*final(self), r) == damaged(*old(self), damage),
    {
        if 0 < damage {
            if self.is_alive() {
                let hp = self._character_stats.get_hp() - damage;
                self._character_stats.set_hp(hp);
                if hp <= 0 {
                    self.set_dead();
                    DamageOutcome::Died
                } else {
                    if self._is_player && !self._animation_state.is_move_state(MoveAnimationState::Roll) {
                        self._animation_state.set_action_hit();
                    }
                    DamageOutcome::Hurt
                }
            } else if !self.is_tamed() && 0 < self._character_stats._corpse_hit_count {
                self._character_stats._corpse_hit_count = self._character_stats._corpse_hit_count - 1;
                DamageOutcome::CorpseHit
            } else {
                DamageOutcome::Ignored
            }
        } else {
            DamageOutcome::Ignored
        }
    }

    /// Takes a visible hit: a blow with its flash, effect and sound, all
    /// of which the caller shows when the result is some outcome. A hit of
    /// no damage shows nothing.
    pub fn set_hit_damage(&mut self, damage: i32) -> (r: Option<DamageOutcome>)
        requires
            old(self)._character_stats._is_alive && 0 < damage ==> i32::MIN <= old(self)._character_stats._hp - damage,
        ensures
            r.is_some() == (0 < damage),
            r matches Some(o) ==> (*final(self), o) == damaged(*old(self), damage),
            r.is_none() ==> *final(self) == *old(self),
    {
        if 0 < damage {
            Some(self.set_damage(damage))
        } else {
            None
        }
    }

    /// Falling into water costs all the health the character has.
    pub fn check_falling_in_water_damage(&mut self) -> (r: DamageOutcome)
        ensures
            (*final(self), r) == damaged(*old(self), old(self)._character_stats._hp),
    {
        let hp = self._character_stats.get_hp();
        self.set_damage(hp)
    }

    /// A fall from beyond the safe height hurts: the given number of started
    /// units fallen beyond it, times the falling damage ratio.
    pub fn check_falling_on_ground_damage(&mut self, fallen_units: i32) -> (r: Option<DamageOutcome>)
        requires
            i32::MIN <= fallen_units * FALLING_DAMAGE_RATIO <= i32::MAX,
            old(self)._character_stats._is_alive && 0 < fallen_units * FALLING_DAMAGE_RATIO ==> i32::MIN <= old(
                self,
            )._character_stats._hp - fallen_units * FALLING_DAMAGE_RATIO,
        ensures
            r.is_some() == (0 < fallen_units * FALLING_DAMAGE_RATIO),
            r matches Some(o) ==> (*final(self), o) == damaged(
                *old(self),
                (fallen_units * FALLING_DAMAGE_RATIO) as i32,
            ),
            r.is_none() ==> *final(self) == *old(self),
    {
        let falling_damage: i32 = fallen_units * FALLING_DAMAGE_RATIO;
        self.set_hit_damage(falling_damage)
    }

    /// Tames the character.
    pub fn tame(&mut self)
        ensures
            *final(self) == tamed_of(*old(self)),
    {
        self._character_stats._is_tamed = true;
        self._character_stats._is_alive = true;
        self._character_stats._corpse_hit_count = MAX_CORPSE_HIT_COUNT;
        let max_hp = self._character_stats.get_max_hp();
        self._character_stats.set_hp(max_hp);
        self.set_next_behavior(BehaviorState::WakeUp, true);
    }

    /// The player interacts with what it has at hand: a taming before
    /// anything else, else the nearest interaction. `held` lists the
    /// interactions at hand, `target_holds_item` tells whether the chosen
    /// target holds an item. Only a player standing on the ground, free to
    /// move and doing nothing else interacts.
    pub fn set_action_interaction(
        &mut self,
        is_on_ground: bool,
        held: &Vec<InteractionKind>,
        nearest: InteractionKind,
        player_holds_eatable: bool,
        target_holds_item: bool,
    ) -> (r: Vec<InteractionCommand>)
        ensures
            *final(self) == interacted(*old(self), is_on_ground, interaction_target(held@, nearest)),
            r@ == interaction_commands(
                *old(self),
                is_on_ground,
                interaction_target(held@, nearest),
                player_holds_eatable,
                target_holds_item,
            ),
    {
        let target = match choose_interaction_target(held) {
            Some(_) => InteractionKind::Taming,
            None => nearest,
        };
        self.interact_with(is_on_ground, target, player_holds_eatable, target_holds_item)
    }

    /// The player interacts with the given target.
    fn interact_with(
        &mut self,
        is_on_ground: bool,
        target: InteractionKind,
        player_holds_eatable: bool,
        target_holds_item: bool,
    ) -> (r: Vec<InteractionCommand>)
        ensures
            *final(self) == interacted(*old(self), is_on_ground, target),
            r@ == interaction_commands(*old(self), is_on_ground, target, player_holds_eatable, target_holds_item),
    {
        let mut r: Vec<InteractionCommand> = Vec::new();
        let alive = self.is_alive();
        if is_on_ground && self._animation_state.is_available_move(alive, is_on_ground)
            && self._animation_state.is_idle_action() {
            match target {
                InteractionKind::PropBed => {
                    self._animation_state.set_move_idle();
                    r.push(InteractionCommand::OpenWrapUpTheDayScenario);
                },
                InteractionKind::PropPickup => {
                    self._animation_state.set_next_action_animation(ActionAnimationState::Pickup);
                },
                InteractionKind::PropMonolith => {
                    r.push(InteractionCommand::OpenToolbox);
                    self._animation_state.set_move_idle();
                },
                InteractionKind::PropTable => {
                    r.push(InteractionCommand::LookAtTarget);
                    if self._animation_state.is_move_state(MoveAnimationState::SitDownLoop) {
                        self._animation_state.set_move_idle();
                    } else {
                        self._animation_state.set_sit_down();
                    }
                },
                InteractionKind::Npc => {
                    r.push(InteractionCommand::LookAtTarget);
                    let fed = !target_holds_item && player_holds_eatable;
                    r.push(InteractionCommand::TalkToNpc { fed });
                },
                InteractionKind::Taming => {
                    self._animation_state.set_next_action_animation(ActionAnimationState::Pickup);
                    r.push(InteractionCommand::TameTarget);
                },
                InteractionKind::Farming => {
                    self._animation_state.set_next_action_animation(ActionAnimationState::Pickup);
                    r.push(InteractionCommand::FarmTarget);
                },
                _ => {},
            }
        }
        proof {
            assert(r@ =~= interaction_commands(*old(self), is_on_ground, target, player_holds_eatable, target_holds_item));
        }
        r
    }

    /// Being talked to: the character turns to the talk, and shows its
    /// stats unless it was just fed.
    pub fn receive_talk(&mut self, fed: bool)
        ensures
            *final(self) == (Character {
                _behavior: BehaviorData {
                    _next_behavior_state: BehaviorState::Interaction,
                    _is_force: false,
                    ..old(self)._behavior
                },
                _character_stats: CharacterStats {
                    _is_stat_displayed: if fed { old(self)._character_stats._is_stat_displayed } else { true },
                    ..old(self)._character_stats
                },
                ..*old(self)
            }),
    {
        self.set_next_behavior(BehaviorState::Interaction, false);
        if !fed {
            self._character_stats.set_is_stat_displayed(true);
        }
    }

    /// A corpse gives a piece of itself: a hit of one damage. The result
    /// tells whether the corpse is used up.
    pub fn receive_farming(&mut self) -> (r: bool)
        requires
            old(self).wf(),
        ensures
            *final(self) == damaged(*old(self), 1).0,
            r == (final(self)._character_stats._corpse_hit_count <= 0),
    {
        self.set_hit_damage(1);
        self._character_stats._corpse_hit_count <= 0
    }

    /// When the nearest interaction becomes a gate, the player stops and
    /// the world map opens.
    pub fn callback_changed_interaction_object(&mut self, nearest: InteractionKind, client: &mut GameClient)
        ensures
            *final(self) == (if nearest == InteractionKind::PropGate {
                Character { _animation_state: with_move_idle(old(self)._animation_state), ..*old(self) }
            } else {
                *old(self)
            }),
            final(client)@ == (if nearest == InteractionKind::PropGate {
                with_next(old(client)@, GamePhase::WorldMapOpen)
            } else {
                old(client)@
            }),
    {
        if nearest == InteractionKind::PropGate {
            client.set_next_game_phase(GamePhase::WorldMapOpen);
            self._animation_state.set_move_idle();
        }
    }

    /// Whether the character is taken away as a corpse: a dead character
    /// other than a civilian, once it has lain long enough.
    pub fn is_expired_corpse(&self, has_lain_long_enough: bool) -> (r: bool)
        ensures
            r == (!self._character_stats._is_alive && self._character_type != CharacterDataType::Civilian
                && has_lain_long_enough),
    {
        !self.is_alive() && !self.is_civilian() && has_lain_long_enough
    }

    /// Running can be switched on or off while walking or running.
    pub fn can_toggle_run(&self) -> (r: bool)
        ensures
            r == (self._animation_state._move_animation_state == MoveAnimationState::Run
                || self._animation_state._move_animation_state == MoveAnimationState::Walk),
    {
        self._animation_state.is_move_state(MoveAnimationState::Run) || self._animation_state.is_move_state(
            MoveAnimationState::Walk,
        )
    }

    /// Asks for an attack.
    pub fn set_action_attack(&mut self)
        ensures
            *final(self) == (Character {
                _animation_state: with_next_action(old(self)._animation_state, ActionAnimationState::Attack),
                ..*old(self)
            }),
    {
        self._animation_state.set_next_action_animation(ActionAnimationState::Attack);
    }

    /// Asks for a power attack.
    pub fn set_action_power_attack(&mut self)
        ensures
            *final(self) == (Character {
                _animation_state: with_next_action(old(self)._animation_state, ActionAnimationState::PowerAttack),
                ..*old(self)
            }),
    {
        self._animation_state.set_next_action_animation(ActionAnimationState::PowerAttack);
    }

    /// Kicks when an attack is possible, stopping first; otherwise does
    /// nothing.
    pub fn set_action_kick(&mut self, is_on_ground: bool, attack_delay_passed: bool, kick_delay_passed: bool) -> (r:
        bool)
        ensures
            r == available_attack(
                old(self)._animation_state,
                old(self)._character_stats._is_alive,
                is_on_ground,
                attack_delay_passed,
                kick_delay_passed,
            ),
            *final(self) == (if r {
                Character {
                    _animation_state: with_next_action(
                        with_move_idle(old(self)._animation_state),
                        ActionAnimationState::Kick,
                    ),
                    ..*old(self)
                }
            } else {
                *old(self)
            }),
    {
        let alive = self.is_alive();
        if self._animation_state.is_available_attack(alive, is_on_ground, attack_delay_passed, kick_delay_passed) {
            self._animation_state.set_move_idle();
            self._animation_state.set_next_action_animation(ActionAnimationState::Kick);
            true
        } else {
            false
        }
    }
}

/// A blow keeps a well-formed character well formed, never raises its
/// health, never brings the dead back to life, and kills exactly a living
/// character whose health does not cover a positive damage.
pub proof fn lemma_damage_laws(c: Character, damage: i32)
    requires
        c.wf(),
    ensures
        damaged(c, damage).0.wf(),
        damaged(c, damage).0._character_stats._hp <= c._character_stats._hp,
        !c._character_stats._is_alive ==> !damaged(c, damage).0._character_stats._is_alive,
        (damaged(c, damage).1 == DamageOutcome::Died) <==> (c._character_stats._is_alive && 0 < damage
            && c._character_stats._hp <= damage),
        damaged(c, damage).0._is_player == c._is_player,
        damaged(c, damage).0._character_type == c._character_type,
{
}

/// What interacting asks of the world, kind by kind, for a player that can
/// interact: the bed wraps up the day, the monolith opens the toolbox, a
/// table is faced, a character is faced and talked to (fed when the player
/// holds food and it holds nothing), a corpse is tamed or farmed; a player
/// that cannot interact asks for nothing and stays as it was.
pub proof fn lemma_interaction_asks(c: Character, g: bool, eatable: bool, holds: bool)
    ensures
        can_interact(c, g) ==> interaction_commands(c, g, InteractionKind::PropBed, eatable, holds)
            == seq![InteractionCommand::OpenWrapUpTheDayScenario],
        can_interact(c, g) ==> interaction_commands(c, g, InteractionKind::PropMonolith, eatable, holds)
            == seq![InteractionCommand::OpenToolbox],
        can_interact(c, g) ==> interaction_commands(c, g, InteractionKind::PropTable, eatable, holds)
            == seq![InteractionCommand::LookAtTarget],
        can_interact(c, g) ==> interaction_commands(c, g, InteractionKind::Npc, eatable, holds) == seq![
            InteractionCommand::LookAtTarget,
            InteractionCommand::TalkToNpc { fed: eatable && !holds },
        ],
        can_interact(c, g) ==> interaction_commands(c, g, InteractionKind::Taming, eatable, holds)
            == seq![InteractionCommand::TameTarget],
        can_interact(c, g) ==> interaction_commands(c, g, InteractionKind::Farming, eatable, holds)
            == seq![InteractionCommand::FarmTarget],
        can_interact(c, g) ==> interaction_commands(c, g, InteractionKind::PropPickup, eatable, holds)
            == Seq::<InteractionCommand>::empty(),
        can_interact(c, g) ==> interacted(c, g, InteractionKind::Taming)._animation_state._next_action_animation_state
            == Some(ActionAnimationState::Pickup),
        can_interact(c, g) ==> interacted(c, g, InteractionKind::Farming)._animation_state._next_action_animation_state
            == Some(ActionAnimationState::Pickup),
        can_interact(c, g) ==> interacted(c, g, InteractionKind::PropPickup)._animation_state._next_action_animation_state
            == Some(ActionAnimationState::Pickup),
        forall|k: InteractionKind|
            !can_interact(c, g) ==> #[trigger] interaction_commands(c, g, k, eatable, holds) == Seq::<
                InteractionCommand,
            >::empty() && interacted(c, g, k) == c,
{
}

/// A living player standing on the ground, not rolling and doing nothing
/// (or only looking hungry) can interact; a dead one, one in the air, or
/// one busy with another action or rolling cannot.
pub proof fn lemma_who_can_interact(c: Character, g: bool)
    ensures
        c._character_stats._is_alive && g && c._animation_state._move_animation_state != MoveAnimationState::Roll
            && c._animation_state._action_animation_state == ActionAnimationState::Nothing ==> can_interact(c, g),
        !c._character_stats._is_alive ==> !can_interact(c, g),
        !g ==> !can_interact(c, g),
        c._animation_state._move_animation_state == MoveAnimationState::Roll ==> !can_interact(c, g),
        c._animation_state._action_animation_state != ActionAnimationState::Nothing
            && c._animation_state._action_animation_state != ActionAnimationState::Hungry ==> !can_interact(c, g),
{
}

/// A taming at hand is what the player interacts with, whatever is
/// nearest; without one, it is the nearest.
pub proof fn lemma_taming_comes_first(held: Seq<InteractionKind>, nearest: InteractionKind, i: int)
    requires
        0 <= i < held.len(),
        held[i] == InteractionKind::Taming,
    ensures
        interaction_target(held, nearest) == InteractionKind::Taming,
        forall|k: InteractionKind| interaction_target(Seq::empty(), k) == k,
{
    lemma_first_taming_found(held, i, held.len() as int);
}

/// A positive blow on a living character takes the damage from its health,
/// kept between zero and its maximum; a blow of no damage changes nothing;
/// a hurt player that is not rolling flinches.
pub proof fn lemma_damage_takes_health(c: Character, damage: i32)
    ensures
        damage <= 0 ==> damaged(c, damage) == (c, DamageOutcome::Ignored),
        0 < damage && c._character_stats._is_alive ==> damaged(c, damage).0._character_stats._hp
            == clamp_upper_nonneg(c._character_stats._hp - damage, c._character_stats._max_hp as int),
        0 < damage && c._character_stats._is_alive && damage < c._character_stats._hp ==> damaged(c, damage).1
            == DamageOutcome::Hurt && damaged(c, damage).0._character_stats._is_alive,
        0 < damage && c._character_stats._is_alive && damage < c._character_stats._hp && c._is_player
            && c._animation_state._move_animation_state != MoveAnimationState::Roll ==> damaged(
            c,
            damage,
        ).0._animation_state._next_action_animation_state == Some(ActionAnimationState::Hit),
        0 < damage && !c._character_stats._is_alive ==> damaged(c, damage).0._character_stats._hp
            == c._character_stats._hp,
{
}

/// The corpse of a character that has just died takes exactly its number
/// of hits; every further blow does nothing.
pub proof fn lemma_corpse_used_up(c: Character, damage: i32)
    requires
        !c._character_stats._is_alive,
        !c._character_stats._is_tamed,
        c._character_stats._corpse_hit_count == MAX_CORPSE_HIT_COUNT,
        0 < damage,
    ensures
        ({
            let c1 = damaged(c, damage);
            let c2 = damaged(c1.0, damage);
            let c3 = damaged(c2.0, damage);
            &&& c1.1 == DamageOutcome::CorpseHit
            &&& c2.1 == DamageOutcome::CorpseHit
            &&& c3.1 == DamageOutcome::CorpseHit
            &&& c3.0._character_stats._corpse_hit_count == 0
            &&& damaged(c3.0, damage) == (c3.0, DamageOutcome::Ignored)
        }),
{
}

/// A taming at position `i` is found within every prefix that holds it.
proof fn lemma_first_taming_found(held: Seq<InteractionKind>, i: int, n: int)
    requires
        0 <= i < n <= held.len(),
        held[i] == InteractionKind::Taming,
    ensures
        first_taming(held, n) is Some,
    decreases n,
{
    if n - 1 > i {
        lemma_first_taming_found(held, i, n - 1);
    }
}

/// A tamed character is alive, no corpse, has its full health and all
/// its corpse hits, and is about to wake up.
pub proof fn lemma_tame_revives(c: Character)
    requires
        c.wf(),
    ensures
        tamed_of(c).wf(),
        tamed_of(c)._character_stats._is_alive,
        !corpse(tamed_of(c)),
        tamed_of(c)._character_stats._hp == c._character_stats._max_hp,
        tamed_of(c)._behavior._next_behavior_state == BehaviorState::WakeUp,
{
}


/// The health eating gives.
pub const EATING_HP_GAIN: i32 = 10;

/// The stats after one command of an animation update that changes the
/// character itself: its invincibility, whether it lies still in death,
/// and the health eating gives (kept between zero and its maximum). Any
/// other command is the world's work and leaves the stats as they are.
pub open spec fn with_own_effect(s: CharacterStats, cmd: AnimationCommand) -> CharacterStats {
    match cmd {
        AnimationCommand::SetInvincibility(b) => CharacterStats { _invincibility: b, ..s },
        AnimationCommand::SetIsDeadLoop(b) => CharacterStats { _is_dead_loop: b, ..s },
        AnimationCommand::ApplyEatingEffects => CharacterStats {
            _hp: clamp_upper_nonneg(s._hp + EATING_HP_GAIN, s._max_hp as int) as i32,
            ..s
        },
        _ => s,
    }
}

/// The stats after the commands, in order.
pub open spec fn with_own_effects(s: CharacterStats, cmds: Seq<AnimationCommand>) -> CharacterStats
    decreases cmds.len(),
{
    if cmds.len() == 0 {
        s
    } else {
        with_own_effect(with_own_effects(s, cmds.drop_last()), cmds.last())
    }
}

impl Character {
    /// Applies to the character the commands of an animation update that
    /// change it; the others are left to the world.
    pub fn apply_own_animation_effects(&mut self, cmds: &Vec<AnimationCommand>)
        ensures
            *final(self) == (Character {
                _character_stats: with_own_effects(old(self)._character_stats, cmds@),
                ..*old(self)
            }),
            old(self).wf() ==> final(self).wf(),
    {
        let ghost c0 = *self;
        let mut i: usize = 0;
        while i < cmds.len()
            invariant
                i <= cmds@.len(),
                *self == (Character {
                    _character_stats: with_own_effects(c0._character_stats, cmds@.subrange(0, i as int)),
                    ..c0
                }),
                c0.wf() ==> self.wf(),
                self._character_stats._max_hp == c0._character_stats._max_hp,
            decreases cmds@.len() - i,
        {
            let cmd = cmds[i];
            match cmd {
                AnimationCommand::SetInvincibility(b) => {
                    self._character_stats._invincibility = b;
                },
                AnimationCommand::SetIsDeadLoop(b) => {
                    self._character_stats._is_dead_loop = b;
                },
                AnimationCommand::ApplyEatingEffects => {
                    let hp: i64 = self._character_stats._hp as i64 + EATING_HP_GAIN as i64;
                    let low: i64 = if hp < 0 { 0 } else { hp };
                    let max_hp = self._character_stats._max_hp;
                    self._character_stats._hp = if (max_hp as i64) < low { max_hp } else { low as i32 };
                },
                _ => {},
            }
            proof {
                let t = cmds@.subrange(0, i + 1);
                assert(t.drop_last() =~= cmds@.subrange(0, i as int));
                assert(t.last() == cmd);
            }
            i = i + 1;
        }
        proof {
            assert(cmds@.subrange(0, cmds@.len() as int) =~= cmds@);
        }
    }

    /// One stage of the move update of the character: the animation state
    /// moves on, the character's own effects (the invincibility of a roll)
    /// are applied, and the work of the stage comes back; the pause after a
    /// roll and the rest are the world's.
    pub fn update_move_keyframe_event(&mut self, stage: State, state: MoveAnimationState, obs: &MoveKeyframeObservation) -> (r:
        Vec<AnimationCommand>)
        ensures
            r@ == move_step_commands(stage, state, *obs),
            *final(self) == (Character {
                _animation_state: move_step_state(old(self)._animation_state, stage, state, *obs),
                _character_stats: with_own_effects(old(self)._character_stats, r@),
                ..*old(self)
            }),
            old(self).wf() ==> final(self).wf(),
    {
        let r = self._animation_state.move_keyframe_step(stage, state, obs);
        self.apply_own_animation_effects(&r);
        r
    }

    /// One stage of the action update of the character: the animation
    /// state moves on, the character's own effects (invincibility and the
    /// still pose of death, the health eating gives) are applied, and the
    /// work of the stage comes back.
    pub fn update_action_keyframe_event(
        &mut self,
        stage: State,
        state: ActionAnimationState,
        obs: &ActionKeyframeObservation,
    ) -> (r: Vec<AnimationCommand>)
        ensures
            r@ == action_step_commands(stage, state, *obs),
            *final(self) == (Character {
                _animation_state: action_step_state(old(self)._animation_state, stage, state, *obs),
                _character_stats: with_own_effects(old(self)._character_stats, r@),
                ..*old(self)
            }),
            old(self).wf() ==> final(self).wf(),
    {
        let r = self._animation_state.action_keyframe_step(stage, state, obs);
        self.apply_own_animation_effects(&r);
        r
    }
}

/// A roll makes the character invincible as it begins and mortal again as
/// it ends; dying makes it invincible, and the end of the death clip makes
/// it mortal and lying still.
pub proof fn lemma_roll_and_death_invincibility(
    s: CharacterStats,
    mobs: MoveKeyframeObservation,
    aobs: ActionKeyframeObservation,
)
    ensures
        with_own_effects(s, move_step_commands(State::Begin, MoveAnimationState::Roll, mobs))._invincibility,
        !with_own_effects(s, move_step_commands(State::End, MoveAnimationState::Roll, mobs))._invincibility,
        with_own_effects(s, action_step_commands(State::Begin, ActionAnimationState::Dead, aobs))._invincibility,
        aobs.animation_end ==> {
            let d = with_own_effects(s, action_step_commands(State::Update, ActionAnimationState::Dead, aobs));
            !d._invincibility && d._is_dead_loop
        },
{
    reveal_with_fuel(with_own_effects, 5);
    let b = move_step_commands(State::Begin, MoveAnimationState::Roll, mobs);
    assert(b.drop_last().drop_last().len() == 0);
    let e = move_step_commands(State::End, MoveAnimationState::Roll, mobs);
    assert(e.drop_last().drop_last().len() == 0);
    let d = action_step_commands(State::Begin, ActionAnimationState::Dead, aobs);
    assert(d.drop_last().drop_last().drop_last().drop_last().len() == 0);
    if aobs.animation_end {
        let u = action_step_commands(State::Update, ActionAnimationState::Dead, aobs);
        if aobs.is_player && !aobs.is_teleport_mode {
            assert(u.drop_last().drop_last().drop_last().len() == 0);
        } else {
            assert(u.drop_last().drop_last().len() == 0);
        }
    }
}

/// Ending the eating of an item gives the character ten health, kept
/// within its maximum.
pub proof fn lemma_eating_gives_health(s: CharacterStats, aobs: ActionKeyframeObservation)
    requires
        aobs.has_attached_item,
    ensures
        with_own_effects(s, action_step_commands(State::End, ActionAnimationState::Eating, aobs))._hp
            == clamp_upper_nonneg(s._hp + EATING_HP_GAIN, s._max_hp as int),
{
    reveal_with_fuel(with_own_effects, 2);
    let e = action_step_commands(State::End, ActionAnimationState::Eating, aobs);
    assert(e.drop_last().len() == 0);
}

} // verus!
