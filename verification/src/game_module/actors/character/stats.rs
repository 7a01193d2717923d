use vstd::prelude::*;
use crate::game_module::actors::character::data::{ActionAnimationState, ActionEvent, MoveAnimationState};
use crate::game_module::actors::character::data::is_attack_event_kind;
use crate::game_module::game_constants::MAX_CORPSE_HIT_COUNT;

verus! {

/// `value` clamped into `[0, upper]`, the upper bound winning when it is
/// negative.
pub open spec fn clamp_upper_nonneg(value: int, upper: int) -> int {
    let low = if value < 0 { 0 } else { value };
    if upper < low { upper } else { low }
}

/// The life of a character: whether it lives, its health, and how many
/// more hits its corpse takes.
#[derive(Clone, Copy, Debug, PartialEq, Eq, Structural)]
pub struct CharacterStats {
    pub _is_alive: bool,
    pub _is_tamed: bool,
    pub _is_dead_loop: bool,
    pub _corpse_hit_count: i32,
    pub _hp: i32,
    pub _max_hp: i32,
    pub _max_hp_data: i32,
    pub _invincibility: bool,
    pub _is_stat_displayed: bool,
}

impl CharacterStats {
    /// Health never negative, the maximum between zero and the data's
    /// maximum, and a corpse count never negative.
    pub open spec fn wf(&self) -> bool {
        &&& 0 <= self._hp
        &&& 0 <= self._max_hp <= self._max_hp_data
        &&& 0 <= self._corpse_hit_count <= MAX_CORPSE_HIT_COUNT
    }

    /// A living, untamed character with full health of one hundred.
    pub fn create_character_stats() -> (r: CharacterStats)
        ensures
            r._is_alive,
            !r._is_tamed,
            !r._is_dead_loop,
            r._corpse_hit_count == MAX_CORPSE_HIT_COUNT,
            r._hp == 100,
            r._max_hp == 100,
            r._max_hp_data == 100,
            !r._invincibility,
            !r._is_stat_displayed,
            r.wf(),
    {
        CharacterStats {
            _is_alive: true,
            _is_tamed: false,
            _is_dead_loop: false,
            _corpse_hit_count: MAX_CORPSE_HIT_COUNT,
            _hp: 100,
            _max_hp: 100,
            _max_hp_data: 100,
            _invincibility: false,
            _is_stat_displayed: false,
        }
    }

    /// Brings the character to life with the full health of its kind.
    pub fn initialize_character_stats(&mut self, max_hp: i32)
        ensures
            final(self)._is_alive,
            final(self)._hp == max_hp,
            final(self)._max_hp == max_hp,
            final(self)._max_hp_data == max_hp,
            !final(self)._invincibility,
            final(self)._is_tamed == old(self)._is_tamed,
            final(self)._is_dead_loop == old(self)._is_dead_loop,
            final(self)._corpse_hit_count == old(self)._corpse_hit_count,
            final(self)._is_stat_displayed == old(self)._is_stat_displayed,
    {
        self._is_alive = true;
        self._hp = max_hp;
        self._max_hp = max_hp;
        self._max_hp_data = max_hp;
        self._invincibility = false;
    }

    pub fn get_hp(&self) -> (r: i32)
        ensures
            r == self._hp,
    {
        self._hp
    }

    /// Sets the health, clamped between zero and the current maximum.
    pub fn set_hp(&mut self, hp: i32)
        ensures
            final(self)._hp == clamp_upper_nonneg(hp as int, old(self)._max_hp as int),
            *final(self) == (CharacterStats { _hp: final(self)._hp, ..*old(self) }),
    {
        let low = if hp < 0 { 0 } else { hp };
        self._hp = if self._max_hp < low { self._max_hp } else { low };
    }

    /// Adds to the health, within the same bounds as `set_hp`.
    pub fn add_hp(&mut self, hp: i32)
        requires
            i32::MIN <= old(self)._hp + hp <= i32::MAX,
        ensures
            final(self)._hp == clamp_upper_nonneg(old(self)._hp + hp, old(self)._max_hp as int),
            *final(self) == (CharacterStats { _hp: final(self)._hp, ..*old(self) }),
    {
        let v = self._hp + hp;
        self.set_hp(v);
    }

    pub fn get_max_hp(&self) -> (r: i32)
        ensures
            r == self._max_hp,
    {
        self._max_hp
    }

    /// Sets the maximum health, clamped between zero and the maximum of the
    /// character's kind. The health itself is left as it is.
    pub fn set_max_hp(&mut self, hp: i32)
        ensures
            final(self)._max_hp == clamp_upper_nonneg(hp as int, old(self)._max_hp_data as int),
            *final(self) == (CharacterStats { _max_hp: final(self)._max_hp, ..*old(self) }),
    {
        let low = if hp < 0 { 0 } else { hp };
        self._max_hp = if self._max_hp_data < low { self._max_hp_data } else { low };
    }

    /// Adds to the maximum health, within the same bounds as `set_max_hp`.
    pub fn add_max_hp(&mut self, hp: i32)
        requires
            i32::MIN <= old(self)._max_hp + hp <= i32::MAX,
        ensures
            final(self)._max_hp == clamp_upper_nonneg(
                old(self)._max_hp + hp,
                old(self)._max_hp_data as int,
            ),
            *final(self) == (CharacterStats { _max_hp: final(self)._max_hp, ..*old(self) }),
    {
        let v = self._max_hp + hp;
        self.set_max_hp(v);
    }

    pub fn get_max_hp_data(&self) -> (r: i32)
        ensures
            r == self._max_hp_data,
    {
        self._max_hp_data
    }

    /// Lowers or raises the maximum health (as hunger does) and cuts the
    /// health down to it when it exceeds the new maximum.
    pub fn limit_max_hp(&mut self, max_hp: i32)
        ensures
            final(self)._max_hp == clamp_upper_nonneg(max_hp as int, old(self)._max_hp_data as int),
            final(self)._hp == (if final(self)._max_hp < old(self)._hp {
                final(self)._max_hp
            } else {
                old(self)._hp
            }),
            *final(self) == (CharacterStats {
                _max_hp: final(self)._max_hp,
                _hp: final(self)._hp,
                ..*old(self)
            }),
    {
        self.set_max_hp(max_hp);
        if self._max_hp < self._hp {
            let m = self._max_hp;
            self.set_hp(m);
        }
    }

    /// Keeps the health within the maximum.
    pub fn update_hp(&mut self)
        ensures
            final(self)._hp == (if old(self)._max_hp < old(self)._hp {
                old(self)._max_hp
            } else {
                old(self)._hp
            }),
            *final(self) == (CharacterStats { _hp: final(self)._hp, ..*old(self) }),
    {
        if self._max_hp < self._hp {
            self._hp = self._max_hp;
        }
    }

    pub fn set_invincibility(&mut self, invincibility: bool)
        ensures
            *final(self) == (CharacterStats { _invincibility: invincibility, ..*old(self) }),
    {
        self._invincibility = invincibility;
    }

    pub fn get_is_stat_displayed(&self) -> (r: bool)
        ensures
            r == self._is_stat_displayed,
    {
        self._is_stat_displayed
    }

    pub fn set_is_stat_displayed(&mut self, is_stat_displayed: bool)
        ensures
            *final(self) == (CharacterStats { _is_stat_displayed: is_stat_displayed, ..*old(self) }),
    {
        self._is_stat_displayed = is_stat_displayed;
    }
}

/// The saved part of a character's life.
#[derive(Clone, Copy, Debug, PartialEq, Eq, Structural)]
pub struct CharacterStatsSaveData {
    pub _is_alive: bool,
    pub _is_tamed: bool,
    pub _is_dead_loop: bool,
    pub _corpse_hit_count: i32,
    pub _hp: i32,
    pub _max_hp: i32,
    pub _max_hp_data: i32,
    pub _invincibility: bool,
    pub _is_stat_displayed: bool,
}

/// What a save keeps of the stats.
pub open spec fn saved_stats(s: CharacterStats) -> CharacterStatsSaveData {
    CharacterStatsSaveData {
        _is_alive: s._is_alive,
        _is_tamed: s._is_tamed,
        _is_dead_loop: s._is_dead_loop,
        _corpse_hit_count: s._corpse_hit_count,
        _hp: s._hp,
        _max_hp: s._max_hp,
        _max_hp_data: s._max_hp_data,
        _invincibility: s._invincibility,
        _is_stat_displayed: s._is_stat_displayed,
    }
}

impl CharacterStats {
    pub fn get_character_stats_save_data(&self) -> (r: CharacterStatsSaveData)
        ensures
            r == saved_stats(*self),
    {
        CharacterStatsSaveData {
            _is_alive: self._is_alive,
            _is_tamed: self._is_tamed,
            _is_dead_loop: self._is_dead_loop,
            _corpse_hit_count: self._corpse_hit_count,
            _hp: self._hp,
            _max_hp: self._max_hp,
            _max_hp_data: self._max_hp_data,
            _invincibility: self._invincibility,
            _is_stat_displayed: self._is_stat_displayed,
        }
    }

    /// Takes every saved value back.
    pub fn load_character_stats_save_data(&mut self, save_data: &CharacterStatsSaveData)
        ensures
            saved_stats(*final(self)) == *save_data,
    {
        self._is_alive = save_data._is_alive;
        self._is_tamed = save_data._is_tamed;
        self._is_dead_loop = save_data._is_dead_loop;
        self._corpse_hit_count = save_data._corpse_hit_count;
        self._hp = save_data._hp;
        self._max_hp = save_data._max_hp;
        self._max_hp_data = save_data._max_hp_data;
        self._invincibility = save_data._invincibility;
        self._is_stat_displayed = save_data._is_stat_displayed;
    }

    /// A living player's health is kept within its maximum every update.
    pub fn update_stat(&mut self, is_player: bool)
        ensures
            *final(self) == (if is_player && old(self)._is_alive && old(self)._max_hp < old(self)._hp {
                CharacterStats { _hp: old(self)._max_hp, ..*old(self) }
            } else {
                *old(self)
            }),
    {
        if is_player && self._is_alive {
            self.update_hp();
        }
    }
}

/// Loading what was saved gives the stats back.
pub proof fn lemma_stats_save_round_trip(s: CharacterStats, loaded: CharacterStats)
    requires
        saved_stats(loaded) == saved_stats(s),
    ensures
        loaded == s,
{
}

/// Where the animations of a character stand: the current, previous and
/// requested move states, the current action, the action requested for the
/// next update, and the action event of this update.
#[derive(Clone, Copy, Debug, PartialEq, Eq, Structural)]
pub struct CharacterAnimationState {
    pub _move_animation_state: MoveAnimationState,
    pub _prev_move_animation_state: MoveAnimationState,
    pub _next_move_animation_state: MoveAnimationState,
    pub _action_event: ActionEvent,
    pub _action_animation_state: ActionAnimationState,
    pub _next_action_animation_state: Option<ActionAnimationState>,
}

impl Default for CharacterAnimationState {
    fn default() -> (r: Self)
        ensures
            r._move_animation_state == MoveAnimationState::Nothing,
            r._prev_move_animation_state == MoveAnimationState::Nothing,
            r._next_move_animation_state == MoveAnimationState::Nothing,
            r._action_event == ActionEvent::Nothing,
            r._action_animation_state == ActionAnimationState::Nothing,
            r._next_action_animation_state.is_none(),
    {
        CharacterAnimationState {
            _move_animation_state: MoveAnimationState::Nothing,
            _prev_move_animation_state: MoveAnimationState::Nothing,
            _next_move_animation_state: MoveAnimationState::Nothing,
            _action_event: ActionEvent::Nothing,
            _action_animation_state: ActionAnimationState::Nothing,
            _next_action_animation_state: None,
        }
    }
}

impl CharacterAnimationState {
    /// The event of this update is one of the attacks.
    pub fn is_attack_event(&self) -> (r: bool)
        ensures
            r == is_attack_event_kind(self._action_event),
    {
        self._action_event == ActionEvent::Attack || self._action_event == ActionEvent::PowerAttack
            || self._action_event == ActionEvent::Kick
    }

    pub fn is_action_event(&self, action_event: ActionEvent) -> (r: bool)
        ensures
            r == (self._action_event == action_event),
    {
        self._action_event == action_event
    }

    pub fn get_action_event(&self) -> (r: ActionEvent)
        ensures
            r == self._action_event,
    {
        self._action_event
    }

    pub fn set_action_event(&mut self, action_event: ActionEvent)
        ensures
            *final(self) == (CharacterAnimationState { _action_event: action_event, ..*old(self) }),
    {
        self._action_event = action_event;
    }
}

} // verus!
