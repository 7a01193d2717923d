use vstd::prelude::*;
use crate::game_module::actors::character::data::CharacterDataType;

verus! {

/// What a character's mind is set on.
#[derive(Clone, Copy, Debug, PartialEq, Eq, Hash, Structural)]
pub enum BehaviorState {
    Nothing,
    Idle,
    Eating,
    Roaming,
    Interaction,
    Chase,
    Attack,
    Sleep,
    WakeUp,
    Dead,
    Follow,
    Move,
}

impl Default for BehaviorState {
    fn default() -> (r: Self)
        ensures
            r == BehaviorState::Nothing,
    {
        BehaviorState::Nothing
    }
}

/// The behavior state of a character, the state asked for next, and
/// whether that request must run its transition even when it names the
/// current state.
#[derive(Clone, Copy, Debug, PartialEq, Eq, Structural)]
pub struct BehaviorData {
    pub _behavior_state: BehaviorState,
    pub _next_behavior_state: BehaviorState,
    pub _is_force: bool,
}

impl Default for BehaviorData {
    fn default() -> (r: Self)
        ensures
            r == (BehaviorData {
                _behavior_state: BehaviorState::Nothing,
                _next_behavior_state: BehaviorState::Nothing,
                _is_force: false,
            }),
    {
        BehaviorData {
            _behavior_state: BehaviorState::Nothing,
            _next_behavior_state: BehaviorState::Nothing,
            _is_force: false,
        }
    }
}

impl BehaviorData {
    pub fn is_force_behavior_state_changed(&self) -> (r: bool)
        ensures
            r == self._is_force,
    {
        self._is_force
    }

    /// Reads the force flag and clears it.
    pub fn is_force_behavior_state_changed_and_reset(&mut self) -> (r: bool)
        ensures
            r == old(self)._is_force,
            *final(self) == (BehaviorData { _is_force: false, ..*old(self) }),
    {
        let r = self._is_force;
        self._is_force = false;
        r
    }

    pub fn get_behavior_state(&self) -> (r: BehaviorState)
        ensures
            r == self._behavior_state,
    {
        self._behavior_state
    }

    pub fn get_next_behavior_state(&self) -> (r: BehaviorState)
        ensures
            r == self._next_behavior_state,
    {
        self._next_behavior_state
    }

    pub fn set_next_behavior_state(&mut self, next_behavior_state: BehaviorState, is_force: bool)
        ensures
            *final(self) == (BehaviorData {
                _next_behavior_state: next_behavior_state,
                _is_force: is_force,
                ..*old(self)
            }),
    {
        self._next_behavior_state = next_behavior_state;
        self._is_force = is_force;
    }

    /// Called when a state begins. It writes the state into the request,
    /// not into the current state, which it leaves as it was.
    pub fn set_behavior_state(&mut self, behavior_state: BehaviorState)
        ensures
            *final(self) == (BehaviorData { _next_behavior_state: behavior_state, ..*old(self) }),
    {
        self._next_behavior_state = behavior_state;
    }
}

/// The four minds a character can have.
#[derive(Clone, Copy, Debug, PartialEq, Eq, Structural)]
pub enum BehaviorKind {
    Default,
    Civilian,
    Roamer,
    Ufo,
}

/// The mind of each kind of character: players and civilians behave as
/// civilians, roamers roam, UFOs float, all others have the default mind.
pub open spec fn behavior_kind_of(character_type: CharacterDataType) -> BehaviorKind {
    match character_type {
        CharacterDataType::Civilian | CharacterDataType::Player => BehaviorKind::Civilian,
        CharacterDataType::Roamer => BehaviorKind::Roamer,
        CharacterDataType::Ufo => BehaviorKind::Ufo,
        _ => BehaviorKind::Default,
    }
}

/// Picks the mind of a new character by its kind.
pub fn create_character_behavior(character_type: CharacterDataType) -> (r: BehaviorKind)
    ensures
        r == behavior_kind_of(character_type),
{
    match character_type {
        CharacterDataType::Civilian | CharacterDataType::Player => BehaviorKind::Civilian,
        CharacterDataType::Roamer => BehaviorKind::Roamer,
        CharacterDataType::Ufo => BehaviorKind::Ufo,
        _ => BehaviorKind::Default,
    }
}

} // verus!
