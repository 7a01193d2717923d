use vstd::prelude::*;

verus! {

/// The upper-body actions of the first character model.
#[derive(Clone, Copy, Debug, PartialEq, Eq, Structural)]
pub enum ActionAnimationState {
    Nothing,
    Attack,
    Dead,
    Hit,
    PowerAttack,
}

impl Default for ActionAnimationState {
    fn default() -> (r: Self)
        ensures
            r == ActionAnimationState::Nothing,
    {
        ActionAnimationState::Nothing
    }
}

/// The leg movements of the first character model.
#[derive(Clone, Copy, Debug, PartialEq, Eq, Structural)]
pub enum MoveAnimationState {
    Nothing,
    Idle,
    Jump,
    Roll,
    Run,
    RunningJump,
    Walk,
}

impl Default for MoveAnimationState {
    fn default() -> (r: Self)
        ensures
            r == MoveAnimationState::Nothing,
    {
        MoveAnimationState::Nothing
    }
}

/// The kinds of character of the first character model.
#[derive(Clone, Copy, Debug, PartialEq, Eq, Structural)]
pub enum CharacterDataType {
    Nothing,
    Roamer,
}

impl Default for CharacterDataType {
    fn default() -> (r: Self)
        ensures
            r == CharacterDataType::Nothing,
    {
        CharacterDataType::Nothing
    }
}

/// The names of the sounds of a character of the first model.
pub struct CharacterAudioDataCreateInfo {
    pub _audio_dead: String,
    pub _audio_growl: String,
    pub _audio_pain: String,
}

impl Default for CharacterAudioDataCreateInfo {
    fn default() -> (r: Self)
        ensures
            r._audio_dead@ == Seq::<char>::empty(),
            r._audio_growl@ == Seq::<char>::empty(),
            r._audio_pain@ == Seq::<char>::empty(),
    {
        CharacterAudioDataCreateInfo {
            _audio_dead: String::new(),
            _audio_growl: String::new(),
            _audio_pain: String::new(),
        }
    }
}

} // verus!
