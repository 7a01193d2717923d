use vstd::prelude::*;

verus! {

/// What the upper body of a character is doing.
#[derive(Clone, Copy, Debug, PartialEq, Eq, Hash, Structural)]
pub enum ActionAnimationState {
    Nothing,
    Attack,
    Dance,
    Dead,
    Eating,
    Hit,
    Hungry,
    Kick,
    LayingDown,
    Pickup,
    PowerAttack,
    Sleep,
    SleepNoSnoring,
    WakeUp,
    FishingBegin,
    FishingLoop,
    FishingEnd,
}

impl Default for ActionAnimationState {
    fn default() -> (r: Self)
        ensures
            r == ActionAnimationState::Nothing,
    {
        ActionAnimationState::Nothing
    }
}

/// A key moment of an action, raised for exactly one update.
#[derive(Clone, Copy, Debug, PartialEq, Eq, Hash, Structural)]
pub enum ActionEvent {
    Nothing,
    Attack,
    Dance,
    Dead,
    Eating,
    Hit,
    Hungry,
    Kick,
    LayingDown,
    Pickup,
    PowerAttack,
    Sleep,
    SleepNoSnoring,
    WakeUp,
    Fishing,
}

impl Default for ActionEvent {
    fn default() -> (r: Self)
        ensures
            r == ActionEvent::Nothing,
    {
        ActionEvent::Nothing
    }
}

/// How the legs of a character move.
#[derive(Clone, Copy, Debug, PartialEq, Eq, Hash, Structural)]
pub enum MoveAnimationState {
    Nothing,
    Idle,
    Jump,
    Roll,
    Run,
    RunningJump,
    SitDownLoop,
    Walk,
}

impl Default for MoveAnimationState {
    fn default() -> (r: Self)
        ensures
            r == MoveAnimationState::Nothing,
    {
        MoveAnimationState::Nothing
    }
}

/// The kind of a character, which picks its behavior.
#[derive(Clone, Copy, Debug, PartialEq, Eq, Hash, Structural)]
pub enum CharacterDataType {
    Nothing,
    Player,
    Chef,
    Crafter,
    Civilian,
    Roamer,
    Guardian,
    Stalker,
    Invader,
    Ufo,
}

impl Default for CharacterDataType {
    fn default() -> (r: Self)
        ensures
            r == CharacterDataType::Nothing,
    {
        CharacterDataType::Nothing
    }
}

/// The request a character of this kind offers, if any.
pub open spec fn request_name(character_type: CharacterDataType) -> Option<Seq<char>> {
    match character_type {
        CharacterDataType::Chef => Some("Cooking"@),
        CharacterDataType::Crafter => Some("Craft"@),
        _ => None,
    }
}

impl CharacterDataType {
    /// The name of the request a character of this kind offers: cooking for
    /// a chef, crafting for a crafter, none for the others.
    pub fn get_request_name(&self) -> (r: Option<&'static str>)
        ensures
            r.is_some() == request_name(*self).is_some(),
            r matches Some(s) ==> s@ == request_name(*self).unwrap(),
    {
        match self {
            CharacterDataType::Chef => Some("Cooking"),
            CharacterDataType::Crafter => Some("Craft"),
            _ => None,
        }
    }

    /// Only characters of the UFO kind fly.
    pub fn can_fly(&self) -> (r: bool)
        ensures
            r == (*self == CharacterDataType::Ufo),
    {
        *self == CharacterDataType::Ufo
    }
}

/// The names of the sounds a character makes.
pub struct CharacterAudioDataCreateInfo {
    pub _audio_dead: String,
    pub _audio_growl: String,
    pub _audio_pain: String,
}

impl Default for CharacterAudioDataCreateInfo {
    fn default() -> (r: Self)
        ensures
            r._audio_dead@ == Seq::<char>::empty(),
            r._audio_growl@ == Seq::<char>::empty(),
            r._audio_pain@ == Seq::<char>::empty(),
    {
        CharacterAudioDataCreateInfo {
            _audio_dead: String::new(),
            _audio_growl: String::new(),
            _audio_pain: String::new(),
        }
    }
}

/// The integer stats of a character kind: its health and the damage of
/// each of its attacks.
#[derive(Clone, Copy, Debug, PartialEq, Eq, Structural)]
pub struct CharacterPowerData {
    pub _max_hp: i32,
    pub _attack_damage: i32,
    pub _power_attack_damage: i32,
    pub _kick_damage: i32,
}

impl Default for CharacterPowerData {
    fn default() -> (r: Self)
        ensures
            r._max_hp == 100,
            r._attack_damage == 50,
            r._power_attack_damage == 100,
            r._kick_damage == 70,
    {
        CharacterPowerData { _max_hp: 100, _attack_damage: 50, _power_attack_damage: 100, _kick_damage: 70 }
    }
}

/// The events of an attack: a plain attack, a power attack or a kick.
pub open spec fn is_attack_event_kind(event: ActionEvent) -> bool {
    event == ActionEvent::Attack || event == ActionEvent::PowerAttack || event == ActionEvent::Kick
}

/// The damage an attack event deals.
pub open spec fn power_of(event: ActionEvent, data: CharacterPowerData) -> i32
    recommends
        is_attack_event_kind(event),
{
    match event {
        ActionEvent::Attack => data._attack_damage,
        ActionEvent::PowerAttack => data._power_attack_damage,
        _ => data._kick_damage,
    }
}

impl CharacterPowerData {
    /// The damage of the given attack event. Only attack events have one.
    pub fn get_power(&self, attack_event: ActionEvent) -> (r: i32)
        requires
            is_attack_event_kind(attack_event),
        ensures
            r == power_of(attack_event, *self),
    {
        match attack_event {
            ActionEvent::Attack => self._attack_damage,
            ActionEvent::PowerAttack => self._power_attack_damage,
            _ => self._kick_damage,
        }
    }
}

} // verus!
