use vstd::prelude::*;
use crate::game_module::actors::character::data::{ActionAnimationState, MoveAnimationState};
use crate::game_module::actors::character::stats::CharacterAnimationState;

verus! {

/// How the clip of a move state plays: which clip of the character's data
/// (named by the move state it belongs to), whether it loops, and whether
/// the data's own speed for that clip scales the requested speed.
#[derive(Clone, Copy, Debug, PartialEq, Eq, Structural)]
pub struct MoveClip {
    pub clip: MoveAnimationState,
    pub looped: bool,
    pub scaled_by_data_speed: bool,
}

/// How the clip of an action plays: which clip of the character's data
/// (named by the action it belongs to), whether it loops, whether the
/// data's speed scales the requested one, and whether the last frame stays
/// when the clip ends.
#[derive(Clone, Copy, Debug, PartialEq, Eq, Structural)]
pub struct ActionClip {
    pub clip: ActionAnimationState,
    pub looped: bool,
    pub scaled_by_data_speed: bool,
    pub keeps_last_frame: bool,
}

/// The clip of each move state. Standing still plays the idle clip; walks,
/// runs, idling and sitting loop; jumps and rolls play once. Sitting plays
/// at the requested speed only.
pub open spec fn move_clip_of(state: MoveAnimationState) -> MoveClip {
    match state {
        MoveAnimationState::Nothing | MoveAnimationState::Idle => MoveClip {
            clip: MoveAnimationState::Idle,
            looped: true,
            scaled_by_data_speed: true,
        },
        MoveAnimationState::Walk | MoveAnimationState::Run => MoveClip {
            clip: state,
            looped: true,
            scaled_by_data_speed: true,
        },
        MoveAnimationState::Jump | MoveAnimationState::Roll | MoveAnimationState::RunningJump => MoveClip {
            clip: state,
            looped: false,
            scaled_by_data_speed: true,
        },
        MoveAnimationState::SitDownLoop => MoveClip {
            clip: state,
            looped: true,
            scaled_by_data_speed: false,
        },
    }
}

/// The clip of each action; no action has none. Both kinds of sleep play
/// the sleep clip. Dancing, looking hungry, sleeping and waiting for a bite
/// loop; attacks, kicks, hits and death play at the data's speed; death,
/// lying down and sleep keep their last frame.
pub open spec fn action_clip_of(state: ActionAnimationState) -> Option<ActionClip> {
    let clip = if state == ActionAnimationState::SleepNoSnoring {
        ActionAnimationState::Sleep
    } else {
        state
    };
    let looped = state == ActionAnimationState::Dance || state == ActionAnimationState::Hungry || state
        == ActionAnimationState::Sleep || state == ActionAnimationState::SleepNoSnoring || state
        == ActionAnimationState::FishingLoop;
    let scaled = state == ActionAnimationState::Attack || state == ActionAnimationState::Dead || state
        == ActionAnimationState::Hit || state == ActionAnimationState::Kick || state
        == ActionAnimationState::PowerAttack;
    let keeps = state == ActionAnimationState::Dead || state == ActionAnimationState::LayingDown || state
        == ActionAnimationState::Sleep || state == ActionAnimationState::SleepNoSnoring;
    if state == ActionAnimationState::Nothing {
        None
    } else {
        Some(ActionClip { clip, looped, scaled_by_data_speed: scaled, keeps_last_frame: keeps })
    }
}

pub fn move_clip(state: MoveAnimationState) -> (r: MoveClip)
    ensures
        r == move_clip_of(state),
{
    match state {
        MoveAnimationState::Nothing | MoveAnimationState::Idle => MoveClip {
            clip: MoveAnimationState::Idle,
            looped: true,
            scaled_by_data_speed: true,
        },
        MoveAnimationState::Walk | MoveAnimationState::Run => MoveClip {
            clip: state,
            looped: true,
            scaled_by_data_speed: true,
        },
        MoveAnimationState::Jump | MoveAnimationState::Roll | MoveAnimationState::RunningJump => MoveClip {
            clip: state,
            looped: false,
            scaled_by_data_speed: true,
        },
        MoveAnimationState::SitDownLoop => MoveClip { clip: state, looped: true, scaled_by_data_speed: false },
    }
}

pub fn action_clip(state: ActionAnimationState) -> (r: Option<ActionClip>)
    ensures
        r == action_clip_of(state),
{
    match state {
        ActionAnimationState::Nothing => None,
        _ => {
            let clip = match state {
                ActionAnimationState::SleepNoSnoring => ActionAnimationState::Sleep,
                _ => state,
            };
            let looped = match state {
                ActionAnimationState::Dance | ActionAnimationState::Hungry | ActionAnimationState::Sleep
                | ActionAnimationState::SleepNoSnoring | ActionAnimationState::FishingLoop => true,
                _ => false,
            };
            let scaled = match state {
                ActionAnimationState::Attack | ActionAnimationState::Dead | ActionAnimationState::Hit
                | ActionAnimationState::Kick | ActionAnimationState::PowerAttack => true,
                _ => false,
            };
            let keeps = match state {
                ActionAnimationState::Dead | ActionAnimationState::LayingDown | ActionAnimationState::Sleep
                | ActionAnimationState::SleepNoSnoring => true,
                _ => false,
            };
            Some(ActionClip { clip, looped, scaled_by_data_speed: scaled, keeps_last_frame: keeps })
        },
    }
}

impl CharacterAnimationState {
    /// Makes a move state current and tells which clip to play for it.
    pub fn set_move_animation(&mut self, move_animation_state: MoveAnimationState) -> (r: MoveClip)
        ensures
            r == move_clip_of(move_animation_state),
            *final(self) == (CharacterAnimationState {
                _move_animation_state: move_animation_state,
                ..*old(self)
            }),
    {
        self._move_animation_state = move_animation_state;
        move_clip(move_animation_state)
    }

    /// Makes an action current and tells which clip to play for it; no
    /// action clears the action layer.
    pub fn set_action_animation(&mut self, action_animation_state: ActionAnimationState) -> (r: Option<
        ActionClip,
    >)
        ensures
            r == action_clip_of(action_animation_state),
            *final(self) == (CharacterAnimationState {
                _action_animation_state: action_animation_state,
                ..*old(self)
            }),
    {
        self._action_animation_state = action_animation_state;
        action_clip(action_animation_state)
    }

    /// The clips to play again after a saved character is loaded: those of
    /// its current move state and action, which stay as they are.
    pub fn post_process_restore_animation(&self) -> (r: (MoveClip, Option<ActionClip>))
        ensures
            r == (move_clip_of(self._move_animation_state), action_clip_of(self._action_animation_state)),
    {
        (move_clip(self._move_animation_state), action_clip(self._action_animation_state))
    }
}


/// Every move state plays its own clip, and standing still the idle clip;
/// jumps and rolls play once; walking, running, idling and sitting loop.
/// Every action but none has a clip, its own, except that sleeping without
/// snoring plays the sleep clip; attacks, kicks, hits and death play once
/// and death keeps its last frame.
pub proof fn lemma_clips_follow_states(m: MoveAnimationState, act: ActionAnimationState)
    ensures
        m != MoveAnimationState::Nothing ==> move_clip_of(m).clip == m,
        move_clip_of(MoveAnimationState::Nothing).clip == MoveAnimationState::Idle,
        (m == MoveAnimationState::Jump || m == MoveAnimationState::RunningJump || m == MoveAnimationState::Roll)
            <==> !move_clip_of(m).looped,
        act == ActionAnimationState::Nothing <==> action_clip_of(act) is None,
        act != ActionAnimationState::Nothing && act != ActionAnimationState::SleepNoSnoring ==> action_clip_of(
            act,
        )->0.clip == act,
        action_clip_of(ActionAnimationState::SleepNoSnoring)->0.clip == ActionAnimationState::Sleep,
        (act == ActionAnimationState::Attack || act == ActionAnimationState::PowerAttack || act
            == ActionAnimationState::Kick || act == ActionAnimationState::Hit || act == ActionAnimationState::Dead)
            ==> !action_clip_of(act)->0.looped && action_clip_of(act)->0.scaled_by_data_speed,
        action_clip_of(ActionAnimationState::Dead)->0.keeps_last_frame,
{
}

} // verus!
