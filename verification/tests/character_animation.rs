use stone_age::game_module::actors::character::character::{
    move_key_times, ActionKeyframeObservation, AnimationCommand, MoveKeyframeObservation, SoundCue,
};
use stone_age::game_module::actors::character::clips::{action_clip, move_clip};
use stone_age::game_module::actors::character::data::{ActionAnimationState, ActionEvent, MoveAnimationState};
use stone_age::game_module::actors::character::stats::{CharacterAnimationState, CharacterStats};
use stone_age::game_module::actors::character::actor::Character;
use stone_age::game_module::actors::character::data::{CharacterDataType, CharacterPowerData};
use stone_age::game_module::behavior::behavior_base::BehaviorData;
use stone_age::game_module::state_cycle::State;

fn action_obs() -> ActionKeyframeObservation {
    ActionKeyframeObservation {
        is_player: true,
        event_time_reached: false,
        animation_end: false,
        is_on_ground: true,
        is_teleport_mode: false,
        is_fishing_button_held: false,
        is_fishing_spot: false,
        fishing_succeeded: false,
        has_attached_item: false,
    }
}

fn move_obs() -> MoveKeyframeObservation {
    MoveKeyframeObservation { is_player: true, event_time_reached: false, animation_end: false }
}

#[test]
fn default_animation_state_is_empty() {
    let a = CharacterAnimationState::default();
    assert_eq!(a._move_animation_state, MoveAnimationState::Nothing);
    assert_eq!(a._action_animation_state, ActionAnimationState::Nothing);
    assert_eq!(a._action_event, ActionEvent::Nothing);
    assert_eq!(a._next_action_animation_state, None);
}

#[test]
fn dying_stops_and_asks_for_the_death_action() {
    let mut a = CharacterAnimationState::default();
    a._move_animation_state = MoveAnimationState::Run;
    a.set_action_dead();
    assert_eq!(a._next_move_animation_state, MoveAnimationState::Idle);
    assert_eq!(a._next_action_animation_state, Some(ActionAnimationState::Dead));
}

#[test]
fn action_schedule_runs_a_transition_only_on_request() {
    let mut a = CharacterAnimationState::default();
    a._action_event = ActionEvent::Attack;
    let stages = a.take_action_schedule();
    assert_eq!(stages, vec![(State::Update, ActionAnimationState::Nothing)]);
    assert_eq!(a._action_event, ActionEvent::Nothing);

    a.set_next_action_animation(ActionAnimationState::Attack);
    let stages = a.take_action_schedule();
    assert_eq!(
        stages,
        vec![
            (State::End, ActionAnimationState::Nothing),
            (State::Begin, ActionAnimationState::Attack),
            (State::Update, ActionAnimationState::Attack),
        ]
    );
    assert_eq!(a._action_animation_state, ActionAnimationState::Attack);
    assert_eq!(a._next_action_animation_state, None);
}

#[test]
fn attack_raises_its_event_at_its_key_time() {
    let mut a = CharacterAnimationState::default();
    a._action_animation_state = ActionAnimationState::Attack;
    let mut obs = action_obs();
    obs.event_time_reached = true;
    let commands = a.action_keyframe_step(State::Update, ActionAnimationState::Attack, &obs);
    assert_eq!(commands, vec![AnimationCommand::PlaySound(SoundCue::Attack)]);
    assert_eq!(a._action_event, ActionEvent::Attack);
    assert!(a.is_attack_event());
}

#[test]
fn attack_ends_with_its_clip() {
    let mut a = CharacterAnimationState::default();
    a._action_animation_state = ActionAnimationState::Attack;
    let mut obs = action_obs();
    obs.animation_end = true;
    let commands = a.action_keyframe_step(State::Update, ActionAnimationState::Attack, &obs);
    assert!(commands.is_empty());
    assert_eq!(a._next_action_animation_state, Some(ActionAnimationState::Nothing));
}

#[test]
fn death_of_the_player_sends_it_home_at_the_end_of_the_clip() {
    let mut a = CharacterAnimationState::default();
    let mut obs = action_obs();
    obs.animation_end = true;
    let commands = a.action_keyframe_step(State::Update, ActionAnimationState::Dead, &obs);
    assert_eq!(
        commands,
        vec![
            AnimationCommand::SetInvincibility(false),
            AnimationCommand::SetIsDeadLoop(true),
            AnimationCommand::RespawnAtHome,
        ]
    );
    obs.is_teleport_mode = true;
    let commands = a.action_keyframe_step(State::Update, ActionAnimationState::Dead, &obs);
    assert_eq!(commands.len(), 2);
}

#[test]
fn beginning_death_hides_the_weapon_and_makes_invincible() {
    let mut a = CharacterAnimationState::default();
    let commands = a.action_keyframe_step(State::Begin, ActionAnimationState::Dead, &action_obs());
    assert_eq!(
        commands,
        vec![
            AnimationCommand::PlayActionClip(ActionAnimationState::Dead),
            AnimationCommand::SetWeaponVisible(false),
            AnimationCommand::SetInvincibility(true),
            AnimationCommand::SetIsDeadLoop(false),
        ]
    );
}

#[test]
fn laying_down_turns_into_sleep() {
    let mut a = CharacterAnimationState::default();
    a._move_animation_state = MoveAnimationState::Walk;
    let mut obs = action_obs();
    obs.animation_end = true;
    let commands = a.action_keyframe_step(State::Update, ActionAnimationState::LayingDown, &obs);
    assert_eq!(commands, vec![AnimationCommand::StopMoving]);
    assert_eq!(a._next_action_animation_state, Some(ActionAnimationState::Sleep));
    assert_eq!(a._next_move_animation_state, MoveAnimationState::Idle);
}

#[test]
fn roll_brackets_invincibility() {
    let mut a = CharacterAnimationState::default();
    let begin = a.move_keyframe_step(State::Begin, MoveAnimationState::Roll, &move_obs());
    assert_eq!(
        begin,
        vec![AnimationCommand::PlayMoveClip(MoveAnimationState::Roll), AnimationCommand::SetInvincibility(true)]
    );
    let end = a.move_keyframe_step(State::End, MoveAnimationState::Roll, &move_obs());
    assert_eq!(end, vec![AnimationCommand::SetRollDelay, AnimationCommand::SetInvincibility(false)]);
}

#[test]
fn roll_ends_standing_idle() {
    let mut a = CharacterAnimationState::default();
    a._move_animation_state = MoveAnimationState::Roll;
    let mut obs = move_obs();
    obs.animation_end = true;
    let commands = a.move_keyframe_step(State::Update, MoveAnimationState::Roll, &obs);
    assert_eq!(commands, vec![AnimationCommand::StopMoving]);
    assert_eq!(a._next_move_animation_state, MoveAnimationState::Idle);
}

#[test]
fn footsteps_are_heard_at_their_key_times() {
    assert_eq!(move_key_times(MoveAnimationState::Walk), vec![200, 900]);
    assert_eq!(move_key_times(MoveAnimationState::Run), vec![100, 500]);
    assert_eq!(move_key_times(MoveAnimationState::Roll), vec![200]);
    assert!(move_key_times(MoveAnimationState::Idle).is_empty());
    let mut a = CharacterAnimationState::default();
    let mut obs = move_obs();
    obs.event_time_reached = true;
    let commands = a.move_keyframe_step(State::Update, MoveAnimationState::Walk, &obs);
    assert_eq!(commands, vec![AnimationCommand::PlaySound(SoundCue::Footstep)]);
}

#[test]
fn move_schedule_changes_state_on_a_new_request() {
    let mut a = CharacterAnimationState::default();
    a.set_next_move_animation(MoveAnimationState::Walk);
    let stages = a.take_move_schedule();
    assert_eq!(stages.len(), 3);
    assert_eq!(a._move_animation_state, MoveAnimationState::Walk);
    let stages = a.take_move_schedule();
    assert_eq!(stages, vec![(State::Update, MoveAnimationState::Walk)]);
}

#[test]
fn attacks_need_an_idle_character_free_to_move() {
    let mut a = CharacterAnimationState::default();
    assert!(a.is_available_attack(true, true, false, false));
    assert!(!a.is_available_attack(false, true, false, false));
    a._action_animation_state = ActionAnimationState::Attack;
    assert!(!a.is_available_attack(true, true, false, false));
    assert!(a.is_available_attack(true, true, true, false));
    a._action_animation_state = ActionAnimationState::Kick;
    assert!(!a.is_available_attack(true, true, false, false));
    assert!(a.is_available_attack(true, true, false, true));
    a._action_animation_state = ActionAnimationState::Sleep;
    assert!(!a.is_available_move(true, true));
}

#[test]
fn jumping_while_running_is_a_running_jump() {
    let mut a = CharacterAnimationState::default();
    assert!(a.set_jump(true, true, false, false, true, false));
    assert_eq!(a._next_move_animation_state, MoveAnimationState::RunningJump);
    let mut b = CharacterAnimationState::default();
    assert!(b.set_jump(true, true, false, false, true, true));
    assert_eq!(b._next_move_animation_state, MoveAnimationState::Jump);
    let mut c = CharacterAnimationState::default();
    assert!(!c.set_jump(true, true, true, false, false, false));
}

#[test]
fn a_player_without_stamina_cannot_roll() {
    let mut a = CharacterAnimationState::default();
    assert!(!a.set_roll(true, false, false, false, true));
    assert!(a.set_roll(true, true, false, false, true));
    assert_eq!(a._next_move_animation_state, MoveAnimationState::Roll);
    assert_eq!(a._next_action_animation_state, Some(ActionAnimationState::Nothing));
}

#[test]
fn clips_of_sleep_and_sitting() {
    let sleep = action_clip(ActionAnimationState::SleepNoSnoring).unwrap();
    assert_eq!(sleep.clip, ActionAnimationState::Sleep);
    assert!(sleep.looped);
    assert!(sleep.keeps_last_frame);
    assert!(action_clip(ActionAnimationState::Nothing).is_none());
    let attack = action_clip(ActionAnimationState::Attack).unwrap();
    assert!(attack.scaled_by_data_speed);
    assert!(!attack.looped);
    let sit = move_clip(MoveAnimationState::SitDownLoop);
    assert!(sit.looped);
    assert!(!sit.scaled_by_data_speed);
    assert_eq!(move_clip(MoveAnimationState::Nothing).clip, MoveAnimationState::Idle);
}

#[test]
fn restoring_plays_the_current_clips_again() {
    let mut a = CharacterAnimationState::default();
    a._move_animation_state = MoveAnimationState::Jump;
    a._action_animation_state = ActionAnimationState::Hungry;
    let (m, act) = a.post_process_restore_animation();
    assert_eq!(m.clip, MoveAnimationState::Jump);
    assert!(!m.looped);
    assert_eq!(act.unwrap().clip, ActionAnimationState::Hungry);
    assert!(act.unwrap().looped);
}

fn someone() -> Character {
    Character {
        _character_id: 1,
        _is_player: true,
        _character_type: CharacterDataType::Player,
        _power_data: CharacterPowerData::default(),
        _character_stats: CharacterStats::create_character_stats(),
        _animation_state: CharacterAnimationState::default(),
        _behavior: BehaviorData::default(),
    }
}

#[test]
fn a_roll_makes_the_character_invincible_until_it_ends() {
    let mut c = someone();
    let begin = c.update_move_keyframe_event(State::Begin, MoveAnimationState::Roll, &move_obs());
    assert!(begin.contains(&AnimationCommand::SetInvincibility(true)));
    assert!(c._character_stats._invincibility);
    let end = c.update_move_keyframe_event(State::End, MoveAnimationState::Roll, &move_obs());
    assert_eq!(end, vec![AnimationCommand::SetRollDelay, AnimationCommand::SetInvincibility(false)]);
    assert!(!c._character_stats._invincibility);
}

#[test]
fn the_end_of_the_death_clip_leaves_the_character_still_and_mortal() {
    let mut c = someone();
    c.update_action_keyframe_event(State::Begin, ActionAnimationState::Dead, &action_obs());
    assert!(c._character_stats._invincibility);
    assert!(!c._character_stats._is_dead_loop);
    let mut obs = action_obs();
    obs.animation_end = true;
    let cmds = c.update_action_keyframe_event(State::Update, ActionAnimationState::Dead, &obs);
    assert!(cmds.contains(&AnimationCommand::RespawnAtHome));
    assert!(!c._character_stats._invincibility);
    assert!(c._character_stats._is_dead_loop);
}

#[test]
fn eating_gives_ten_health_within_the_maximum() {
    let mut c = someone();
    c._character_stats._hp = 50;
    let mut obs = action_obs();
    obs.has_attached_item = true;
    let cmds = c.update_action_keyframe_event(State::End, ActionAnimationState::Eating, &obs);
    assert_eq!(cmds, vec![AnimationCommand::ApplyEatingEffects]);
    assert_eq!(c._character_stats._hp, 60);
    c._character_stats._hp = 95;
    c.update_action_keyframe_event(State::End, ActionAnimationState::Eating, &obs);
    assert_eq!(c._character_stats._hp, 100);
    let mut empty_handed = someone();
    empty_handed._character_stats._hp = 50;
    empty_handed.update_action_keyframe_event(State::End, ActionAnimationState::Eating, &action_obs());
    assert_eq!(empty_handed._character_stats._hp, 50);
}
