use stone_age::game_module::actors::character::data::{ActionAnimationState, CharacterDataType, MoveAnimationState};
use stone_age::game_module::actors::character::stats::CharacterAnimationState;
use stone_age::game_module::behavior::behavior_base::{create_character_behavior, BehaviorData, BehaviorKind, BehaviorState};
use stone_age::game_module::behavior::behavior_common::{BehaviorCommand, BehaviorObservation, IntimacyFollowResult};
use stone_age::game_module::behavior::behavior_update::{
    begin_behavior_update, initialize_behavior, update_behavior_stage,
};
use stone_age::game_module::behavior::roamer_behavior::{RoamerBehavior, RoamerCommand, RoamerObservation};

fn quiet() -> BehaviorObservation {
    BehaviorObservation {
        is_end_behavior_time: false,
        is_player_too_far_for_intimacy: false,
        is_roaming_arrived_or_blocked: false,
        intimacy_follow: IntimacyFollowResult::NotFollowing,
        has_target: true,
        is_target_alive: true,
        is_target_player: true,
        is_following_intimacy: false,
        is_enemy_in_range: false,
        is_target_in_tracking_range: false,
        is_target_in_attack_range: false,
        has_attack_time_left: false,
        is_alive: true,
        is_on_ground: true,
        attack_delay_passed: false,
        kick_delay_passed: false,
        is_hungry: false,
        holds_eatable_item: false,
        is_interacting: false,
    }
}

fn run(kind: BehaviorKind, data: &mut BehaviorData, anim: &mut CharacterAnimationState, obs: &BehaviorObservation) -> Vec<BehaviorCommand> {
    let prev = data._behavior_state;
    let next = data._next_behavior_state;
    let mut all = Vec::new();
    for (stage, st) in begin_behavior_update(kind, data) {
        let first = prev != next && stage == stone_age::game_module::state_cycle::State::Update;
        all.extend(update_behavior_stage(kind, data, anim, stage, st, first, obs));
    }
    all
}

#[test]
fn each_kind_has_its_mind() {
    assert_eq!(create_character_behavior(CharacterDataType::Player), BehaviorKind::Civilian);
    assert_eq!(create_character_behavior(CharacterDataType::Civilian), BehaviorKind::Civilian);
    assert_eq!(create_character_behavior(CharacterDataType::Roamer), BehaviorKind::Roamer);
    assert_eq!(create_character_behavior(CharacterDataType::Ufo), BehaviorKind::Ufo);
    assert_eq!(create_character_behavior(CharacterDataType::Chef), BehaviorKind::Default);
}

#[test]
fn a_new_roamer_starts_resting() {
    let mut data = BehaviorData::default();
    initialize_behavior(BehaviorKind::Roamer, &mut data);
    assert_eq!(data._next_behavior_state, BehaviorState::Idle);
    assert!(data._is_force);
    let mut anim = CharacterAnimationState::default();
    let commands = run(BehaviorKind::Roamer, &mut data, &mut anim, &quiet());
    assert_eq!(commands, vec![BehaviorCommand::StartIdleTimer]);
    assert_eq!(anim._next_move_animation_state, MoveAnimationState::Idle);
    assert!(!data._is_force);
}

#[test]
fn a_roamer_chases_an_enemy_in_range() {
    let mut data = BehaviorData::default();
    data.set_next_behavior_state(BehaviorState::Idle, false);
    let mut anim = CharacterAnimationState::default();
    let mut obs = quiet();
    obs.is_enemy_in_range = true;
    run(BehaviorKind::Roamer, &mut data, &mut anim, &obs);
    assert_eq!(data._next_behavior_state, BehaviorState::Chase);
}

#[test]
fn a_roamer_attacks_a_target_within_reach() {
    let mut data = BehaviorData::default();
    data.set_next_behavior_state(BehaviorState::Chase, false);
    let mut anim = CharacterAnimationState::default();
    let mut obs = quiet();
    obs.is_target_in_tracking_range = true;
    obs.is_target_in_attack_range = true;
    run(BehaviorKind::Roamer, &mut data, &mut anim, &obs);
    assert_eq!(data._next_behavior_state, BehaviorState::Attack);
    obs.has_attack_time_left = true;
    let commands = run(BehaviorKind::Roamer, &mut data, &mut anim, &obs);
    assert!(commands.contains(&BehaviorCommand::PlayGrowl));
    assert_eq!(anim._next_action_animation_state, Some(ActionAnimationState::Attack));
}

#[test]
fn a_roamer_without_a_target_rests() {
    let mut data = BehaviorData::default();
    data.set_next_behavior_state(BehaviorState::Chase, false);
    let mut anim = CharacterAnimationState::default();
    let mut obs = quiet();
    obs.has_target = false;
    run(BehaviorKind::Roamer, &mut data, &mut anim, &obs);
    assert_eq!(data._next_behavior_state, BehaviorState::Idle);
}

#[test]
fn a_hungry_civilian_sits_down_to_rest() {
    let mut data = BehaviorData::default();
    data.set_next_behavior_state(BehaviorState::Idle, false);
    let mut anim = CharacterAnimationState::default();
    let mut obs = quiet();
    obs.is_hungry = true;
    run(BehaviorKind::Civilian, &mut data, &mut anim, &obs);
    assert_eq!(anim._next_action_animation_state, Some(ActionAnimationState::Hungry));
    assert_eq!(anim._next_move_animation_state, MoveAnimationState::SitDownLoop);
}

#[test]
fn a_civilian_holding_food_eats_it() {
    let mut data = BehaviorData::default();
    data.set_next_behavior_state(BehaviorState::Idle, false);
    let mut anim = CharacterAnimationState::default();
    let mut obs = quiet();
    obs.holds_eatable_item = true;
    run(BehaviorKind::Civilian, &mut data, &mut anim, &obs);
    assert_eq!(data._next_behavior_state, BehaviorState::Eating);
}

#[test]
fn the_default_mind_follows_a_player_gone_too_far() {
    let mut data = BehaviorData::default();
    data.set_next_behavior_state(BehaviorState::Roaming, false);
    let mut anim = CharacterAnimationState::default();
    let mut obs = quiet();
    obs.is_player_too_far_for_intimacy = true;
    let commands = run(BehaviorKind::Default, &mut data, &mut anim, &obs);
    assert!(commands.contains(&BehaviorCommand::StartRoaming));
    assert_eq!(data._next_behavior_state, BehaviorState::Follow);
    obs.is_player_too_far_for_intimacy = false;
    obs.intimacy_follow = IntimacyFollowResult::Moving;
    let commands = run(BehaviorKind::Default, &mut data, &mut anim, &obs);
    assert!(commands.contains(&BehaviorCommand::MoveTowardTarget));
    obs.intimacy_follow = IntimacyFollowResult::Arrived;
    run(BehaviorKind::Default, &mut data, &mut anim, &obs);
    assert_eq!(data._next_behavior_state, BehaviorState::Roaming);
}

#[test]
fn death_is_final() {
    let mut data = BehaviorData::default();
    data.set_next_behavior_state(BehaviorState::Dead, true);
    let mut anim = CharacterAnimationState::default();
    let mut obs = quiet();
    obs.is_end_behavior_time = true;
    obs.is_enemy_in_range = true;
    for _ in 0..3 {
        run(BehaviorKind::Roamer, &mut data, &mut anim, &obs);
        assert_eq!(data._next_behavior_state, BehaviorState::Dead);
    }
    assert_eq!(anim._next_action_animation_state, Some(ActionAnimationState::Dead));
}

#[test]
fn a_ufo_mind_does_nothing() {
    let mut data = BehaviorData::default();
    data.set_next_behavior_state(BehaviorState::Idle, true);
    let mut anim = CharacterAnimationState::default();
    assert!(run(BehaviorKind::Ufo, &mut data, &mut anim, &quiet()).is_empty());
    assert!(data._is_force);
}

#[test]
fn the_first_roamer_mind_switches_at_once() {
    let mut roamer = RoamerBehavior { _behavior_state: BehaviorState::Roaming };
    roamer.initialize_behavior();
    let obs = RoamerObservation {
        is_player_alive: true,
        is_enemy_in_range: false,
        is_player_in_chase_range: false,
        is_player_in_attack_range: false,
        is_idle_time_over: false,
        has_move_time_left: true,
        is_arrived: false,
        is_blocked: false,
        has_attack_time_left: false,
        is_attack_animation: false,
    };
    assert_eq!(roamer.update_behavior(&obs), vec![RoamerCommand::StopMoving, RoamerCommand::StartIdleTimer]);
    assert_eq!(roamer._behavior_state, BehaviorState::Idle);
    let mut near = obs;
    near.is_enemy_in_range = true;
    assert_eq!(roamer.update_behavior(&near), vec![RoamerCommand::PlayGrowl, RoamerCommand::CountDownIdleTime]);
    assert_eq!(roamer._behavior_state, BehaviorState::Chase);
    let mut in_reach = obs;
    in_reach.is_player_in_chase_range = true;
    in_reach.is_player_in_attack_range = true;
    let commands = roamer.update_behavior(&in_reach);
    assert!(commands.contains(&RoamerCommand::Attack));
    assert_eq!(roamer._behavior_state, BehaviorState::Attack);
}
