use stone_age::game_module::actors::character::actor::{Character, DamageOutcome, InteractionCommand};
use stone_age::game_module::actors::character::data::{
    ActionAnimationState, ActionEvent, CharacterDataType, CharacterPowerData, MoveAnimationState,
};
use stone_age::game_module::actors::character::manager::{
    update_interaction_ui, CharacterManager, InteractionUiCommand,
};
use stone_age::game_module::actors::character::stats::{CharacterAnimationState, CharacterStats};
use stone_age::game_module::actors::interaction_object::InteractionKind;
use stone_age::game_module::behavior::behavior_base::{BehaviorData, BehaviorState};

fn character(is_player: bool, character_type: CharacterDataType) -> Character {
    Character {
        _character_id: 0,
        _is_player: is_player,
        _character_type: character_type,
        _power_data: CharacterPowerData::default(),
        _character_stats: CharacterStats::create_character_stats(),
        _animation_state: CharacterAnimationState::default(),
        _behavior: BehaviorData::default(),
    }
}

#[test]
fn power_of_each_attack() {
    let c = character(true, CharacterDataType::Player);
    assert_eq!(c.get_power(ActionEvent::Attack), 50);
    assert_eq!(c.get_power(ActionEvent::PowerAttack), 100);
    assert_eq!(c.get_power(ActionEvent::Kick), 70);
}

#[test]
fn a_blow_hurts_and_the_last_one_kills() {
    let mut c = character(false, CharacterDataType::Roamer);
    assert_eq!(c.set_damage(30), DamageOutcome::Hurt);
    assert_eq!(c._character_stats._hp, 70);
    assert!(c.is_alive());
    assert_eq!(c.set_damage(70), DamageOutcome::Died);
    assert_eq!(c._character_stats._hp, 0);
    assert!(!c.is_alive());
    assert_eq!(c.get_corpse_hit_count(), 3);
    assert_eq!(c._animation_state._next_action_animation_state, Some(ActionAnimationState::Dead));
    assert_eq!(c._behavior._next_behavior_state, BehaviorState::Dead);
    assert!(c._behavior._is_force);
}

#[test]
fn no_damage_does_nothing() {
    let mut c = character(false, CharacterDataType::Roamer);
    let before = c;
    assert_eq!(c.set_damage(0), DamageOutcome::Ignored);
    assert_eq!(c.set_damage(-5), DamageOutcome::Ignored);
    assert_eq!(c, before);
    assert_eq!(c.set_hit_damage(0), None);
}

#[test]
fn a_corpse_takes_three_hits_then_nothing() {
    let mut c = character(false, CharacterDataType::Roamer);
    c.set_damage(500);
    c.set_is_dead_loop(true);
    assert!(c.is_corpse());
    assert_eq!(c.set_damage(5), DamageOutcome::CorpseHit);
    assert_eq!(c.set_damage(5), DamageOutcome::CorpseHit);
    assert_eq!(c.set_damage(5), DamageOutcome::CorpseHit);
    assert_eq!(c.get_corpse_hit_count(), 0);
    assert_eq!(c.set_damage(5), DamageOutcome::Ignored);
    assert_eq!(c.get_corpse_hit_count(), 0);
}

#[test]
fn a_hurt_player_flinches_unless_rolling() {
    let mut p = character(true, CharacterDataType::Player);
    p.set_damage(10);
    assert_eq!(p._animation_state._next_action_animation_state, Some(ActionAnimationState::Hit));
    let mut rolling = character(true, CharacterDataType::Player);
    rolling._animation_state._move_animation_state = MoveAnimationState::Roll;
    rolling.set_damage(10);
    assert_eq!(rolling._animation_state._next_action_animation_state, None);
    let mut monster = character(false, CharacterDataType::Roamer);
    monster.set_damage(10);
    assert_eq!(monster._animation_state._next_action_animation_state, None);
}

#[test]
fn falling_hurts_ten_per_unit() {
    let mut c = character(true, CharacterDataType::Player);
    assert_eq!(c.check_falling_on_ground_damage(2), Some(DamageOutcome::Hurt));
    assert_eq!(c._character_stats._hp, 80);
    assert_eq!(c.check_falling_on_ground_damage(0), None);
    assert_eq!(c._character_stats._hp, 80);
}

#[test]
fn water_takes_all_health() {
    let mut c = character(true, CharacterDataType::Player);
    assert_eq!(c.check_falling_in_water_damage(), DamageOutcome::Died);
    assert!(!c.is_alive());
}

#[test]
fn taming_revives_a_corpse() {
    let mut c = character(false, CharacterDataType::Roamer);
    c.set_damage(100);
    c.set_is_dead_loop(true);
    c.tame();
    assert!(c.is_alive());
    assert!(c.is_tamed());
    assert!(!c.is_corpse());
    assert_eq!(c._character_stats._hp, 100);
    assert_eq!(c._behavior._next_behavior_state, BehaviorState::WakeUp);
}

#[test]
fn the_player_hits_wild_monsters_in_range_only() {
    let mut player = character(true, CharacterDataType::Player);
    player._animation_state._action_event = ActionEvent::Attack;
    let wild = character(false, CharacterDataType::Roamer);
    let far = character(false, CharacterDataType::Roamer);
    let mut tamed = character(false, CharacterDataType::Roamer);
    tamed.set_tamed(true);
    let civilian = character(false, CharacterDataType::Civilian);
    let mut manager = numbered(vec![player, wild, far, tamed, civilian]);
    let report = manager.resolve_attack(0, &vec![true, true, false, true, true]);
    assert_eq!(manager._characters[1]._character_stats._hp, 50);
    assert_eq!(manager._characters[2]._character_stats._hp, 100);
    assert_eq!(manager._characters[3]._character_stats._hp, 100);
    assert_eq!(manager._characters[4]._character_stats._hp, 100);
    assert_eq!(manager._characters[0]._character_stats._hp, 100);
    assert!(report.dead.is_empty());
    assert_eq!(report.focus, Some(4));
    assert_eq!(report.results[1].first, Some(DamageOutcome::Hurt));
}

#[test]
fn a_killing_blow_is_reported() {
    let mut player = character(true, CharacterDataType::Player);
    player._animation_state._action_event = ActionEvent::PowerAttack;
    let wild = character(false, CharacterDataType::Roamer);
    let mut manager = numbered(vec![wild, player]);
    let report = manager.resolve_attack(1, &vec![true, true]);
    assert_eq!(report.dead, vec![0]);
    assert!(!manager._characters[0].is_alive());
}

#[test]
fn wild_monsters_hit_the_player_and_tamed_monsters() {
    let player = character(true, CharacterDataType::Player);
    let mut wild = character(false, CharacterDataType::Roamer);
    wild._animation_state._action_event = ActionEvent::Kick;
    let mut tamed = character(false, CharacterDataType::Roamer);
    tamed.set_tamed(true);
    let other_wild = character(false, CharacterDataType::Roamer);
    let mut manager = numbered(vec![player, wild, tamed, other_wild]);
    manager.resolve_attack(1, &vec![true, true, true, true]);
    assert_eq!(manager._characters[0]._character_stats._hp, 30);
    assert_eq!(manager._characters[2]._character_stats._hp, 30);
    assert_eq!(manager._characters[3]._character_stats._hp, 100);
}

#[test]
fn invincible_characters_are_not_hit() {
    let mut player = character(true, CharacterDataType::Player);
    player.set_invincibility(true);
    let mut wild = character(false, CharacterDataType::Roamer);
    wild._animation_state._action_event = ActionEvent::Attack;
    let mut manager = numbered(vec![player, wild]);
    manager.resolve_attack(1, &vec![true, true]);
    assert_eq!(manager._characters[0]._character_stats._hp, 100);
}

#[test]
fn corpses_offer_taming_and_farming_when_near() {
    let mut c = character(false, CharacterDataType::Roamer);
    c.set_damage(100);
    c.set_is_dead_loop(true);
    assert_eq!(
        update_interaction_ui(&c, false, true, true),
        vec![
            InteractionUiCommand::Remove(InteractionKind::Npc),
            InteractionUiCommand::Add(InteractionKind::Taming),
            InteractionUiCommand::Add(InteractionKind::Farming),
        ]
    );
    assert_eq!(
        update_interaction_ui(&c, true, false, false),
        vec![
            InteractionUiCommand::Remove(InteractionKind::Taming),
            InteractionUiCommand::Remove(InteractionKind::Farming),
        ]
    );
}

#[test]
fn civilians_offer_a_talk_when_near() {
    let c = character(false, CharacterDataType::Civilian);
    assert_eq!(update_interaction_ui(&c, false, false, true), vec![InteractionUiCommand::Add(InteractionKind::Npc)]);
    assert_eq!(update_interaction_ui(&c, false, true, false), vec![InteractionUiCommand::Remove(InteractionKind::Npc)]);
    assert!(update_interaction_ui(&c, false, true, true).is_empty());
}

#[test]
fn interacting_with_a_table_sits_down_and_with_a_corpse_tames() {
    let mut p = character(true, CharacterDataType::Player);
    p._animation_state._move_animation_state = MoveAnimationState::Idle;
    let commands = p.set_action_interaction(true, &vec![InteractionKind::PropTable], InteractionKind::PropTable, false, false);
    assert_eq!(commands, vec![InteractionCommand::LookAtTarget]);
    assert_eq!(p._animation_state._next_move_animation_state, MoveAnimationState::SitDownLoop);

    let mut q = character(true, CharacterDataType::Player);
    let commands = q.set_action_interaction(true, &vec![InteractionKind::Taming], InteractionKind::Taming, false, false);
    assert_eq!(commands, vec![InteractionCommand::TameTarget]);
    assert_eq!(q._animation_state._next_action_animation_state, Some(ActionAnimationState::Pickup));

    let mut r = character(true, CharacterDataType::Player);
    let commands = r.set_action_interaction(true, &vec![InteractionKind::Npc], InteractionKind::Npc, true, false);
    assert_eq!(commands, vec![InteractionCommand::LookAtTarget, InteractionCommand::TalkToNpc { fed: true }]);

    let mut in_air = character(true, CharacterDataType::Player);
    assert!(in_air.set_action_interaction(false, &vec![InteractionKind::PropBed], InteractionKind::PropBed, false, false).is_empty());
}

#[test]
fn a_taming_at_hand_comes_before_the_nearest_interaction() {
    let mut p = character(true, CharacterDataType::Player);
    let held = vec![InteractionKind::Npc, InteractionKind::Farming, InteractionKind::Taming];
    let commands = p.set_action_interaction(true, &held, InteractionKind::Npc, false, false);
    assert_eq!(commands, vec![InteractionCommand::TameTarget]);
    let mut q = character(true, CharacterDataType::Player);
    let held = vec![InteractionKind::PropTable, InteractionKind::Npc];
    let commands = q.set_action_interaction(true, &held, InteractionKind::Npc, true, true);
    assert_eq!(commands, vec![InteractionCommand::LookAtTarget, InteractionCommand::TalkToNpc { fed: false }]);
}

#[test]
fn farming_a_corpse_uses_it_up() {
    let mut c = character(false, CharacterDataType::Roamer);
    c.set_damage(100);
    assert!(!c.receive_farming());
    assert!(!c.receive_farming());
    assert!(c.receive_farming());
}

#[test]
fn talking_without_food_shows_the_stats() {
    let mut c = character(false, CharacterDataType::Civilian);
    c.receive_talk(false);
    assert!(c._character_stats._is_stat_displayed);
    assert_eq!(c._behavior._next_behavior_state, BehaviorState::Interaction);
    let mut d = character(false, CharacterDataType::Civilian);
    d.receive_talk(true);
    assert!(!d._character_stats._is_stat_displayed);
}

#[test]
fn health_stays_within_its_bounds() {
    let mut s = CharacterStats::create_character_stats();
    s.set_hp(250);
    assert_eq!(s.get_hp(), 100);
    s.set_hp(-3);
    assert_eq!(s.get_hp(), 0);
    s.add_hp(40);
    assert_eq!(s.get_hp(), 40);
    s.limit_max_hp(30);
    assert_eq!(s.get_max_hp(), 30);
    assert_eq!(s.get_hp(), 30);
    s.set_max_hp(500);
    assert_eq!(s.get_max_hp(), 100);
}

#[test]
fn saved_stats_load_back() {
    let mut s = CharacterStats::create_character_stats();
    s.set_hp(42);
    let saved = s.get_character_stats_save_data();
    let mut t = CharacterStats::create_character_stats();
    t.load_character_stats_save_data(&saved);
    assert_eq!(t, s);
}

#[test]
fn request_names() {
    assert_eq!(CharacterDataType::Chef.get_request_name(), Some("Cooking"));
    assert_eq!(CharacterDataType::Crafter.get_request_name(), Some("Craft"));
    assert_eq!(CharacterDataType::Roamer.get_request_name(), None);
    assert!(CharacterDataType::Ufo.can_fly());
    assert!(!CharacterDataType::Player.can_fly());
}

fn numbered(cs: Vec<Character>) -> CharacterManager {
    let mut m = CharacterManager::create_character_manager();
    for (i, mut c) in cs.into_iter().enumerate() {
        c._character_id = i as u64;
        m.create_character(c);
    }
    m
}

#[test]
fn a_blow_on_a_dead_character_never_touches_its_health() {
    let mut c = character(false, CharacterDataType::Roamer);
    c.set_damage(500);
    c._character_stats._hp = i32::MIN;
    assert_eq!(c.set_damage(i32::MAX), DamageOutcome::CorpseHit);
    assert_eq!(c._character_stats._hp, i32::MIN);
    assert_eq!(c.get_corpse_hit_count(), 2);
}
