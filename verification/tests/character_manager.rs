use stone_age::game_module::actors::character::actor::Character;
use stone_age::game_module::actors::character::data::{CharacterDataType, CharacterPowerData};
use stone_age::game_module::actors::character::manager::{CharacterManager, InteractionUiCommand};
use stone_age::game_module::actors::interaction_object::InteractionKind;
use stone_age::game_module::actors::character::data::{ActionAnimationState, MoveAnimationState};
use stone_age::game_module::actors::character::stats::{CharacterAnimationState, CharacterStats};
use stone_age::game_module::behavior::behavior_base::BehaviorData;

fn character(is_player: bool, character_type: CharacterDataType) -> Character {
    Character {
        _character_id: 0,
        _is_player: is_player,
        _character_type: character_type,
        _power_data: CharacterPowerData::default(),
        _character_stats: CharacterStats::create_character_stats(),
        _animation_state: CharacterAnimationState::default(),
        _behavior: BehaviorData::default(),
    }
}

fn tamed() -> Character {
    let mut c = character(false, CharacterDataType::Roamer);
    c.set_tamed(true);
    c
}

fn dead(mut c: Character) -> Character {
    c.set_damage(10_000);
    c
}

fn scene() -> CharacterManager {
    numbered(vec![
            character(false, CharacterDataType::Roamer),
            character(true, CharacterDataType::Player),
            tamed(),
            character(false, CharacterDataType::Civilian),
        ])
}

#[test]
fn the_player_lives_until_killed() {
    let mut m = scene();
    assert!(m.is_player_alive());
    m._characters[1] = dead(m._characters[1]);
    assert!(!m.is_player_alive());
    let empty = CharacterManager::create_character_manager();
    assert!(!empty.is_player_alive());
}

#[test]
fn removing_a_character_keeps_the_others_in_order() {
    let mut m = scene();
    m.remove_character(0);
    assert_eq!(m._characters.len(), 3);
    assert!(m._characters[0].is_player());
    assert!(m._characters[1].is_tamed());
    assert!(m._characters[2].is_civilian());
}

#[test]
fn removing_marked_characters_at_once() {
    let mut m = scene();
    m.remove_characters(&vec![true, false, true, false]);
    assert_eq!(m._characters.len(), 2);
    assert!(m._characters[0].is_player());
    assert!(m._characters[1].is_civilian());
    m.remove_characters(&vec![false, false]);
    assert_eq!(m._characters.len(), 2);
}

#[test]
fn clearing_spares_only_the_player() {
    let mut m = scene();
    m.clear_characters(false);
    assert_eq!(m._characters.len(), 1);
    assert!(m._characters[0].is_player());
    assert!(m.is_player_alive());
    m.clear_characters(true);
    assert!(m._characters.is_empty());
    assert!(!m.is_player_alive());
}

#[test]
fn a_farmed_corpse_leaves_a_spirit_ball_and_three_pieces_of_meat() {
    let mut m = scene();
    m._characters[0] = dead(m._characters[0]);
    let drops = m.farm_character(0);
    assert_eq!(drops, vec!["items/spirit_ball", "items/meat", "items/meat", "items/meat"]);
    assert_eq!(m._characters.len(), 3);
    assert!(m._characters[0].is_player());
}

#[test]
fn the_player_chooses_no_target() {
    let m = scene();
    assert_eq!(m.choose_ai_target(1, 1, false, &vec![1, 0, 1, 1], 5), None);
}

#[test]
fn a_tamed_monster_hunts_the_nearest_wild_monster_in_range() {
    let m = numbered(vec![
            character(false, CharacterDataType::Roamer),
            character(true, CharacterDataType::Player),
            tamed(),
            character(false, CharacterDataType::Roamer),
            character(false, CharacterDataType::Roamer),
        ]);
    // the nearer of two in range, the first of two equally near
    assert_eq!(m.choose_ai_target(2, 1, false, &vec![4, 1, 0, 3, 3], 5), Some(3));
    // out of range: nobody, or the player when following
    assert_eq!(m.choose_ai_target(2, 1, false, &vec![6, 1, 0, 9, 7], 5), None);
    assert_eq!(m.choose_ai_target(2, 1, true, &vec![6, 1, 0, 9, 7], 5), Some(1));
    // a prey in range wins over following
    assert_eq!(m.choose_ai_target(2, 1, true, &vec![2, 1, 0, 9, 7], 5), Some(0));
}

#[test]
fn a_tamed_monster_ignores_corpses() {
    let m = numbered(vec![dead(character(false, CharacterDataType::Roamer)), character(true, CharacterDataType::Player), tamed()]);
    assert_eq!(m.choose_ai_target(2, 1, false, &vec![1, 1, 0], 5), None);
}

#[test]
fn a_wild_monster_hunts_the_player_or_a_nearer_tamed_monster() {
    let m = numbered(vec![
            character(false, CharacterDataType::Roamer),
            character(true, CharacterDataType::Player),
            tamed(),
        ]);
    assert_eq!(m.choose_ai_target(0, 1, false, &vec![0, 2, 4], 5), Some(1));
    assert_eq!(m.choose_ai_target(0, 1, false, &vec![0, 4, 2], 5), Some(2));
    // the player wins ties
    assert_eq!(m.choose_ai_target(0, 1, false, &vec![0, 3, 3], 5), Some(1));
    // the player out of range: only the tamed monster
    assert_eq!(m.choose_ai_target(0, 1, false, &vec![0, 8, 4], 5), Some(2));
    assert_eq!(m.choose_ai_target(0, 1, false, &vec![0, 8, 9], 5), None);
    // following the player
    assert_eq!(m.choose_ai_target(0, 1, true, &vec![0, 8, 2], 5), Some(1));
}

#[test]
fn a_wild_monster_leaves_a_dead_player_alone() {
    let mut m = numbered(vec![character(false, CharacterDataType::Roamer), character(true, CharacterDataType::Player)]);
    m._characters[1] = dead(m._characters[1]);
    assert_eq!(m.choose_ai_target(0, 1, false, &vec![0, 1], 5), None);
}

fn numbered(cs: Vec<Character>) -> CharacterManager {
    let mut m = CharacterManager::create_character_manager();
    for (i, mut c) in cs.into_iter().enumerate() {
        c._character_id = 10 + i as u64;
        assert_eq!(m.create_character(c), i);
    }
    m
}

#[test]
fn characters_are_found_by_id() {
    let m = numbered(vec![character(false, CharacterDataType::Roamer), character(true, CharacterDataType::Player)]);
    assert_eq!(m.get_character(11), Some(1));
    assert_eq!(m.get_character(10), Some(0));
    assert_eq!(m.get_character(12), None);
}

#[test]
fn a_removed_character_leaves_stopped_hidden_and_out_of_reach() {
    let mut m = numbered(vec![tamed(), character(true, CharacterDataType::Player)]);
    m._characters[0]._character_stats._is_stat_displayed = true;
    m._player_interactions = vec![(InteractionKind::Npc, 10), (InteractionKind::PropBed, 99), (InteractionKind::Npc, 11)];
    let gone = m.remove_character(0);
    assert_eq!(gone._character_id, 10);
    assert!(!gone._character_stats._is_stat_displayed);
    assert_eq!(gone._animation_state._next_action_animation_state, Some(ActionAnimationState::Nothing));
    assert_eq!(gone._animation_state._next_move_animation_state, MoveAnimationState::Nothing);
    assert_eq!(m._player_interactions, vec![(InteractionKind::PropBed, 99), (InteractionKind::Npc, 11)]);
}

#[test]
fn farming_drops_the_players_interactions_with_the_corpse() {
    let mut m = numbered(vec![dead(character(false, CharacterDataType::Roamer)), character(true, CharacterDataType::Player)]);
    m._player_interactions = vec![(InteractionKind::Taming, 10), (InteractionKind::Farming, 10)];
    m.farm_character(0);
    assert!(m._player_interactions.is_empty());
    assert_eq!(m._characters.len(), 1);
}

#[test]
fn removing_and_clearing_drop_the_interactions_with_those_gone() {
    let mut m = numbered(vec![tamed(), character(true, CharacterDataType::Player), character(false, CharacterDataType::Civilian)]);
    m._player_interactions = vec![(InteractionKind::Npc, 10), (InteractionKind::Npc, 12)];
    m.remove_characters(&vec![false, false, true]);
    assert_eq!(m._player_interactions, vec![(InteractionKind::Npc, 10)]);
    m.clear_characters(false);
    assert!(m._player_interactions.is_empty());
    assert_eq!(m._characters.len(), 1);
}

#[test]
fn the_interface_offers_taming_and_farming_of_a_near_corpse() {
    let mut corpse = dead(character(false, CharacterDataType::Roamer));
    corpse.set_is_dead_loop(true);
    let mut m = numbered(vec![corpse, character(true, CharacterDataType::Player)]);
    let changes = m.update_character_interaction_ui(0, true);
    assert_eq!(changes, vec![InteractionUiCommand::Add(InteractionKind::Taming), InteractionUiCommand::Add(InteractionKind::Farming)]);
    assert_eq!(m._player_interactions, vec![(InteractionKind::Taming, 10), (InteractionKind::Farming, 10)]);
    assert!(m.update_character_interaction_ui(0, true).is_empty());
    m.update_character_interaction_ui(0, false);
    assert!(m._player_interactions.is_empty());
}

#[test]
fn a_character_of_a_known_id_takes_its_place() {
    let mut m = numbered(vec![character(false, CharacterDataType::Roamer), character(true, CharacterDataType::Player)]);
    let mut again = tamed();
    again._character_id = 10;
    assert_eq!(m.create_character(again), 0);
    assert_eq!(m._characters.len(), 2);
    assert!(m._characters[0].is_tamed());
    let mut newcomer = character(false, CharacterDataType::Civilian);
    newcomer._character_id = 42;
    assert_eq!(m.create_character(newcomer), 2);
    assert_eq!(m.get_character(42), Some(2));
}

#[test]
fn only_dead_monsters_that_have_lain_long_enough_expire() {
    let corpse = dead(character(false, CharacterDataType::Roamer));
    assert!(corpse.is_expired_corpse(true));
    assert!(!corpse.is_expired_corpse(false));
    assert!(!dead(character(false, CharacterDataType::Civilian)).is_expired_corpse(true));
    assert!(!character(false, CharacterDataType::Roamer).is_expired_corpse(true));
}
