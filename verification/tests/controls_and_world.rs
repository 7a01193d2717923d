use stone_age::game_module::actors::foods::FoodManager;
use stone_age::game_module::actors::interaction_object::{choose_interaction_target, InteractionKind};
use stone_age::game_module::actors::item_updater::{create_item_updater, ItemUpdaterKind};
use stone_age::game_module::actors::items::api::ItemDataType;
use stone_age::game_module::actors::props::{Prop, PropCommand, PropData, PropDataType, PropObservation};
use stone_age::game_module::actors::weapons::WeaponDataType;
use stone_age::game_module::game_audio_manager::{AudioCommand, GameAudioManager};
use stone_age::game_module::game_controller::{
    choose_menu_action, choose_player_action, choose_quick_slot_action, get_direction, KeyBindingType, MenuAction,
    PlayerAction, QuickSlotAction, QuickSlotNavDirection, KEY_BINDING_COUNT,
};
use stone_age::game_module::game_resource::break_json_lines;
use stone_age::game_module::game_weather::{Weather, WeatherCommand, WeatherType};
use stone_age::game_module::game_ui_manager::{GameUIManager, InventorySlot};
use stone_age::game_module::save_data::save_data::PlayerRecords;
use stone_age::game_module::text::{str_contains, str_equals};

fn prop_observation() -> PropObservation {
    PropObservation {
        in_range: false,
        player_inside: false,
        is_interaction_object: false,
        attack_event: false,
        attack_power: 0,
        enter_gate_event: false,
        has_linked_gate: false,
        pickup_event: false,
        pickup_succeeded: false,
        open_toolbox_event: false,
    }
}

#[test]
fn key_binding_names_read_back() {
    let all = KeyBindingType::all_key_bindings();
    assert_eq!(all.len(), KEY_BINDING_COUNT);
    for k in all {
        assert_eq!(KeyBindingType::from_key_binding_name(k.get_key_binding_name()), Some(k));
    }
    assert_eq!(KeyBindingType::Nothing.get_key_binding_name(), "None");
    assert_eq!(KeyBindingType::from_key_binding_name("SelectItem10"), Some(KeyBindingType::SelectItem10));
    assert_eq!(KeyBindingType::from_key_binding_name("Fly"), None);
}

#[test]
fn navigation_prefers_left_right_up_down() {
    assert_eq!(get_direction(true, true, true, true), Some((-1, 0)));
    assert_eq!(get_direction(false, true, false, false), Some((1, 0)));
    assert_eq!(get_direction(false, false, true, true), Some((0, -1)));
    assert_eq!(get_direction(false, false, false, true), Some((0, 1)));
    assert_eq!(get_direction(false, false, false, false), None);
}

#[test]
fn buttons_choose_the_player_action() {
    assert_eq!(choose_player_action(true, true, true, true, true, true, ItemDataType::Hand), PlayerAction::Request);
    assert_eq!(choose_player_action(true, false, false, true, false, true, ItemDataType::Hand), PlayerAction::Attack);
    assert_eq!(choose_player_action(false, false, false, true, false, true, ItemDataType::FishingRod), PlayerAction::FishingBegin);
    assert_eq!(choose_player_action(false, false, false, true, false, true, ItemDataType::Food), PlayerAction::Eating);
    assert_eq!(choose_player_action(false, false, false, false, true, true, ItemDataType::Spear), PlayerAction::PowerAttack);
    assert_eq!(choose_player_action(false, false, false, false, true, true, ItemDataType::Hand), PlayerAction::Kick);
    assert_eq!(choose_player_action(false, false, false, true, true, false, ItemDataType::Hand), PlayerAction::Nothing);
}

#[test]
fn menu_and_quick_slots() {
    assert_eq!(choose_menu_action(true, true, true, true), MenuAction::OpenGameMenu);
    assert_eq!(choose_menu_action(false, true, false, false), MenuAction::OpenInventory);
    assert_eq!(choose_menu_action(false, false, false, true), MenuAction::SwitchQuickSlotRow);
    let digits = vec![false, false, true, false, true, false, false, false, false, false];
    assert_eq!(choose_quick_slot_action(true, false, None, &digits), QuickSlotAction::Select(2));
    assert_eq!(
        choose_quick_slot_action(true, true, Some(QuickSlotNavDirection::Next), &digits),
        QuickSlotAction::SelectNext
    );
    assert_eq!(choose_quick_slot_action(false, true, Some(QuickSlotNavDirection::Previous), &digits), QuickSlotAction::Nothing);
    assert_eq!(choose_quick_slot_action(true, false, None, &vec![false; 10]), QuickSlotAction::Nothing);
}

#[test]
fn taming_comes_first_among_interactions() {
    let held = vec![InteractionKind::Farming, InteractionKind::Taming, InteractionKind::Taming];
    assert_eq!(choose_interaction_target(&held), Some(1));
    assert_eq!(choose_interaction_target(&vec![InteractionKind::PropBed]), None);
    assert_eq!(InteractionKind::PropMonolith.get_interaction_name(), "Open Toolbox");
    assert_eq!(InteractionKind::Npc.get_interaction_name(), "Talk");
}

#[test]
fn a_new_prop_holds_a_drawn_number_of_items() {
    let mut data = PropData::default();
    data._prop_type = PropDataType::Harvestable;
    data._max_hp = 30;
    data._item_drop_count_min = 2;
    data._item_drop_count_max = 5;
    for id in 0..20u64 {
        let prop = Prop::create_prop(id, "tree", &data, 5);
        assert!(prop.is_alive());
        assert!(2 <= prop._prop_stats._item_count && prop._prop_stats._item_count <= 5);
        assert_eq!(prop._prop_stats._item_count, prop._prop_stats._item_count_max);
        assert_eq!(prop._prop_stats._prop_hp, 30);
    }
    let fixed = Prop::create_prop(7, "rock", &PropData::default(), 1);
    assert_eq!(fixed._prop_stats._item_count, 1);
}

#[test]
fn props_drop_what_they_hold() {
    let mut prop = Prop::create_prop_with_item_count(1, "bush", PropDataType::Harvestable, 10, 3, 3);
    assert_eq!(prop.drop_items(1), (1, 2));
    assert_eq!(prop.update_item_visible(), vec![true, true, false]);
    assert_eq!(prop.drop_items(5), (2, 0));
    assert!(!prop.can_drop_item());
    assert_eq!(prop.update_item_visible(), vec![false, false, false]);
}

#[test]
fn destructible_props_fall_and_drop_everything() {
    let mut prop = Prop::create_prop_with_item_count(1, "crate", PropDataType::Destruction, 60, 2, 2);
    let mut obs = prop_observation();
    obs.in_range = true;
    obs.attack_event = true;
    obs.attack_power = 50;
    let first = prop.update_prop_interaction(&obs);
    assert_eq!(first, vec![PropCommand::ShowHitEffect, PropCommand::AddInteraction(InteractionKind::PropGathering)]);
    obs.is_interaction_object = true;
    let second = prop.update_prop_interaction(&obs);
    assert_eq!(
        second,
        vec![
            PropCommand::ShowHitEffect,
            PropCommand::DropItems { count: 2, first_slot: 0 },
            PropCommand::RemoveProp,
            PropCommand::RemoveInteraction(InteractionKind::PropGathering),
        ]
    );
    assert!(!prop.is_alive());
}

#[test]
fn harvestable_props_regrow() {
    let mut prop = Prop::create_prop_with_item_count(1, "bush", PropDataType::Harvestable, 10, 2, 2);
    prop.drop_items(2);
    assert_eq!(prop.update_generate_item(false), stone_age::game_module::actors::props::RegenerateStep::Waiting);
    assert_eq!(prop.update_generate_item(true), stone_age::game_module::actors::props::RegenerateStep::Generated);
    assert_eq!(prop._prop_stats._item_count, 1);
    prop.set_hit_damage(100);
    assert!(prop.is_alive());
}

#[test]
fn gates_lead_on_and_monoliths_open_the_toolbox() {
    let mut gate = Prop::create_prop_with_item_count(1, "gate", PropDataType::Gate, 0, 0, 0);
    assert!(!gate.has_collision());
    let mut obs = prop_observation();
    obs.in_range = true;
    obs.enter_gate_event = true;
    obs.has_linked_gate = true;
    assert_eq!(
        gate.update_prop_interaction(&obs),
        vec![PropCommand::TeleportThroughGate, PropCommand::AddInteraction(InteractionKind::PropGate)]
    );
    let mut monolith = Prop::create_prop_with_item_count(2, "monolith", PropDataType::Monolith, 0, 0, 0);
    let mut obs = prop_observation();
    obs.in_range = true;
    obs.open_toolbox_event = true;
    obs.is_interaction_object = true;
    assert_eq!(monolith.update_prop_interaction(&obs), vec![PropCommand::SetNeedToolboxMode]);
}

#[test]
fn food_ids_are_never_reused() {
    let mut foods = FoodManager::create_food_manager();
    let a = foods.create_food();
    let b = foods.create_food();
    assert_ne!(a, b);
    assert!(foods.get_food(a));
    foods.remove_food(a);
    assert!(!foods.get_food(a));
    assert!(foods.get_food(b));
    let c = foods.create_food();
    assert_ne!(c, a);
    assert_ne!(c, b);
}

#[test]
fn item_kinds() {
    assert!(ItemDataType::Food.is_eatable());
    assert!(!ItemDataType::Rock.is_eatable());
    assert_eq!(ItemDataType::default(), ItemDataType::Nothing);
    assert_eq!(ItemDataType::SpiritBall.get_item_type_name(), "SpiritBall");
    assert_eq!(create_item_updater(ItemDataType::SpiritBall), ItemUpdaterKind::SpiritBall);
    assert_eq!(create_item_updater(ItemDataType::Wood), ItemUpdaterKind::Default);
    assert_eq!(WeaponDataType::get_weapon_material_instance_name(&WeaponDataType::WoodenClub), "ui/weapons/wooden_club");
    assert_eq!(WeaponDataType::get_weapon_material_instance_name(&WeaponDataType::Nothing), "");
}

#[test]
fn acquiring_items_updates_the_records() {
    let mut ui = GameUIManager { _player_records: PlayerRecords::default() };
    ui.notify_item_acquired("items/energy_ball", 2, Some(ItemDataType::EnergyBall));
    ui.notify_item_acquired("items/big_spirit_ball", 1, None);
    ui.notify_item_acquired("items/meat", 3, Some(ItemDataType::Food));
    let r = ui.get_player_records();
    assert_eq!(r._item_count, 6);
    assert_eq!(r._energy_balls, 2);
    assert_eq!(r._spirit_balls, 1);
    let food = r._item_type_counts.iter().find(|(n, _)| n == "Food").map(|(_, c)| *c);
    assert_eq!(food, Some(3));
    ui.notify_monster_killed("roamer");
    ui.notify_player_died();
    ui.notify_tamed();
    ui.notify_friend_made();
    ui.notify_item_crafted();
    ui.notify_map_visited("game_scenes/world_map");
    let r = ui.get_player_records();
    assert_eq!(r.get_total_monster_kills(), 1);
    assert_eq!((r._death_count, r._taming_count, r._friend_count, r._craft_count), (1, 1, 1, 1));
    assert_eq!(r.get_visited_map_count(), 1);
    ui.clear_player_records();
    assert_eq!(ui.get_player_records()._item_count, 0);
}

#[test]
fn weather_changes_stage_by_stage() {
    let mut w = Weather::default();
    w.set_next_weather(WeatherType::Rain);
    let mut commands = Vec::new();
    for (stage, weather) in w.schedule_weather() {
        commands.extend(w.update_weather_stage(stage, weather));
    }
    assert_eq!(commands, vec![WeatherCommand::StartRain, WeatherCommand::UpdateRain]);
    assert_eq!(w.get_weather_type(), WeatherType::Rain);
    w.set_next_weather(WeatherType::Nothing);
    let mut commands = Vec::new();
    for (stage, weather) in w.schedule_weather() {
        commands.extend(w.update_weather_stage(stage, weather));
    }
    assert_eq!(commands, vec![WeatherCommand::StopRain]);
    assert_eq!(w.get_weather_type(), WeatherType::Nothing);
}

#[test]
fn sound_follows_weather_and_hour() {
    let mut audio = GameAudioManager::default();
    let commands = audio.update_game_sound(WeatherType::Nothing, false, false, false);
    assert_eq!(commands, vec![AudioCommand::PlayAmbientSound, AudioCommand::PlayGameMusic]);
    assert_eq!(audio._ambient_sound_name, "ambient_sound");
    assert!(audio.update_game_sound(WeatherType::Nothing, false, true, true).is_empty());
    let commands = audio.update_game_sound(WeatherType::Rain, false, true, true);
    assert_eq!(commands, vec![AudioCommand::PlayAmbientSound, AudioCommand::StopBgm]);
    assert_eq!(audio._ambient_sound_name, "ambient_sound_rain");
}

#[test]
fn saved_scenes_put_each_key_on_a_line() {
    let json = br#"{"a":1,"b":[1,2],"c":"x,y"}"#.to_vec();
    let broken = break_json_lines(&json);
    assert_eq!(String::from_utf8(broken).unwrap(), "{\"a\":1,\n\"b\":[1,2],\n\"c\":\"x,y\"}");
    assert!(break_json_lines(&Vec::new()).is_empty());
}

#[test]
fn text_helpers() {
    assert!(str_equals("abc", "abc"));
    assert!(!str_equals("abc", "abd"));
    assert!(str_contains("items/energy_ball", "energy_ball"));
    assert!(str_contains("anything", ""));
    assert!(!str_contains("ball", "energy_ball"));
}

fn slot(name: &str, count: usize, item_type: ItemDataType) -> InventorySlot {
    InventorySlot { _item_data_name: String::from(name), _item_count: count, _item_type: item_type }
}

#[test]
fn the_first_food_in_the_inventory_is_eaten() {
    let ui = GameUIManager { _player_records: PlayerRecords::default() };
    let slots = vec![
        slot("items/rock", 4, ItemDataType::Rock),
        slot("items/meat", 0, ItemDataType::Food),
        slot("items/berry", 2, ItemDataType::Food),
        slot("items/fish", 1, ItemDataType::Food),
    ];
    assert_eq!(ui.find_eatable_inventory_item_data_name(&slots), Some(String::from("items/berry")));
    let no_food = vec![slot("items/rock", 4, ItemDataType::Rock), slot("items/meat", 0, ItemDataType::Food)];
    assert_eq!(ui.find_eatable_inventory_item_data_name(&no_food), None);
    assert_eq!(ui.find_eatable_inventory_item_data_name(&vec![]), None);
}

#[test]
fn a_prop_of_no_kind_is_left_as_it_is() {
    let mut prop = Prop::create_prop_with_item_count(1, "nothing", PropDataType::Nothing, 10, 2, 2);
    let before = prop._prop_stats;
    let mut obs = prop_observation();
    obs.in_range = true;
    obs.attack_event = true;
    obs.attack_power = 5;
    assert!(prop.update_prop_interaction(&obs).is_empty());
    assert_eq!(prop._prop_stats, before);
    assert!(!prop._prop_stats._is_in_player_range);
}
