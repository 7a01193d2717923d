use stone_age::game_module::save_data::save_data::PlayerRecords;

#[test]
fn activity_stat_starts_at_zero_and_adds_up() {
    let mut records = PlayerRecords::default();
    assert_eq!(records.get_activity_stat("fishing"), 0);
    records.increment_activity_stat("fishing", 2);
    records.increment_activity_stat("fishing", 3);
    records.increment_activity_stat("cooking", 1);
    assert_eq!(records.get_activity_stat("fishing"), 5);
    assert_eq!(records.get_activity_stat("cooking"), 1);
    assert_eq!(records.get_activity_stat("sleeping"), 0);
}

#[test]
fn counters_saturate_at_the_largest_value() {
    let mut records = PlayerRecords::default();
    records.add_item_count(u32::MAX - 1);
    records.add_item_count(5);
    assert_eq!(records._item_count, u32::MAX);
    records.add_craft_count(3);
    records.add_death_count(1);
    records.add_taming_count(2);
    records.add_friend_count(4);
    records.add_energy_balls(7);
    records.add_spirit_balls(8);
    assert_eq!(records._craft_count, 3);
    assert_eq!(records._death_count, 1);
    assert_eq!(records._taming_count, 2);
    assert_eq!(records._friend_count, 4);
    assert_eq!(records._energy_balls, 7);
    assert_eq!(records._spirit_balls, 8);
}

#[test]
fn map_visits_count_each_map_once_and_ignore_empty_names() {
    let mut records = PlayerRecords::default();
    records.record_map_visit("game_scenes/stage_01");
    records.record_map_visit("game_scenes/stage_01");
    records.record_map_visit("");
    records.record_map_visit("game_scenes/stage_cave");
    assert_eq!(records.get_visited_map_count(), 2);
}

#[test]
fn monster_kills_are_tallied_by_name_and_summed() {
    let mut records = PlayerRecords::default();
    records.add_monster_kill("roamer");
    records.add_monster_kill("roamer");
    records.add_monster_kill("ufo");
    assert_eq!(records.get_total_monster_kills(), 3);
    assert_eq!(records._monster_kill_counts.len(), 2);
}

#[test]
fn item_type_counts_add_up_by_kind() {
    let mut records = PlayerRecords::default();
    records.add_item_type_count("Food", 2);
    records.add_item_type_count("Wood", 1);
    records.add_item_type_count("Food", 3);
    let food = records._item_type_counts.iter().find(|(name, _)| name == "Food").map(|(_, c)| *c);
    assert_eq!(food, Some(5));
}

#[test]
fn reset_forgets_everything() {
    let mut records = PlayerRecords::default();
    records.add_item_count(3);
    records.record_map_visit("game_scenes/world_map");
    records.add_monster_kill("roamer");
    records.increment_activity_stat("fishing", 1);
    records.reset();
    assert_eq!(records._item_count, 0);
    assert_eq!(records.get_visited_map_count(), 0);
    assert_eq!(records.get_total_monster_kills(), 0);
    assert_eq!(records.get_activity_stat("fishing"), 0);
}
