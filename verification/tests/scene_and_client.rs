use stone_age::game_module::game_client::{GameClient, GameCommand, GamePhase, PhaseObservation};
use stone_age::game_module::game_scene_manager::{
    GameSceneManager, GameSceneState, SceneUpdateAction, Stages, TeleportCommand,
};
use stone_age::game_module::state_cycle::State;

fn observation() -> PhaseObservation {
    PhaseObservation {
        any_key_pressed: false,
        is_done_manual_fade_out: false,
        is_done_game_image_progress: false,
        is_game_debug_menu_opened: false,
        is_game_menu_opened: false,
        is_toolbox_opened: false,
        is_requested_close_world_map: false,
        is_player_valid: true,
        is_player_alive: true,
        is_camera_auto_blend_mode: false,
        is_player_fishing: false,
    }
}

fn run_update(client: &mut GameClient, scene: &mut GameSceneManager, obs: &PhaseObservation) -> Vec<GameCommand> {
    let mut all = Vec::new();
    for (stage, phase) in client.schedule_game_phase() {
        let (commands, _teleports) = client.update_game_phase_stage(stage, phase, obs, scene);
        all.extend(commands);
    }
    all
}

#[test]
fn stage_names() {
    assert_eq!(Stages::Home.get_stage_display_name(), "HOME");
    assert_eq!(Stages::WorldMap.get_stage_display_name(), "WORLD MAP");
    assert_eq!(Stages::Nothing.get_stage_display_name(), "");
    assert_eq!(Stages::Forest.get_stage_data_name(), "game_scenes/stage_01");
    assert_eq!(Stages::Ufo.get_stage_data_name(), "game_scenes/stage_ufo");
}

#[test]
fn stages_are_found_by_their_data_name() {
    for stage in [Stages::Nothing, Stages::Home, Stages::Forest, Stages::Cave, Stages::WorldMap, Stages::Ufo] {
        assert_eq!(Stages::find_stage_value(stage.get_stage_data_name()), stage);
    }
    assert_eq!(Stages::find_stage_value("game_scenes/stage_cave"), Stages::Cave);
}

#[test]
fn a_new_scene_manager_waits_on_day_one() {
    let scene = GameSceneManager::create_game_scene_manager();
    assert_eq!(scene.get_date(), 1);
    assert!(!scene.is_teleport_mode());
    assert!(!scene.is_teleport_stage());
    assert_eq!(scene.get_game_scene_state(), GameSceneState::Nothing);
}

#[test]
fn teleport_through_a_gate_travels_then_places_the_player() {
    let mut scene = GameSceneManager::create_game_scene_manager();
    scene.open_game_scene_data("game_scenes/intro_stage");
    assert_eq!(scene.update_game_scene_state(false), SceneUpdateAction::WaitLoading);
    assert_eq!(scene.update_game_scene_state(true), SceneUpdateAction::SpawnSceneObjects);
    assert_eq!(scene.update_game_scene_state(false), SceneUpdateAction::UpdateWorld);
    assert!(scene.is_game_scene_state(GameSceneState::LoadCompleted));

    scene.set_teleport_stage("game_scenes/stage_01", "gate");
    assert!(scene.is_teleport_mode());
    assert!(scene.is_teleport_stage());
    let travel = scene.update_teleport();
    assert_eq!(travel.len(), 1);
    assert!(matches!(&travel[0], TeleportCommand::GotoGameScene(name) if name == "game_scenes/stage_01"));
    assert_eq!(scene.get_current_game_scene_data_name(), "game_scenes/stage_01");

    assert!(scene.update_teleport().is_empty());
    scene.update_game_scene_state(true);
    scene.update_game_scene_state(false);
    let place = scene.update_teleport();
    assert_eq!(place.len(), 1);
    assert!(matches!(&place[0], TeleportCommand::PlacePlayerAtGate(name) if name == "gate"));
    assert!(!scene.is_teleport_mode());
}

#[test]
fn respawning_at_home_places_the_player_at_the_bed() {
    let mut scene = GameSceneManager::create_game_scene_manager();
    scene.open_game_scene_data("game_scenes/intro_stage");
    scene.update_game_scene_state(true);
    scene.update_game_scene_state(false);
    scene.set_teleport_spawn_point("game_scenes/intro_stage", "bed_for_aru");
    let commands = scene.update_teleport();
    assert_eq!(commands.len(), 1);
    assert!(matches!(&commands[0], TeleportCommand::RespawnPlayerAtProp(name) if name == "bed_for_aru"));
    assert!(!scene.is_teleport_mode());
}

#[test]
fn the_game_boots_into_play() {
    let mut client = GameClient::create_game_client();
    let mut scene = GameSceneManager::create_game_scene_manager();
    let mut obs = observation();
    run_update(&mut client, &mut scene, &obs);
    assert!(client.is_game_phase(GamePhase::Start));
    assert!(client.is_next_game_phase(GamePhase::TitleScreen));
    run_update(&mut client, &mut scene, &obs);
    assert!(client.is_game_phase(GamePhase::TitleScreen));
    assert!(client.is_next_game_phase(GamePhase::TitleScreen));
    obs.any_key_pressed = true;
    run_update(&mut client, &mut scene, &obs);
    obs.is_done_manual_fade_out = true;
    let commands = run_update(&mut client, &mut scene, &obs);
    assert!(client.is_game_phase(GamePhase::BeginLoading));
    assert!(commands.contains(&GameCommand::LoadGame));
    assert!(client.is_next_game_phase(GamePhase::LoadingProgress));
    scene.open_game_scene_data("game_scenes/intro_stage");
    scene.update_game_scene_state(true);
    scene.update_game_scene_state(false);
    run_update(&mut client, &mut scene, &obs);
    assert!(client.is_next_game_phase(GamePhase::GamePlay));
    let commands = run_update(&mut client, &mut scene, &obs);
    assert!(client.is_game_phase(GamePhase::GamePlay));
    assert!(commands.contains(&GameCommand::UpdateGameController));
}

#[test]
fn inventory_opens_the_game_menu() {
    let mut client = GameClient::create_game_client();
    let mut scene = GameSceneManager::create_game_scene_manager();
    client.set_next_game_phase(GamePhase::Inventory);
    run_update(&mut client, &mut scene, &observation());
    assert!(client.is_next_game_phase(GamePhase::GameMenu));
}

#[test]
fn closing_the_world_map_travels_back_through_the_gate() {
    let mut client = GameClient::create_game_client();
    let mut scene = GameSceneManager::create_game_scene_manager();
    scene.open_game_scene_data("game_scenes/stage_01");
    scene.update_game_scene_state(true);
    scene.update_game_scene_state(false);
    client.set_next_game_phase(GamePhase::WorldMapUpdate);
    let mut obs = observation();
    obs.is_requested_close_world_map = true;
    run_update(&mut client, &mut scene, &obs);
    assert!(client.is_next_game_phase(GamePhase::WorldMapClose));
    assert!(scene.is_teleport_mode());
    assert!(!scene.is_teleport_stage());
    obs.is_done_manual_fade_out = true;
    let mut teleports = Vec::new();
    for (stage, phase) in client.schedule_game_phase() {
        let (_, t) = client.update_game_phase_stage(stage, phase, &obs, &mut scene);
        teleports.extend(t);
    }
    assert!(client.is_next_game_phase(GamePhase::GamePlay));
    assert_eq!(teleports.len(), 1);
    assert!(matches!(&teleports[0], TeleportCommand::PlacePlayerAtGate(name) if name == "gate"));
    assert!(!scene.is_teleport_mode());
}

#[test]
fn exit_ends_the_game() {
    let mut client = GameClient::create_game_client();
    let mut scene = GameSceneManager::create_game_scene_manager();
    client.exit_game();
    run_update(&mut client, &mut scene, &observation());
    assert!(client.is_game_over());
    let stages = client.schedule_game_phase();
    assert_eq!(stages, vec![(State::Update, GamePhase::ExitGame)]);
}

#[test]
fn a_new_game_request_uses_the_default_save() {
    let mut client = GameClient::create_game_client();
    client.request_load_game("slot_2");
    assert_eq!(client._game_save_data_name, "slot_2");
    client.request_new_game();
    assert_eq!(client._game_save_data_name, "default");
    assert!(client._request_new_game);
    assert!(client.is_next_game_phase(GamePhase::BeginLoading));
}

#[test]
fn reserved_scenarios_open_once_each_in_order() {
    let mut scene = GameSceneManager::create_game_scene_manager();
    assert!(!scene.has_scenarios());
    scene.request_open_game_scenario(7);
    scene.request_open_game_scenario(3);
    scene.request_open_game_scenario(7);
    assert!(!scene.has_game_scenario(7));
    let opened = scene.open_reserved_game_scenarios();
    assert_eq!(opened, vec![7, 3, 7]);
    assert_eq!(scene._scenarios, vec![7, 3]);
    assert!(scene._reservation_scenarios.is_empty());
    assert!(scene.has_game_scenario(3));
    assert!(scene.is_completed_or_progress_game_scenario(7));
    assert!(!scene.is_completed_or_progress_game_scenario(5));
}

#[test]
fn ended_scenarios_complete_and_stop() {
    let mut scene = GameSceneManager::create_game_scene_manager();
    scene.request_open_game_scenario(1);
    scene.request_open_game_scenario(2);
    scene.request_open_game_scenario(4);
    scene.open_reserved_game_scenarios();
    scene.finish_game_scenarios_update(&vec![false, true, false], &vec![true, false, true]);
    assert!(scene.is_play_scenario_mode());
    assert_eq!(scene._scenarios, vec![2]);
    assert_eq!(scene._completed_game_scenarios, vec![1, 4]);
    assert!(scene.is_completed_or_progress_game_scenario(1));
    assert!(!scene.has_game_scenario(1));
    scene.finish_game_scenarios_update(&vec![false], &vec![false]);
    assert!(!scene.is_play_scenario_mode());
    assert_eq!(scene._scenarios, vec![2]);
    // a completed scenario asked for again runs again and stays completed once
    scene.request_open_game_scenario(1);
    scene.open_reserved_game_scenarios();
    scene.finish_game_scenarios_update(&vec![false, false], &vec![true, true]);
    assert!(!scene.has_scenarios());
    assert_eq!(scene._completed_game_scenarios, vec![1, 4, 2]);
}

#[test]
fn clearing_scenarios_plays_until_the_next_update() {
    let mut scene = GameSceneManager::create_game_scene_manager();
    scene.request_open_game_scenario(9);
    scene.open_reserved_game_scenarios();
    scene.clear_all_game_scenario();
    assert!(!scene.has_scenarios());
    assert!(scene.is_play_scenario_mode());
    scene.finish_game_scenarios_update(&vec![], &vec![]);
    assert!(!scene.is_play_scenario_mode());
    assert!(!scene.is_completed_or_progress_game_scenario(9));
}

#[test]
fn a_scenario_starts_in_the_loaded_scene_it_names() {
    let mut scene = GameSceneManager::create_game_scene_manager();
    scene.open_game_scene_data("game_scenes/home");
    assert!(!scene.opens_in_current_scene(""));
    scene.update_game_scene_state(true);
    scene.update_game_scene_state(false);
    assert!(scene.opens_in_current_scene(""));
    assert!(scene.opens_in_current_scene("game_scenes/home"));
    assert!(!scene.opens_in_current_scene("game_scenes/forest"));
}

#[test]
fn a_dead_player_is_sent_back_to_bed_at_home() {
    let mut client = GameClient::create_game_client();
    let mut scene = GameSceneManager::create_game_scene_manager();
    client.respawn_player_at_home(&mut scene);
    assert_eq!(scene._teleport_stage, Some(String::from(Stages::Home.get_stage_data_name())));
    assert_eq!(scene._teleport_spawn_point, Some(String::from("bed_for_aru")));
    assert_eq!(client._next_game_phase, GamePhase::Respawn);

    let mut busy_client = GameClient::create_game_client();
    let mut busy = GameSceneManager::create_game_scene_manager();
    busy.set_teleport_stage("game_scenes/forest", "gate");
    let before = busy_client._next_game_phase;
    busy_client.respawn_player_at_home(&mut busy);
    assert_eq!(busy._teleport_spawn_point, None);
    assert_eq!(busy_client._next_game_phase, before);
}
