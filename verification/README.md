# stone_age

The rules of a small survival game, as a library whose behaviour is stated in
contracts and proved with Verus.

- `src/game_module/actors`: characters (health, damage, death, taming,
  animations and their key frames, attacks across the scene, the targets
  monsters hunt), props, foods, items and weapons.
- `src/game_module/behavior`: the minds of the characters, stage by stage.
- `src/game_module/game_client.rs`: the game phases, from boot to play.
- `src/game_module/game_scene_manager.rs`: stages, scene loading, teleports
  and scenarios.
- `src/game_module/game_controller.rs`: key bindings and what input asks of
  the player, the menus and the quick slots.
- `src/game_module/save_data`: the player's records.
- `src/game_module/game_weather.rs`, `game_audio_manager.rs`,
  `game_ui_manager.rs`, `game_resource.rs`: weather, ambient sound, the
  records kept by the interface, and scene files.

Each public function states what it returns and changes; the `lemma_` proof
functions state the laws that span several calls.

`app/` is the shell around the library: save files, positions and timers in
floating point, and a headless run of the game phases.
