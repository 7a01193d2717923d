use vstd::prelude::*;
use crate::game_module::game_constants::{BED_FOR_ARU, DEFAULT_GAME_SAVE_DATA, DEFAULT_GATE_NAME};
use crate::game_module::game_scene_manager::{
    stage_data_name, teleport_mode, teleport_next, teleport_requests, requests_of, GameSceneManager, GameSceneState,
    SceneView, Stages, TeleportCommand, TeleportRequest,
};
use crate::game_module::state_cycle::{schedule, state_schedule, State};

verus! {

/// The phases the game client walks through.
#[derive(Clone, Copy, Debug, PartialEq, Eq, Hash, Structural)]
pub enum GamePhase {
    Nothing,
    Start,
    TitleScreen,
    BeginLoading,
    LoadingProgress,
    GameDebugMenu,
    GameMenu,
    GamePlay,
    Fishing,
    PlayGameScenario,
    Teleport,
    Respawn,
    OpenToolbox,
    Inventory,
    WorldMapOpen,
    WorldMapUpdate,
    WorldMapClose,
    ExitGame,
}

/// The phase of the game, the phase asked for next, the save the game
/// uses, and whether a new game or a load is asked for.
pub struct GameClient {
    pub _game_phase: GamePhase,
    pub _next_game_phase: GamePhase,
    pub _game_save_data_name: String,
    pub _request_load_game_save_data: bool,
    pub _request_new_game: bool,
}

/// The game client's state as plain values.
pub struct ClientView {
    pub phase: GamePhase,
    pub next_phase: GamePhase,
    pub save_name: Seq<char>,
    pub request_load: bool,
    pub request_new: bool,
}

impl View for GameClient {
    type V = ClientView;

    open spec fn view(&self) -> ClientView {
        ClientView {
            phase: self._game_phase,
            next_phase: self._next_game_phase,
            save_name: self._game_save_data_name@,
            request_load: self._request_load_game_save_data,
            request_new: self._request_new_game,
        }
    }
}

/// What the world tells one stage of a game phase.
#[derive(Clone, Copy, Debug, PartialEq, Eq, Structural)]
pub struct PhaseObservation {
    pub any_key_pressed: bool,
    pub is_done_manual_fade_out: bool,
    pub is_done_game_image_progress: bool,
    pub is_game_debug_menu_opened: bool,
    pub is_game_menu_opened: bool,
    pub is_toolbox_opened: bool,
    pub is_requested_close_world_map: bool,
    pub is_player_valid: bool,
    pub is_player_alive: bool,
    pub is_camera_auto_blend_mode: bool,
    /// The player's fishing gauge runs or the catch is being shown.
    pub is_player_fishing: bool,
}

/// The work a game phase asks of the interface, the camera and the player.
#[derive(Clone, Copy, Debug, PartialEq, Eq, Structural)]
pub enum GameCommand {
    ShowGameUi(bool),
    /// The intro image fades in and out on its own.
    ShowIntroImage,
    /// The screen fades out, at the default speed or at the world map's.
    FadeOut { world_map: bool },
    /// Fading in and out goes back to automatic.
    SetAutoFadeInout,
    /// The camera aims at its usual distance from where it looks now.
    ResetCameraGoal,
    SetCrossHairVisible(bool),
    OpenGameDebugMenu,
    UpdateGameDebugMenu,
    UpdateGameMenu,
    CloseGameMenu,
    UpdateCameraAutoBlend,
    UpdateGameController,
    UpdateGameControllerFishing,
    /// The camera glides back to the player.
    StartCameraAutoBlend,
    /// The player stops acting and moving.
    StopPlayer,
    OpenToolbox,
    UpdateToolbox,
    CloseToolbox,
    SetTextBoxVisible(bool),
    OpenWorldMap,
    /// The world map marks the current stage.
    SelectCurrentStage,
    UpdateWorldMap,
    UnselectWorldMapStage,
    CloseWorldMap,
    /// Start a new game.
    NewGame,
    /// Load the game from the save of the client's save name.
    LoadGame,
}

/// One stage's effect on the client and the scene manager, and the work
/// asked.
pub struct PhaseStep {
    pub client: ClientView,
    pub scene: SceneView,
    pub commands: Seq<GameCommand>,
    pub teleports: Seq<TeleportRequest>,
}

pub open spec fn phase_step(
    client: ClientView,
    scene: SceneView,
    commands: Seq<GameCommand>,
    teleports: Seq<TeleportRequest>,
) -> PhaseStep {
    PhaseStep { client, scene, commands, teleports }
}

pub open spec fn with_next(c: ClientView, next: GamePhase) -> ClientView {
    ClientView { next_phase: next, ..c }
}

/// The scene has loaded and the player is there.
pub open spec fn playing(scene: SceneView, obs: PhaseObservation) -> bool {
    scene.state == GameSceneState::LoadCompleted && obs.is_player_valid
}

/// Travel goes on: once the screen has faded out, one teleport update runs,
/// and the game plays again when no teleport is left.
pub open spec fn travel_update(c: ClientView, scene: SceneView, obs: PhaseObservation) -> PhaseStep {
    if obs.is_done_manual_fade_out {
        let scene1 = teleport_next(scene);
        phase_step(
            if !teleport_mode(scene1) { with_next(c, GamePhase::GamePlay) } else { c },
            scene1,
            Seq::empty(),
            teleport_requests(scene),
        )
    } else {
        phase_step(c, scene, Seq::empty(), Seq::empty())
    }
}

/// The world map closes once the screen has faded out (or the image shown
/// is done): the teleport asked on the map runs, and the game plays again.
pub open spec fn world_map_close_update(c: ClientView, scene: SceneView, obs: PhaseObservation) -> PhaseStep {
    let fade = seq![GameCommand::FadeOut { world_map: true }];
    if obs.is_done_manual_fade_out || obs.is_done_game_image_progress {
        let closing = seq![
            GameCommand::SetTextBoxVisible(true),
            GameCommand::SetCrossHairVisible(false),
            GameCommand::UnselectWorldMapStage,
            GameCommand::CloseWorldMap,
        ];
        let staying = !(match scene.stage {
            Some(s) => scene.current != s,
            None => false,
        });
        phase_step(
            with_next(c, GamePhase::GamePlay),
            teleport_next(scene),
            fade + closing + (if staying { seq![GameCommand::SetAutoFadeInout] } else { Seq::empty() }),
            teleport_requests(scene),
        )
    } else {
        phase_step(c, scene, fade, Seq::empty())
    }
}

/// One stage of one game phase: what it does to the client and the scene
/// manager, and the work it asks. A phase that begins becomes current.
pub open spec fn game_phase_stage(
    c0: ClientView,
    scene: SceneView,
    stage: State,
    phase: GamePhase,
    obs: PhaseObservation,
) -> PhaseStep {
    let c = if stage == State::Begin { ClientView { phase: phase, ..c0 } } else { c0 };
    let none = phase_step(c, scene, Seq::empty(), Seq::empty());
    let cmds = |s: Seq<GameCommand>| phase_step(c, scene, s, Seq::empty());
    match phase {
        GamePhase::Start => if stage == State::Update {
            phase_step(with_next(c, GamePhase::TitleScreen), scene, seq![GameCommand::ShowIntroImage], Seq::empty())
        } else {
            none
        },
        GamePhase::TitleScreen => if stage == State::Update && obs.any_key_pressed {
            phase_step(with_next(c, GamePhase::BeginLoading), scene, Seq::empty(), Seq::empty())
        } else {
            none
        },
        GamePhase::BeginLoading => match stage {
            State::Begin => cmds(seq![GameCommand::ShowGameUi(false), GameCommand::FadeOut { world_map: false }]),
            State::Update => if obs.is_done_manual_fade_out {
                if c.request_new {
                    phase_step(
                        ClientView { request_new: false, next_phase: GamePhase::LoadingProgress, ..c },
                        scene,
                        seq![GameCommand::NewGame],
                        Seq::empty(),
                    )
                } else if c.request_load {
                    phase_step(
                        ClientView { request_load: false, next_phase: GamePhase::LoadingProgress, ..c },
                        scene,
                        seq![GameCommand::LoadGame],
                        Seq::empty(),
                    )
                } else {
                    phase_step(
                        ClientView {
                            request_new: true,
                            save_name: DEFAULT_GAME_SAVE_DATA@,
                            next_phase: GamePhase::BeginLoading,
                            ..c
                        },
                        scene,
                        Seq::empty(),
                        Seq::empty(),
                    )
                }
            } else {
                none
            },
            State::End => none,
        },
        GamePhase::LoadingProgress => if stage == State::Update && scene.state == GameSceneState::LoadCompleted {
            phase_step(
                with_next(c, GamePhase::GamePlay),
                scene,
                seq![GameCommand::SetAutoFadeInout, GameCommand::ResetCameraGoal],
                Seq::empty(),
            )
        } else {
            none
        },
        GamePhase::GameDebugMenu => match stage {
            State::Begin => cmds(seq![GameCommand::SetCrossHairVisible(true), GameCommand::OpenGameDebugMenu]),
            State::Update => phase_step(
                if !obs.is_game_debug_menu_opened { with_next(c, GamePhase::GamePlay) } else { c },
                scene,
                seq![GameCommand::UpdateGameDebugMenu],
                Seq::empty(),
            ),
            State::End => cmds(seq![GameCommand::SetCrossHairVisible(false)]),
        },
        GamePhase::GameMenu => match stage {
            State::Begin => cmds(seq![GameCommand::SetCrossHairVisible(true)]),
            State::Update => phase_step(
                if !obs.is_game_menu_opened { with_next(c, GamePhase::GamePlay) } else { c },
                scene,
                seq![GameCommand::UpdateGameMenu],
                Seq::empty(),
            ),
            State::End => cmds(seq![GameCommand::CloseGameMenu, GameCommand::SetCrossHairVisible(false)]),
        },
        GamePhase::GamePlay => match stage {
            State::Begin => cmds(seq![GameCommand::ShowGameUi(true)]),
            State::Update => if playing(scene, obs) {
                if scene.play_scenario_mode {
                    phase_step(with_next(c, GamePhase::PlayGameScenario), scene, Seq::empty(), Seq::empty())
                } else if teleport_mode(scene) {
                    phase_step(with_next(c, GamePhase::Teleport), scene, Seq::empty(), Seq::empty())
                } else if obs.is_camera_auto_blend_mode {
                    cmds(seq![GameCommand::UpdateCameraAutoBlend])
                } else {
                    cmds(seq![GameCommand::UpdateGameController])
                }
            } else {
                none
            },
            State::End => none,
        },
        GamePhase::Fishing => match stage {
            State::Begin => cmds(seq![GameCommand::ShowGameUi(true)]),
            State::Update => if playing(scene, obs) {
                if !obs.is_player_fishing {
                    phase_step(with_next(c, GamePhase::GamePlay), scene, Seq::empty(), Seq::empty())
                } else {
                    cmds(seq![GameCommand::UpdateGameControllerFishing])
                }
            } else {
                none
            },
            State::End => none,
        },
        GamePhase::PlayGameScenario => match stage {
            State::Begin => cmds(seq![GameCommand::ShowGameUi(false)]),
            State::Update => if !scene.play_scenario_mode {
                phase_step(with_next(c, GamePhase::GamePlay), scene, Seq::empty(), Seq::empty())
            } else {
                none
            },
            State::End => cmds(seq![GameCommand::StartCameraAutoBlend]),
        },
        GamePhase::Teleport => match stage {
            State::Begin => cmds(
                (if obs.is_player_valid && obs.is_player_alive {
                    seq![GameCommand::StopPlayer]
                } else {
                    Seq::empty()
                }) + seq![GameCommand::FadeOut { world_map: false }],
            ),
            State::Update => travel_update(c, scene, obs),
            State::End => cmds(
                seq![GameCommand::SetAutoFadeInout] + (if obs.is_player_valid && obs.is_player_alive {
                    seq![GameCommand::StopPlayer]
                } else {
                    Seq::empty()
                }),
            ),
        },
        GamePhase::Respawn => match stage {
            State::Begin => cmds(seq![GameCommand::FadeOut { world_map: false }]),
            State::Update => travel_update(c, scene, obs),
            State::End => cmds(seq![GameCommand::SetAutoFadeInout]),
        },
        GamePhase::OpenToolbox => match stage {
            State::Begin => cmds(seq![GameCommand::SetCrossHairVisible(true), GameCommand::OpenToolbox]),
            State::Update => if obs.is_toolbox_opened {
                cmds(seq![GameCommand::UpdateToolbox])
            } else {
                phase_step(with_next(c, GamePhase::GamePlay), scene, Seq::empty(), Seq::empty())
            },
            State::End => cmds(seq![GameCommand::CloseToolbox, GameCommand::SetCrossHairVisible(false)]),
        },
        GamePhase::Inventory => if stage == State::Begin {
            phase_step(with_next(c, GamePhase::GameMenu), scene, Seq::empty(), Seq::empty())
        } else {
            none
        },
        GamePhase::WorldMapOpen => match stage {
            State::Begin => cmds(seq![GameCommand::FadeOut { world_map: true }]),
            State::Update => if obs.is_done_manual_fade_out {
                phase_step(
                    with_next(c, GamePhase::WorldMapUpdate),
                    scene,
                    seq![
                        GameCommand::SetTextBoxVisible(false),
                        GameCommand::SetCrossHairVisible(true),
                        GameCommand::SetAutoFadeInout,
                        GameCommand::OpenWorldMap,
                        GameCommand::SelectCurrentStage,
                    ],
                    Seq::empty(),
                )
            } else {
                none
            },
            State::End => none,
        },
        GamePhase::WorldMapUpdate => if stage == State::Update {
            let update = seq![GameCommand::UpdateWorldMap];
            if teleport_mode(scene) || !(obs.is_player_valid && obs.is_player_alive) {
                phase_step(with_next(c, GamePhase::WorldMapClose), scene, update, Seq::empty())
            } else if obs.is_requested_close_world_map {
                phase_step(
                    with_next(c, GamePhase::WorldMapClose),
                    SceneView { stage: Some(scene.current), gate: Some(DEFAULT_GATE_NAME@), ..scene },
                    update,
                    Seq::empty(),
                )
            } else {
                phase_step(c, scene, update, Seq::empty())
            }
        } else {
            none
        },
        GamePhase::WorldMapClose => if stage == State::Update {
            world_map_close_update(c, scene, obs)
        } else {
            none
        },
        _ => none,
    }
}

/// One whole update of the game phases, given what the world tells each
/// stage: a requested phase other than the current one ends the current
/// phase and begins; the requested phase is then updated.
pub open spec fn game_updated(
    c: ClientView,
    scene: SceneView,
    obs_end: PhaseObservation,
    obs_begin: PhaseObservation,
    obs_update: PhaseObservation,
) -> PhaseStep {
    let prev = c.phase;
    let next = c.next_phase;
    if prev != next {
        let s1 = game_phase_stage(c, scene, State::End, prev, obs_end);
        let s2 = game_phase_stage(s1.client, s1.scene, State::Begin, next, obs_begin);
        let s3 = game_phase_stage(s2.client, s2.scene, State::Update, next, obs_update);
        phase_step(
            s3.client,
            s3.scene,
            s1.commands + s2.commands + s3.commands,
            s1.teleports + s2.teleports + s3.teleports,
        )
    } else {
        game_phase_stage(c, scene, State::Update, next, obs_update)
    }
}

/// The same update with one observation for every stage.
pub open spec fn game_updated_with(c: ClientView, scene: SceneView, obs: PhaseObservation) -> PhaseStep {
    game_updated(c, scene, obs, obs, obs)
}

/// A new game client reaches play: it shows the intro, waits on the title
/// screen for a key, loads the default save once the screen has faded out,
/// and plays once the scene has loaded, over five updates.
pub proof fn lemma_boot_reaches_play(scene: SceneView, obs: PhaseObservation)
    requires
        scene.state == GameSceneState::LoadCompleted,
        obs.any_key_pressed,
        obs.is_done_manual_fade_out,
    ensures
        ({
            let c0 = ClientView {
                phase: GamePhase::Nothing,
                next_phase: GamePhase::Start,
                save_name: DEFAULT_GAME_SAVE_DATA@,
                request_load: true,
                request_new: false,
            };
            let u1 = game_updated_with(c0, scene, obs);
            let u2 = game_updated_with(u1.client, u1.scene, obs);
            let u3 = game_updated_with(u2.client, u2.scene, obs);
            let u4 = game_updated_with(u3.client, u3.scene, obs);
            let u5 = game_updated_with(u4.client, u4.scene, obs);
            &&& u1.client.phase == GamePhase::Start
            &&& u2.client.phase == GamePhase::TitleScreen
            &&& u3.client.phase == GamePhase::BeginLoading
            &&& u3.commands.contains(GameCommand::LoadGame)
            &&& !u3.client.request_load
            &&& u4.client.phase == GamePhase::LoadingProgress
            &&& u5.client.phase == GamePhase::GamePlay
            &&& u5.scene == scene
        }),
{
    let c0 = ClientView {
        phase: GamePhase::Nothing,
        next_phase: GamePhase::Start,
        save_name: DEFAULT_GAME_SAVE_DATA@,
        request_load: true,
        request_new: false,
    };
    let u1 = game_updated_with(c0, scene, obs);
    let u2 = game_updated_with(u1.client, u1.scene, obs);
    let u3 = game_updated_with(u2.client, u2.scene, obs);
    assert(u3.commands[2] == GameCommand::LoadGame);
}

/// A teleport asked during play is carried out: play hands over to the
/// teleport phase, which, once the screen has faded out, travels to the
/// asked stage and keeps running teleport updates until none is left.
pub proof fn lemma_play_hands_over_to_teleport(c: ClientView, scene: SceneView, obs: PhaseObservation)
    requires
        c.phase == GamePhase::GamePlay,
        c.next_phase == GamePhase::GamePlay,
        playing(scene, obs),
        !scene.play_scenario_mode,
        teleport_mode(scene),
        obs.is_done_manual_fade_out,
    ensures
        ({
            let u1 = game_updated_with(c, scene, obs);
            let u2 = game_updated_with(u1.client, u1.scene, obs);
            &&& u1.client.next_phase == GamePhase::Teleport
            &&& u2.client.phase == GamePhase::Teleport
            &&& u2.scene == teleport_next(scene)
            &&& u2.teleports == teleport_requests(scene)
            &&& !teleport_mode(u2.scene) ==> u2.client.next_phase == GamePhase::GamePlay
        }),
{
}

impl GameClient {
    /// A client that starts the game and will load the default save.
    pub fn create_game_client() -> (r: GameClient)
        ensures
            r@ == (ClientView {
                phase: GamePhase::Nothing,
                next_phase: GamePhase::Start,
                save_name: DEFAULT_GAME_SAVE_DATA@,
                request_load: true,
                request_new: false,
            }),
    {
        GameClient {
            _game_phase: GamePhase::Nothing,
            _next_game_phase: GamePhase::Start,
            _game_save_data_name: DEFAULT_GAME_SAVE_DATA.to_owned(),
            _request_load_game_save_data: true,
            _request_new_game: false,
        }
    }

    pub fn is_game_phase(&self, game_phase: GamePhase) -> (r: bool)
        ensures
            r == (self@.phase == game_phase),
    {
        self._game_phase == game_phase
    }

    pub fn is_next_game_phase(&self, next_game_phase: GamePhase) -> (r: bool)
        ensures
            r == (self@.next_phase == next_game_phase),
    {
        self._next_game_phase == next_game_phase
    }

    pub fn set_next_game_phase(&mut self, next_game_phase: GamePhase)
        ensures
            final(self)@ == with_next(old(self)@, next_game_phase),
    {
        self._next_game_phase = next_game_phase;
    }

    /// Sends the dead player back to the bed at home, unless a teleport is
    /// already under way: the home stage and its bed are asked for, and the
    /// game moves to the respawn phase.
    pub fn respawn_player_at_home(&mut self, scene: &mut GameSceneManager)
        ensures
            !teleport_mode(old(scene)@) ==> final(scene)@ == (SceneView {
                stage: Some(stage_data_name(Stages::Home)),
                spawn_point: Some(BED_FOR_ARU@),
                ..old(scene)@
            }) && final(self)@ == with_next(old(self)@, GamePhase::Respawn),
            teleport_mode(old(scene)@) ==> final(scene)@ == old(scene)@ && final(self)@ == old(self)@,
    {
        if !scene.is_teleport_mode() {
            scene.set_teleport_spawn_point(Stages::Home.get_stage_data_name(), BED_FOR_ARU);
            self.set_next_game_phase(GamePhase::Respawn);
        }
    }

    /// The game is over once it is in the exit phase.
    pub fn is_game_over(&self) -> (r: bool)
        ensures
            r == (self@.phase == GamePhase::ExitGame),
    {
        self.is_game_phase(GamePhase::ExitGame)
    }

    pub fn exit_game(&mut self)
        ensures
            final(self)@ == with_next(old(self)@, GamePhase::ExitGame),
    {
        self.set_next_game_phase(GamePhase::ExitGame);
    }

    /// Asks to load the named save.
    pub fn request_load_game(&mut self, game_save_data_name: &str)
        ensures
            final(self)@ == (ClientView {
                request_load: true,
                save_name: game_save_data_name@,
                next_phase: GamePhase::BeginLoading,
                ..old(self)@
            }),
    {
        self._request_load_game_save_data = true;
        self._game_save_data_name = game_save_data_name.to_owned();
        self.set_next_game_phase(GamePhase::BeginLoading);
    }

    /// Asks to start a new game in the default save.
    pub fn request_new_game(&mut self)
        ensures
            final(self)@ == (ClientView {
                request_new: true,
                save_name: DEFAULT_GAME_SAVE_DATA@,
                next_phase: GamePhase::BeginLoading,
                ..old(self)@
            }),
    {
        self._request_new_game = true;
        self._game_save_data_name = DEFAULT_GAME_SAVE_DATA.to_owned();
        self.set_next_game_phase(GamePhase::BeginLoading);
    }

    /// The stages of this update of the game: a requested phase other than
    /// the current one ends the current phase and begins the requested
    /// one; the requested phase is then updated. The caller runs each with
    /// `update_game_phase_stage`, asking the world anew before each.
    pub fn schedule_game_phase(&self) -> (r: Vec<(State, GamePhase)>)
        ensures
            r@ == schedule(self@.phase, self@.next_phase, self@.phase != self@.next_phase),
    {
        state_schedule(self._game_phase, self._next_game_phase, self._game_phase != self._next_game_phase)
    }

    /// Runs one stage of one game phase, as `game_phase_stage` states it.
    pub fn update_game_phase_stage(
        &mut self,
        stage: State,
        phase: GamePhase,
        obs: &PhaseObservation,
        scene: &mut GameSceneManager,
    ) -> (r: (Vec<GameCommand>, Vec<TeleportCommand>))
        ensures
            ({
                let s = game_phase_stage(old(self)@, old(scene)@, stage, phase, *obs);
                &&& final(self)@ == s.client
                &&& final(scene)@ == s.scene
                &&& r.0@ == s.commands
                &&& requests_of(r.1@) == s.teleports
                &&& final(scene)._date == old(scene)._date
            }),
    {
        if stage == State::Begin {
            self._game_phase = phase;
        }
        let mut cmds: Vec<GameCommand> = Vec::new();
        let mut teleports: Vec<TeleportCommand> = Vec::new();
        match phase {
            GamePhase::Start => {
                if stage == State::Update {
                    cmds.push(GameCommand::ShowIntroImage);
                    self.set_next_game_phase(GamePhase::TitleScreen);
                }
            },
            GamePhase::TitleScreen => {
                if stage == State::Update && obs.any_key_pressed {
                    self.set_next_game_phase(GamePhase::BeginLoading);
                }
            },
            GamePhase::BeginLoading => self.begin_loading_stage(stage, obs, Ghost(scene@), &mut cmds),
            GamePhase::LoadingProgress => {
                if stage == State::Update && scene.is_game_scene_state(GameSceneState::LoadCompleted) {
                    cmds.push(GameCommand::SetAutoFadeInout);
                    cmds.push(GameCommand::ResetCameraGoal);
                    self.set_next_game_phase(GamePhase::GamePlay);
                }
            },
            GamePhase::GameDebugMenu => match stage {
                State::Begin => {
                    cmds.push(GameCommand::SetCrossHairVisible(true));
                    cmds.push(GameCommand::OpenGameDebugMenu);
                },
                State::Update => {
                    if !obs.is_game_debug_menu_opened {
                        self.set_next_game_phase(GamePhase::GamePlay);
                    }
                    cmds.push(GameCommand::UpdateGameDebugMenu);
                },
                State::End => cmds.push(GameCommand::SetCrossHairVisible(false)),
            },
            GamePhase::GameMenu => match stage {
                State::Begin => cmds.push(GameCommand::SetCrossHairVisible(true)),
                State::Update => {
                    if !obs.is_game_menu_opened {
                        self.set_next_game_phase(GamePhase::GamePlay);
                    }
                    cmds.push(GameCommand::UpdateGameMenu);
                },
                State::End => {
                    cmds.push(GameCommand::CloseGameMenu);
                    cmds.push(GameCommand::SetCrossHairVisible(false));
                },
            },
            GamePhase::GamePlay => self.game_play_stage(stage, obs, scene, &mut cmds),
            GamePhase::Fishing => match stage {
                State::Begin => cmds.push(GameCommand::ShowGameUi(true)),
                State::Update => {
                    if scene.is_game_scene_state(GameSceneState::LoadCompleted) && obs.is_player_valid {
                        if !obs.is_player_fishing {
                            self.set_next_game_phase(GamePhase::GamePlay);
                        } else {
                            cmds.push(GameCommand::UpdateGameControllerFishing);
                        }
                    }
                },
                State::End => {},
            },
            GamePhase::PlayGameScenario => match stage {
                State::Begin => cmds.push(GameCommand::ShowGameUi(false)),
                State::Update => {
                    if !scene.is_play_scenario_mode() {
                        self.set_next_game_phase(GamePhase::GamePlay);
                    }
                },
                State::End => cmds.push(GameCommand::StartCameraAutoBlend),
            },
            GamePhase::Teleport => match stage {
                State::Begin => {
                    if obs.is_player_valid && obs.is_player_alive {
                        cmds.push(GameCommand::StopPlayer);
                    }
                    cmds.push(GameCommand::FadeOut { world_map: false });
                },
                State::Update => teleports = self.travel_stage(obs, scene),
                State::End => {
                    cmds.push(GameCommand::SetAutoFadeInout);
                    if obs.is_player_valid && obs.is_player_alive {
                        cmds.push(GameCommand::StopPlayer);
                    }
                },
            },
            GamePhase::Respawn => match stage {
                State::Begin => cmds.push(GameCommand::FadeOut { world_map: false }),
                State::Update => teleports = self.travel_stage(obs, scene),
                State::End => cmds.push(GameCommand::SetAutoFadeInout),
            },
            GamePhase::OpenToolbox => match stage {
                State::Begin => {
                    cmds.push(GameCommand::SetCrossHairVisible(true));
                    cmds.push(GameCommand::OpenToolbox);
                },
                State::Update => {
                    if obs.is_toolbox_opened {
                        cmds.push(GameCommand::UpdateToolbox);
                    } else {
                        self.set_next_game_phase(GamePhase::GamePlay);
                    }
                },
                State::End => {
                    cmds.push(GameCommand::CloseToolbox);
                    cmds.push(GameCommand::SetCrossHairVisible(false));
                },
            },
            GamePhase::Inventory => {
                if stage == State::Begin {
                    self.set_next_game_phase(GamePhase::GameMenu);
                }
            },
            GamePhase::WorldMapOpen => match stage {
                State::Begin => cmds.push(GameCommand::FadeOut { world_map: true }),
                State::Update => {
                    if obs.is_done_manual_fade_out {
                        cmds.push(GameCommand::SetTextBoxVisible(false));
                        cmds.push(GameCommand::SetCrossHairVisible(true));
                        cmds.push(GameCommand::SetAutoFadeInout);
                        cmds.push(GameCommand::OpenWorldMap);
                        cmds.push(GameCommand::SelectCurrentStage);
                        self.set_next_game_phase(GamePhase::WorldMapUpdate);
                    }
                },
                State::End => {},
            },
            GamePhase::WorldMapUpdate => {
                if stage == State::Update {
                    self.world_map_update_stage(obs, scene, &mut cmds);
                }
            },
            GamePhase::WorldMapClose => {
                if stage == State::Update {
                    teleports = self.world_map_close_stage(obs, scene, &mut cmds);
                }
            },
            _ => {},
        }
        proof {
            let s = game_phase_stage(old(self)@, old(scene)@, stage, phase, *obs);
            assert(cmds@ =~= s.commands);
            assert(requests_of(teleports@) =~= s.teleports);
        }
        (cmds, teleports)
    }

    fn begin_loading_stage(
        &mut self,
        stage: State,
        obs: &PhaseObservation,
        Ghost(sv): Ghost<SceneView>,
        cmds: &mut Vec<GameCommand>,
    )
        requires
            old(cmds)@.len() == 0,
        ensures
            ({
                let s = game_phase_stage(old(self)@, sv, stage, GamePhase::BeginLoading, *obs);
                &&& final(self)@ == s.client
                &&& final(cmds)@ == s.commands
            }),
    {
        match stage {
            State::Begin => {
                self._game_phase = GamePhase::BeginLoading;
                cmds.push(GameCommand::ShowGameUi(false));
                cmds.push(GameCommand::FadeOut { world_map: false });
            },
            State::Update => {
                if obs.is_done_manual_fade_out {
                    if self._request_new_game {
                        cmds.push(GameCommand::NewGame);
                        self._request_new_game = false;
                        self.set_next_game_phase(GamePhase::LoadingProgress);
                    } else if self._request_load_game_save_data {
                        cmds.push(GameCommand::LoadGame);
                        self._request_load_game_save_data = false;
                        self.set_next_game_phase(GamePhase::LoadingProgress);
                    } else {
                        self.request_new_game();
                    }
                }
            },
            State::End => {},
        }
        proof {
            let s = game_phase_stage(old(self)@, sv, stage, GamePhase::BeginLoading, *obs);
            assert(cmds@ =~= s.commands);
        }
    }

    fn game_play_stage(
        &mut self,
        stage: State,
        obs: &PhaseObservation,
        scene: &GameSceneManager,
        cmds: &mut Vec<GameCommand>,
    )
        requires
            old(cmds)@.len() == 0,
        ensures
            ({
                let s = game_phase_stage(old(self)@, scene@, stage, GamePhase::GamePlay, *obs);
                &&& final(self)@ == s.client
                &&& final(cmds)@ == s.commands
            }),
    {
        match stage {
            State::Begin => {
                self._game_phase = GamePhase::GamePlay;
                cmds.push(GameCommand::ShowGameUi(true));
            },
            State::Update => {
                if scene.is_game_scene_state(GameSceneState::LoadCompleted) && obs.is_player_valid {
                    if scene.is_play_scenario_mode() {
                        self.set_next_game_phase(GamePhase::PlayGameScenario);
                    } else if scene.is_teleport_mode() {
                        self.set_next_game_phase(GamePhase::Teleport);
                    } else if obs.is_camera_auto_blend_mode {
                        cmds.push(GameCommand::UpdateCameraAutoBlend);
                    } else {
                        cmds.push(GameCommand::UpdateGameController);
                    }
                }
            },
            State::End => {},
        }
        proof {
            let s = game_phase_stage(old(self)@, scene@, stage, GamePhase::GamePlay, *obs);
            assert(cmds@ =~= s.commands);
        }
    }

    fn travel_stage(&mut self, obs: &PhaseObservation, scene: &mut GameSceneManager) -> (r: Vec<TeleportCommand>)
        ensures
            ({
                let s = travel_update(old(self)@, old(scene)@, *obs);
                &&& final(self)@ == s.client
                &&& final(scene)@ == s.scene
                &&& requests_of(r@) == s.teleports
                &&& final(scene)._date == old(scene)._date
            }),
    {
        if obs.is_done_manual_fade_out {
            let r = scene.update_teleport();
            if !scene.is_teleport_mode() {
                self.set_next_game_phase(GamePhase::GamePlay);
            }
            r
        } else {
            let r: Vec<TeleportCommand> = Vec::new();
            assert(requests_of(r@) =~= Seq::<TeleportRequest>::empty());
            r
        }
    }

    fn world_map_update_stage(&mut self, obs: &PhaseObservation, scene: &mut GameSceneManager, cmds: &mut Vec<GameCommand>)
        requires
            old(cmds)@.len() == 0,
        ensures
            ({
                let s = game_phase_stage(old(self)@, old(scene)@, State::Update, GamePhase::WorldMapUpdate, *obs);
                &&& final(self)@ == s.client
                &&& final(scene)@ == s.scene
                &&& final(cmds)@ == s.commands
                &&& final(scene)._date == old(scene)._date
            }),
    {
        cmds.push(GameCommand::UpdateWorldMap);
        if scene.is_teleport_mode() || !(obs.is_player_valid && obs.is_player_alive) {
            self.set_next_game_phase(GamePhase::WorldMapClose);
        } else if obs.is_requested_close_world_map {
            let current = scene.get_current_game_scene_data_name().clone();
            scene.set_teleport_stage(current.as_str(), DEFAULT_GATE_NAME);
            self.set_next_game_phase(GamePhase::WorldMapClose);
        }
        proof {
            let s = game_phase_stage(old(self)@, old(scene)@, State::Update, GamePhase::WorldMapUpdate, *obs);
            assert(cmds@ =~= s.commands);
        }
    }

    fn world_map_close_stage(
        &mut self,
        obs: &PhaseObservation,
        scene: &mut GameSceneManager,
        cmds: &mut Vec<GameCommand>,
    ) -> (r: Vec<TeleportCommand>)
        requires
            old(cmds)@.len() == 0,
        ensures
            ({
                let s = world_map_close_update(old(self)@, old(scene)@, *obs);
                &&& final(self)@ == s.client
                &&& final(scene)@ == s.scene
                &&& final(cmds)@ == s.commands
                &&& requests_of(r@) == s.teleports
                &&& final(scene)._date == old(scene)._date
            }),
    {
        cmds.push(GameCommand::FadeOut { world_map: true });
        if obs.is_done_manual_fade_out || obs.is_done_game_image_progress {
            cmds.push(GameCommand::SetTextBoxVisible(true));
            cmds.push(GameCommand::SetCrossHairVisible(false));
            cmds.push(GameCommand::UnselectWorldMapStage);
            cmds.push(GameCommand::CloseWorldMap);
            if !scene.is_teleport_stage() {
                cmds.push(GameCommand::SetAutoFadeInout);
            }
            let r = scene.update_teleport();
            self.set_next_game_phase(GamePhase::GamePlay);
            proof {
                let s = world_map_close_update(old(self)@, old(scene)@, *obs);
                assert(cmds@ =~= s.commands);
            }
            r
        } else {
            let r: Vec<TeleportCommand> = Vec::new();
            proof {
                assert(cmds@ =~= seq![GameCommand::FadeOut { world_map: true }]);
                assert(requests_of(r@) =~= Seq::<TeleportRequest>::empty());
            }
            r
        }
    }
}


/// While the scene is loaded and the player there, play hands over to a
/// scenario that plays first, then to a waiting teleport, and otherwise
/// runs the controls; menus and the debug menu hand back to play once
/// closed; a scenario hands back once it stops playing.
pub proof fn lemma_play_hands_over(c: ClientView, scene: SceneView, obs: PhaseObservation)
    ensures
        ({
            let s = game_phase_stage(c, scene, State::Update, GamePhase::GamePlay, obs);
            let loaded = scene.state == GameSceneState::LoadCompleted && obs.is_player_valid;
            &&& loaded && scene.play_scenario_mode ==> s.client.next_phase == GamePhase::PlayGameScenario
            &&& loaded && !scene.play_scenario_mode && teleport_mode(scene) ==> s.client.next_phase
                == GamePhase::Teleport
            &&& loaded && !scene.play_scenario_mode && !teleport_mode(scene) && !obs.is_camera_auto_blend_mode
                ==> s.commands == seq![GameCommand::UpdateGameController] && s.client == c
            &&& !loaded ==> s.client == c && s.commands.len() == 0
        }),
        !obs.is_game_menu_opened ==> game_phase_stage(c, scene, State::Update, GamePhase::GameMenu, obs).client.next_phase
            == GamePhase::GamePlay,
        obs.is_game_menu_opened ==> game_phase_stage(c, scene, State::Update, GamePhase::GameMenu, obs).client == c,
        !obs.is_game_debug_menu_opened ==> game_phase_stage(
            c,
            scene,
            State::Update,
            GamePhase::GameDebugMenu,
            obs,
        ).client.next_phase == GamePhase::GamePlay,
        !scene.play_scenario_mode ==> game_phase_stage(
            c,
            scene,
            State::Update,
            GamePhase::PlayGameScenario,
            obs,
        ).client.next_phase == GamePhase::GamePlay,
        scene.state == GameSceneState::LoadCompleted && obs.is_player_valid && !obs.is_player_fishing
            ==> game_phase_stage(c, scene, State::Update, GamePhase::Fishing, obs).client.next_phase
            == GamePhase::GamePlay,
{
}

} // verus!
