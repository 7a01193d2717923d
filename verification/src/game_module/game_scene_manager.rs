use vstd::prelude::*;
use crate::game_module::text::str_equals;

verus! {

/// The places the player can be.
#[derive(Clone, Copy, Debug, PartialEq, Eq, Hash, Structural)]
pub enum Stages {
    Nothing,
    Home,
    Forest,
    Cave,
    WorldMap,
    Ufo,
}

/// The name of a stage as the player reads it.
pub open spec fn stage_display_name(stage: Stages) -> Seq<char> {
    match stage {
        Stages::Nothing => ""@,
        Stages::Home => "HOME"@,
        Stages::Forest => "FOREST"@,
        Stages::Cave => "CAVE"@,
        Stages::WorldMap => "WORLD MAP"@,
        Stages::Ufo => "UFO"@,
    }
}

/// The game scene data a stage is loaded from.
pub open spec fn stage_data_name(stage: Stages) -> Seq<char> {
    match stage {
        Stages::Nothing => ""@,
        Stages::Home => "game_scenes/intro_stage"@,
        Stages::Forest => "game_scenes/stage_01"@,
        Stages::Cave => "game_scenes/stage_cave"@,
        Stages::WorldMap => "game_scenes/world_map"@,
        Stages::Ufo => "game_scenes/stage_ufo"@,
    }
}

/// The name is the scene data of one of the stages.
pub open spec fn is_stage_data_name(name: Seq<char>) -> bool {
    exists|stage: Stages| stage_data_name(stage) == name
}

impl Stages {
    pub fn get_stage_display_name(&self) -> (r: &'static str)
        ensures
            r@ == stage_display_name(*self),
    {
        match *self {
            Stages::Nothing => "",
            Stages::Home => "HOME",
            Stages::Forest => "FOREST",
            Stages::Cave => "CAVE",
            Stages::WorldMap => "WORLD MAP",
            Stages::Ufo => "UFO",
        }
    }

    pub fn get_stage_data_name(&self) -> (r: &'static str)
        ensures
            r@ == stage_data_name(*self),
    {
        match *self {
            Stages::Nothing => "",
            Stages::Home => "game_scenes/intro_stage",
            Stages::Forest => "game_scenes/stage_01",
            Stages::Cave => "game_scenes/stage_cave",
            Stages::WorldMap => "game_scenes/world_map",
            Stages::Ufo => "game_scenes/stage_ufo",
        }
    }

    /// The stage whose scene data has the given name. Only the names of the
    /// stages are accepted.
    pub fn find_stage_value(stage_data_name_arg: &str) -> (r: Stages)
        requires
            is_stage_data_name(stage_data_name_arg@),
        ensures
            stage_data_name(r) == stage_data_name_arg@,
    {
        let stages = [Stages::Nothing, Stages::Home, Stages::Forest, Stages::Cave, Stages::WorldMap, Stages::Ufo];
        let mut i: usize = 0;
        while i < 6
            invariant
                i <= 6,
                stages@ == seq![
                    Stages::Nothing,
                    Stages::Home,
                    Stages::Forest,
                    Stages::Cave,
                    Stages::WorldMap,
                    Stages::Ufo,
                ],
                forall|j: int| 0 <= j < i ==> stage_data_name(#[trigger] stages@[j]) != stage_data_name_arg@,
            decreases 6 - i,
        {
            let stage = stages[i];
            if str_equals(stage_data_name_arg, stage.get_stage_data_name()) {
                return stage;
            }
            i = i + 1;
        }
        proof {
            let st = choose|st: Stages| stage_data_name(st) == stage_data_name_arg@;
            match st {
                Stages::Nothing => assert(stage_data_name(stages@[0]) != stage_data_name_arg@),
                Stages::Home => assert(stage_data_name(stages@[1]) != stage_data_name_arg@),
                Stages::Forest => assert(stage_data_name(stages@[2]) != stage_data_name_arg@),
                Stages::Cave => assert(stage_data_name(stages@[3]) != stage_data_name_arg@),
                Stages::WorldMap => assert(stage_data_name(stages@[4]) != stage_data_name_arg@),
                Stages::Ufo => assert(stage_data_name(stages@[5]) != stage_data_name_arg@),
            }
        }
        Stages::Nothing
    }
}

/// Whether the scene of the current stage is being loaded.
#[derive(Clone, Copy, Debug, PartialEq, Eq, Structural)]
pub enum GameSceneState {
    Nothing,
    Loading,
    LoadCompleted,
}


/// Where the scene manager stands: the scene shown, the teleport asked for
/// (a stage, then a gate or a spawn point in it), the loading state, the
/// day, and the scenarios asked for, running and completed. A scenario is
/// known by the number of its kind.
pub struct GameSceneManager {
    pub _current_game_scene_data_name: String,
    pub _teleport_stage: Option<String>,
    pub _teleport_gate: Option<String>,
    pub _teleport_spawn_point: Option<String>,
    pub _is_sleep_mode: bool,
    pub _is_play_scenario_mode: bool,
    pub _date: u32,
    pub _game_scene_state: GameSceneState,
    pub _next_game_scene_state: GameSceneState,
    pub _reservation_scenarios: Vec<u32>,
    pub _scenarios: Vec<u32>,
    pub _completed_game_scenarios: Vec<u32>,
}

/// The scene manager's state as plain values.
pub struct SceneView {
    pub current: Seq<char>,
    pub stage: Option<Seq<char>>,
    pub gate: Option<Seq<char>>,
    pub spawn_point: Option<Seq<char>>,
    pub state: GameSceneState,
    pub next_state: GameSceneState,
    pub play_scenario_mode: bool,
    pub date: u32,
    pub sleep_mode: bool,
    pub reserved: Seq<u32>,
    pub scenarios: Seq<u32>,
    pub completed: Seq<u32>,
}

pub open spec fn opt_view(o: Option<String>) -> Option<Seq<char>> {
    match o {
        Some(s) => Some(s@),
        None => None,
    }
}

impl View for GameSceneManager {
    type V = SceneView;

    open spec fn view(&self) -> SceneView {
        SceneView {
            current: self._current_game_scene_data_name@,
            stage: opt_view(self._teleport_stage),
            gate: opt_view(self._teleport_gate),
            spawn_point: opt_view(self._teleport_spawn_point),
            state: self._game_scene_state,
            next_state: self._next_game_scene_state,
            play_scenario_mode: self._is_play_scenario_mode,
            date: self._date,
            sleep_mode: self._is_sleep_mode,
            reserved: self._reservation_scenarios@,
            scenarios: self._scenarios@,
            completed: self._completed_game_scenarios@,
        }
    }
}

/// The work a teleport asks of the world.
pub enum TeleportCommand {
    /// Save the game and load the scene of the given name.
    GotoGameScene(String),
    /// Put the player at the teleport point of the named gate.
    PlacePlayerAtGate(String),
    /// Bring the player back to life at the prop of the given name.
    RespawnPlayerAtProp(String),
}

/// A teleport command as plain values.
pub enum TeleportRequest {
    GotoGameScene(Seq<char>),
    PlacePlayerAtGate(Seq<char>),
    RespawnPlayerAtProp(Seq<char>),
}

pub open spec fn request_of(c: TeleportCommand) -> TeleportRequest {
    match c {
        TeleportCommand::GotoGameScene(s) => TeleportRequest::GotoGameScene(s@),
        TeleportCommand::PlacePlayerAtGate(s) => TeleportRequest::PlacePlayerAtGate(s@),
        TeleportCommand::RespawnPlayerAtProp(s) => TeleportRequest::RespawnPlayerAtProp(s@),
    }
}

pub open spec fn requests_of(s: Seq<TeleportCommand>) -> Seq<TeleportRequest> {
    s.map_values(|c: TeleportCommand| request_of(c))
}

/// A teleport of any kind is waiting.
pub open spec fn teleport_mode(v: SceneView) -> bool {
    v.stage.is_some() || v.gate.is_some() || v.spawn_point.is_some()
}

/// The scene of the given name is opened: the old one is closed and the
/// new one starts loading.
pub open spec fn opened(v: SceneView, name: Seq<char>) -> SceneView {
    SceneView { current: name, state: GameSceneState::Nothing, next_state: GameSceneState::Loading, ..v }
}

/// The state after one teleport update. A stage other than the current one
/// is travelled to first; once its scene has loaded, the player is put at
/// its gate or its spawn point, each asked for once.
pub open spec fn teleport_next(v: SceneView) -> SceneView {
    match v.stage {
        Some(s) => if v.current != s {
            opened(v, s)
        } else {
            teleport_places(SceneView { stage: None, ..v })
        },
        None => teleport_places(v),
    }
}

pub open spec fn teleport_places(v: SceneView) -> SceneView {
    let loaded = v.state == GameSceneState::LoadCompleted && v.stage.is_none();
    let after_gate = if loaded && v.gate.is_some() { SceneView { gate: None, ..v } } else { v };
    if loaded && after_gate.spawn_point.is_some() {
        SceneView { spawn_point: None, ..after_gate }
    } else {
        after_gate
    }
}

/// The work asked for by one teleport update.
pub open spec fn teleport_requests(v: SceneView) -> Seq<TeleportRequest> {
    match v.stage {
        Some(s) => if v.current != s {
            seq![TeleportRequest::GotoGameScene(s)]
        } else {
            place_requests(SceneView { stage: None, ..v })
        },
        None => place_requests(v),
    }
}

pub open spec fn place_requests(v: SceneView) -> Seq<TeleportRequest> {
    let loaded = v.state == GameSceneState::LoadCompleted && v.stage.is_none();
    (if loaded && v.gate.is_some() {
        seq![TeleportRequest::PlacePlayerAtGate(v.gate.unwrap())]
    } else {
        Seq::empty()
    }) + (if loaded && v.spawn_point.is_some() {
        seq![TeleportRequest::RespawnPlayerAtProp(v.spawn_point.unwrap())]
    } else {
        Seq::empty()
    })
}

/// What one update of the scene manager does besides its state change.
#[derive(Clone, Copy, Debug, PartialEq, Eq, Structural)]
pub enum SceneUpdateAction {
    /// The scene is still loading.
    WaitLoading,
    /// The scene has loaded: spawn its objects and the player.
    SpawnSceneObjects,
    /// Run the world: time of day, props, items, characters, scenarios.
    UpdateWorld,
}

/// The state after one update of the scene manager: the requested state
/// becomes current, and a finished load asks for the loaded state.
pub open spec fn scene_update_next(v: SceneView, is_load_complete: bool) -> SceneView {
    let v1 = SceneView { state: v.next_state, ..v };
    if v1.state == GameSceneState::Loading && is_load_complete {
        SceneView { next_state: GameSceneState::LoadCompleted, ..v1 }
    } else {
        v1
    }
}

pub open spec fn scene_update_action(v: SceneView, is_load_complete: bool) -> SceneUpdateAction {
    if v.next_state == GameSceneState::Loading {
        if is_load_complete {
            SceneUpdateAction::SpawnSceneObjects
        } else {
            SceneUpdateAction::WaitLoading
        }
    } else {
        SceneUpdateAction::UpdateWorld
    }
}

fn clone_opt(o: &Option<String>) -> (r: Option<String>)
    ensures
        r == *o,
{
    match o {
        Some(s) => Some(s.clone()),
        None => None,
    }
}

impl GameSceneManager {
    /// A manager with no scene, no teleport, on the first day.
    pub fn create_game_scene_manager() -> (r: GameSceneManager)
        ensures
            r@ == (SceneView {
                current: Seq::empty(),
                stage: None,
                gate: None,
                spawn_point: None,
                state: GameSceneState::Nothing,
                next_state: GameSceneState::Nothing,
                play_scenario_mode: false,
                date: 1,
                sleep_mode: false,
                reserved: Seq::empty(),
                scenarios: Seq::empty(),
                completed: Seq::empty(),
            }),
    {
        GameSceneManager {
            _current_game_scene_data_name: String::new(),
            _teleport_stage: None,
            _teleport_gate: None,
            _teleport_spawn_point: None,
            _is_sleep_mode: false,
            _is_play_scenario_mode: false,
            _date: 1,
            _game_scene_state: GameSceneState::Nothing,
            _next_game_scene_state: GameSceneState::Nothing,
            _reservation_scenarios: Vec::new(),
            _scenarios: Vec::new(),
            _completed_game_scenarios: Vec::new(),
        }
    }

    pub fn get_date(&self) -> (r: u32)
        ensures
            r == self._date,
    {
        self._date
    }

    pub fn get_current_game_scene_data_name(&self) -> (r: &String)
        ensures
            r@ == self@.current,
    {
        &self._current_game_scene_data_name
    }

    pub fn is_teleport_mode(&self) -> (r: bool)
        ensures
            r == teleport_mode(self@),
    {
        self._teleport_stage.is_some() || self._teleport_gate.is_some() || self._teleport_spawn_point.is_some()
    }

    /// A stage other than the current one is waiting to be travelled to.
    pub fn is_teleport_stage(&self) -> (r: bool)
        ensures
            r == (match self@.stage {
                Some(s) => self@.current != s,
                None => false,
            }),
    {
        match &self._teleport_stage {
            Some(teleport_stage) => !str_equals(self._current_game_scene_data_name.as_str(), teleport_stage.as_str()),
            None => false,
        }
    }

    /// Asks to travel to a stage and arrive at one of its gates.
    pub fn set_teleport_stage(&mut self, teleport_stage: &str, teleport_gate: &str)
        ensures
            final(self)@ == (SceneView {
                stage: Some(teleport_stage@),
                gate: Some(teleport_gate@),
                ..old(self)@
            }),
    {
        self._teleport_stage = Some(teleport_stage.to_owned());
        self._teleport_gate = Some(teleport_gate.to_owned());
    }

    /// Asks to travel to a stage and arrive at one of its props.
    pub fn set_teleport_spawn_point(&mut self, teleport_stage: &str, spawn_point_name: &str)
        ensures
            final(self)@ == (SceneView {
                stage: Some(teleport_stage@),
                spawn_point: Some(spawn_point_name@),
                ..old(self)@
            }),
    {
        self._teleport_stage = Some(teleport_stage.to_owned());
        self._teleport_spawn_point = Some(spawn_point_name.to_owned());
    }

    /// Closes the current scene: no scene, nothing loading.
    pub fn close_game_scene_data(&mut self)
        ensures
            final(self)@ == (SceneView {
                current: Seq::empty(),
                state: GameSceneState::Nothing,
                next_state: GameSceneState::Nothing,
                ..old(self)@
            }),
    {
        self._game_scene_state = GameSceneState::Nothing;
        self._next_game_scene_state = GameSceneState::Nothing;
        self._current_game_scene_data_name = String::new();
    }

    /// Closes the current scene and starts loading the named one.
    pub fn open_game_scene_data(&mut self, game_scene_data_name: &str)
        ensures
            final(self)@ == opened(old(self)@, game_scene_data_name@),
    {
        self.close_game_scene_data();
        self._current_game_scene_data_name = game_scene_data_name.to_owned();
        self.set_next_game_scene_state(GameSceneState::Loading);
    }

    pub fn is_play_scenario_mode(&self) -> (r: bool)
        ensures
            r == self@.play_scenario_mode,
    {
        self._is_play_scenario_mode
    }

    pub fn get_game_scene_state(&self) -> (r: GameSceneState)
        ensures
            r == self@.state,
    {
        self._game_scene_state
    }

    pub fn set_next_game_scene_state(&mut self, state: GameSceneState)
        ensures
            final(self)@ == (SceneView { next_state: state, ..old(self)@ }),
            final(self)._current_game_scene_data_name == old(self)._current_game_scene_data_name,
    {
        self._next_game_scene_state = state;
    }

    pub fn is_game_scene_state(&self, state: GameSceneState) -> (r: bool)
        ensures
            r == (self@.state == state),
    {
        self._game_scene_state == state
    }

    /// One teleport update: travels to the asked stage, or places the
    /// player once the stage has loaded.
    pub fn update_teleport(&mut self) -> (r: Vec<TeleportCommand>)
        ensures
            final(self)@ == teleport_next(old(self)@),
            requests_of(r@) == teleport_requests(old(self)@),
    {
        let mut r: Vec<TeleportCommand> = Vec::new();
        let stage = clone_opt(&self._teleport_stage);
        match stage {
            Some(s) => {
                if !str_equals(self._current_game_scene_data_name.as_str(), s.as_str()) {
                    self.open_game_scene_data(s.as_str());
                    r.push(TeleportCommand::GotoGameScene(s));
                    proof {
                        assert(requests_of(r@) =~= teleport_requests(old(self)@));
                    }
                    return r;
                }
                self._teleport_stage = None;
            },
            None => {},
        }
        let ghost v1 = self@;
        let loaded = self.is_game_scene_state(GameSceneState::LoadCompleted) && self._teleport_stage.is_none();
        if loaded {
            match clone_opt(&self._teleport_gate) {
                Some(g) => {
                    r.push(TeleportCommand::PlacePlayerAtGate(g));
                },
                None => {},
            }
            self._teleport_gate = None;
        }
        let ghost n_gate = r@.len();
        if loaded {
            match clone_opt(&self._teleport_spawn_point) {
                Some(p) => {
                    r.push(TeleportCommand::RespawnPlayerAtProp(p));
                },
                None => {},
            }
            self._teleport_spawn_point = None;
        }
        proof {
            assert(v1 == (match old(self)@.stage {
                Some(s) => SceneView { stage: None, ..old(self)@ },
                None => old(self)@,
            }));
            assert(requests_of(r@) =~= place_requests(v1));
            assert(self@ == teleport_places(v1));
        }
        r
    }

    /// One update of the scene manager's state. The world work it asks
    /// for is done by the caller.
    pub fn update_game_scene_state(&mut self, is_load_complete: bool) -> (r: SceneUpdateAction)
        ensures
            final(self)@ == scene_update_next(old(self)@, is_load_complete),
            r == scene_update_action(old(self)@, is_load_complete),
    {
        self._game_scene_state = self._next_game_scene_state;
        match self._game_scene_state {
            GameSceneState::Loading => {
                if is_load_complete {
                    self.set_next_game_scene_state(GameSceneState::LoadCompleted);
                    SceneUpdateAction::SpawnSceneObjects
                } else {
                    SceneUpdateAction::WaitLoading
                }
            },
            _ => SceneUpdateAction::UpdateWorld,
        }
    }
}


/// `s` with each kind of `t` added at its end, in order, unless already
/// there.
pub open spec fn union_in_order(s: Seq<u32>, t: Seq<u32>) -> Seq<u32>
    decreases t.len(),
{
    if t.len() == 0 {
        s
    } else {
        let s1 = union_in_order(s, t.drop_last());
        if s1.contains(t.last()) {
            s1
        } else {
            s1.push(t.last())
        }
    }
}

/// The first `n` kinds of `s`, split by their mark: those without it,
/// and those with it.
pub open spec fn kinds_unmarked(s: Seq<u32>, marked: Seq<bool>, n: int) -> Seq<u32>
    decreases n,
{
    if n <= 0 {
        Seq::empty()
    } else {
        kinds_unmarked(s, marked, n - 1) + (if marked[n - 1] {
            Seq::empty()
        } else {
            seq![s[n - 1]]
        })
    }
}

pub open spec fn kinds_marked(s: Seq<u32>, marked: Seq<bool>, n: int) -> Seq<u32>
    decreases n,
{
    if n <= 0 {
        Seq::empty()
    } else {
        kinds_marked(s, marked, n - 1) + (if marked[n - 1] {
            seq![s[n - 1]]
        } else {
            Seq::empty()
        })
    }
}

/// Whether `k` is among `v`.
fn contains_kind(v: &Vec<u32>, k: u32) -> (r: bool)
    ensures
        r == v@.contains(k),
{
    let mut i: usize = 0;
    while i < v.len()
        invariant
            i <= v@.len(),
            forall|j: int| 0 <= j < i ==> v@[j] != k,
        decreases v@.len() - i,
    {
        if v[i] == k {
            assert(v@[i as int] == k);
            return true;
        }
        i = i + 1;
    }
    false
}

/// Adds each kind of `t` to `v`, in order, unless already there.
fn add_kinds(v: &mut Vec<u32>, t: &Vec<u32>)
    ensures
        final(v)@ == union_in_order(old(v)@, t@),
{
    let ghost s = v@;
    let mut i: usize = 0;
    while i < t.len()
        invariant
            i <= t@.len(),
            v@ == union_in_order(s, t@.subrange(0, i as int)),
        decreases t@.len() - i,
    {
        let k = t[i];
        proof {
            let ti = t@.subrange(0, i + 1);
            assert(ti.drop_last() =~= t@.subrange(0, i as int));
            assert(ti.last() == k);
        }
        if !contains_kind(v, k) {
            v.push(k);
        }
        i = i + 1;
    }
    proof {
        assert(t@.subrange(0, t@.len() as int) =~= t@);
    }
}

/// Adding kinds in order keeps a sequence free of repeats, and keeps every
/// kind it had; it holds the added kinds.
pub proof fn lemma_union_in_order(s: Seq<u32>, t: Seq<u32>)
    requires
        s.no_duplicates(),
    ensures
        union_in_order(s, t).no_duplicates(),
        forall|k: u32| s.contains(k) ==> #[trigger] union_in_order(s, t).contains(k),
        forall|k: u32| t.contains(k) ==> #[trigger] union_in_order(s, t).contains(k),
        forall|k: u32| #[trigger] union_in_order(s, t).contains(k) ==> s.contains(k) || t.contains(k),
    decreases t.len(),
{
    if t.len() > 0 {
        let t1 = t.drop_last();
        lemma_union_in_order(s, t1);
        let s1 = union_in_order(s, t1);
        assert forall|k: u32| t.contains(k) implies #[trigger] union_in_order(s, t).contains(k) by {
            let j = choose|j: int| 0 <= j < t.len() && t[j] == k;
            if !s1.contains(t.last()) {
                let u = s1.push(t.last());
                if j < t.len() - 1 {
                    assert(t1[j] == k);
                    assert(t1.contains(k));
                    assert(union_in_order(s, t1).contains(k));
                    assert(s1.contains(k));
                    let l = choose|l: int| 0 <= l < s1.len() && s1[l] == k;
                    assert(u[l] == k);
                } else {
                    assert(u[s1.len() as int] == k);
                }
            } else if j < t.len() - 1 {
                assert(t1[j] == k);
                assert(t1.contains(k));
            }
        }
        assert forall|k: u32| #[trigger] union_in_order(s, t).contains(k) implies s.contains(k) || t.contains(k) by {
            if s1.contains(k) {
                if t1.contains(k) {
                    let j = choose|j: int| 0 <= j < t1.len() && t1[j] == k;
                    assert(t[j] == k);
                }
            } else {
                assert(k == t.last());
                assert(t[t.len() - 1] == k);
            }
        }
        assert forall|k: u32| s.contains(k) implies #[trigger] union_in_order(s, t).contains(k) by {
            assert(s1.contains(k));
            if !s1.contains(t.last()) {
                let j = choose|j: int| 0 <= j < s1.len() && s1[j] == k;
                assert(s1.push(t.last())[j] == k);
            }
        }
    }
}

/// The kinds split by their marks come from the sequence: each kept one
/// unmarked, each taken one marked.
pub proof fn lemma_kinds_split(s: Seq<u32>, marked: Seq<bool>, n: int)
    requires
        0 <= n <= s.len(),
        n <= marked.len(),
        s.no_duplicates(),
    ensures
        kinds_unmarked(s, marked, n).no_duplicates(),
        forall|k: u32| #[trigger] kinds_unmarked(s, marked, n).contains(k) <==> exists|i: int|
            0 <= i < n && !marked[i] && s[i] == k,
        forall|k: u32| #[trigger] kinds_marked(s, marked, n).contains(k) <==> exists|i: int|
            0 <= i < n && marked[i] && s[i] == k,
    decreases n,
{
    if n > 0 {
        lemma_kinds_split(s, marked, n - 1);
        let u = kinds_unmarked(s, marked, n - 1);
        let m = kinds_marked(s, marked, n - 1);
        assert forall|k: u32| #[trigger] kinds_unmarked(s, marked, n).contains(k) <==> exists|i: int|
            0 <= i < n && !marked[i] && s[i] == k by {
            if kinds_unmarked(s, marked, n).contains(k) {
                let j = choose|j: int| 0 <= j < kinds_unmarked(s, marked, n).len() && kinds_unmarked(s, marked, n)[j] == k;
                if j < u.len() {
                    assert(u[j] == k);
                    assert(u.contains(k));
                } else {
                    assert(!marked[n - 1] && s[n - 1] == k);
                }
            }
            if exists|i: int| 0 <= i < n && !marked[i] && s[i] == k {
                let i = choose|i: int| 0 <= i < n && !marked[i] && s[i] == k;
                if i < n - 1 {
                    assert(u.contains(k));
                    let j = choose|j: int| 0 <= j < u.len() && u[j] == k;
                    assert(kinds_unmarked(s, marked, n)[j] == k);
                } else {
                    assert(kinds_unmarked(s, marked, n)[u.len() as int] == k);
                }
            }
        }
        assert forall|k: u32| #[trigger] kinds_marked(s, marked, n).contains(k) <==> exists|i: int|
            0 <= i < n && marked[i] && s[i] == k by {
            if kinds_marked(s, marked, n).contains(k) {
                let j = choose|j: int| 0 <= j < kinds_marked(s, marked, n).len() && kinds_marked(s, marked, n)[j] == k;
                if j < m.len() {
                    assert(m[j] == k);
                    assert(m.contains(k));
                } else {
                    assert(marked[n - 1] && s[n - 1] == k);
                }
            }
            if exists|i: int| 0 <= i < n && marked[i] && s[i] == k {
                let i = choose|i: int| 0 <= i < n && marked[i] && s[i] == k;
                if i < n - 1 {
                    assert(m.contains(k));
                    let j = choose|j: int| 0 <= j < m.len() && m[j] == k;
                    assert(kinds_marked(s, marked, n)[j] == k);
                } else {
                    assert(kinds_marked(s, marked, n)[m.len() as int] == k);
                }
            }
        }
        if !marked[n - 1] {
            if u.contains(s[n - 1]) {
                let i = choose|i: int| 0 <= i < n - 1 && !marked[i] && s[i] == s[n - 1];
                assert(false);
            }
        }
    }
}

impl GameSceneManager {
    /// The scenario kinds running and completed are each free of repeats.
    pub open spec fn wf(&self) -> bool {
        &&& self@.scenarios.no_duplicates()
        &&& self@.completed.no_duplicates()
    }

    /// Asks for a scenario to open at the next scenario update.
    pub fn request_open_game_scenario(&mut self, scenario_type: u32)
        ensures
            final(self)@ == (SceneView { reserved: old(self)@.reserved.push(scenario_type), ..old(self)@ }),
    {
        self._reservation_scenarios.push(scenario_type);
    }

    pub fn has_game_scenario(&self, scenario_type: u32) -> (r: bool)
        ensures
            r == self@.scenarios.contains(scenario_type),
    {
        contains_kind(&self._scenarios, scenario_type)
    }

    pub fn has_scenarios(&self) -> (r: bool)
        ensures
            r == (self@.scenarios.len() > 0),
    {
        self._scenarios.len() > 0
    }

    /// Whether the scenario has run to its end or is running.
    pub fn is_completed_or_progress_game_scenario(&self, scenario_type: u32) -> (r: bool)
        ensures
            r == (self@.completed.contains(scenario_type) || self@.scenarios.contains(scenario_type)),
    {
        contains_kind(&self._completed_game_scenarios, scenario_type) || contains_kind(&self._scenarios, scenario_type)
    }

    /// Stops every running scenario; the scene then counts as playing a
    /// scenario until the next scenario update.
    pub fn clear_all_game_scenario(&mut self)
        ensures
            final(self)@ == (SceneView { scenarios: Seq::empty(), play_scenario_mode: true, ..old(self)@ }),
    {
        self._scenarios = Vec::new();
        self._is_play_scenario_mode = true;
    }

    /// Opens the scenarios asked for: they run from now on, once each, and
    /// come back in the order they were asked for, so that the caller can
    /// start each.
    pub fn open_reserved_game_scenarios(&mut self) -> (r: Vec<u32>)
        requires
            old(self).wf(),
        ensures
            final(self).wf(),
            r@ == old(self)@.reserved,
            final(self)@ == (SceneView {
                reserved: Seq::empty(),
                scenarios: union_in_order(old(self)@.scenarios, old(self)@.reserved),
                ..old(self)@
            }),
    {
        let mut reserved: Vec<u32> = Vec::new();
        std::mem::swap(&mut reserved, &mut self._reservation_scenarios);
        add_kinds(&mut self._scenarios, &reserved);
        proof {
            lemma_union_in_order(old(self)@.scenarios, reserved@);
        }
        reserved
    }

    /// Whether a scenario just opened starts in the scene at hand: the
    /// scene has loaded, and the scenario names no scene or this one.
    pub fn opens_in_current_scene(&self, scenario_scene_data_name: &str) -> (r: bool)
        ensures
            r == (self@.state == GameSceneState::LoadCompleted && (scenario_scene_data_name@.len() == 0
                || scenario_scene_data_name@ == self@.current)),
    {
        self._game_scene_state == GameSceneState::LoadCompleted && (scenario_scene_data_name.unicode_len() == 0
            || str_equals(scenario_scene_data_name, self._current_game_scene_data_name.as_str()))
    }

    /// Ends a scenario update, given for each running scenario, in order,
    /// whether it plays now and whether it has ended. The scene plays a
    /// scenario while any does; the ended ones stop and count as completed.
    pub fn finish_game_scenarios_update(&mut self, playing: &Vec<bool>, ended: &Vec<bool>)
        requires
            old(self).wf(),
            playing@.len() == old(self)@.scenarios.len(),
            ended@.len() == old(self)@.scenarios.len(),
        ensures
            final(self).wf(),
            ({
                let s = old(self)@.scenarios;
                final(self)@ == SceneView {
                    play_scenario_mode: exists|i: int| 0 <= i < playing@.len() && #[trigger] playing@[i],
                    scenarios: kinds_unmarked(s, ended@, s.len() as int),
                    completed: union_in_order(old(self)@.completed, kinds_marked(s, ended@, s.len() as int)),
                    ..old(self)@
                }
            }),
    {
        let ghost s = self._scenarios@;
        let mut any_playing = false;
        let mut kept: Vec<u32> = Vec::new();
        let mut done: Vec<u32> = Vec::new();
        let n = self._scenarios.len();
        let mut i: usize = 0;
        while i < n
            invariant
                n == s.len(),
                n == playing@.len(),
                n == ended@.len(),
                self._scenarios@ == s,
                i <= n,
                any_playing == exists|j: int| 0 <= j < i && #[trigger] playing@[j],
                kept@ == kinds_unmarked(s, ended@, i as int),
                done@ == kinds_marked(s, ended@, i as int),
            decreases n - i,
        {
            if playing[i] {
                any_playing = true;
            }
            if ended[i] {
                done.push(self._scenarios[i]);
            } else {
                kept.push(self._scenarios[i]);
            }
            proof {
                assert(kept@ =~= kinds_unmarked(s, ended@, i + 1));
                assert(done@ =~= kinds_marked(s, ended@, i + 1));
            }
            i = i + 1;
        }
        proof {
            lemma_kinds_split(s, ended@, n as int);
            lemma_union_in_order(self._completed_game_scenarios@, done@);
        }
        self._is_play_scenario_mode = any_playing;
        self._scenarios = kept;
        add_kinds(&mut self._completed_game_scenarios, &done);
    }
}

/// A scenario update loses no scenario: whatever was running or completed
/// before is running or completed after, and a scenario that ended is
/// completed and runs no more.
pub proof fn lemma_scenario_progress_kept(v: SceneView, playing: Seq<bool>, ended: Seq<bool>, k: u32)
    requires
        v.scenarios.no_duplicates(),
        v.completed.no_duplicates(),
        ended.len() == v.scenarios.len(),
        v.scenarios.contains(k) || v.completed.contains(k),
    ensures
        ({
            let s = v.scenarios;
            let running = kinds_unmarked(s, ended, s.len() as int);
            let completed = union_in_order(v.completed, kinds_marked(s, ended, s.len() as int));
            &&& running.contains(k) || completed.contains(k)
            &&& (forall|i: int| 0 <= i < s.len() && ended[i] && s[i] == k ==> completed.contains(k) && !running.contains(k))
        }),
{
    let s = v.scenarios;
    let n = s.len() as int;
    lemma_kinds_split(s, ended, n);
    let m = kinds_marked(s, ended, n);
    lemma_union_in_order(v.completed, m);
    if s.contains(k) {
        let i = choose|i: int| 0 <= i < s.len() && s[i] == k;
        if ended[i] {
            assert(m.contains(k));
        } else {
            assert(kinds_unmarked(s, ended, n).contains(k));
        }
    }
    assert forall|i: int| 0 <= i < s.len() && ended[i] && s[i] == k implies union_in_order(v.completed, m).contains(k)
        && !kinds_unmarked(s, ended, n).contains(k) by {
        assert(m.contains(k));
        if kinds_unmarked(s, ended, n).contains(k) {
            let j = choose|j: int| 0 <= j < n && !ended[j] && s[j] == k;
            assert(s[i] == s[j]);
        }
    }
}

/// Travelling to another stage through a gate: the first teleport update
/// opens the stage's scene; the scene loads over two updates of the scene
/// manager; the next teleport update then puts the player at its gate, and
/// no teleport is left waiting.
pub proof fn lemma_teleport_to_gate_completes(v: SceneView, stage: Seq<char>, gate: Seq<char>)
    requires
        v.current != stage,
    ensures
        ({
            let asked = SceneView { stage: Some(stage), gate: Some(gate), ..v };
            let travelled = teleport_next(asked);
            let loaded = scene_update_next(scene_update_next(travelled, true), false);
            &&& teleport_requests(asked) == seq![TeleportRequest::GotoGameScene(stage)]
            &&& travelled.current == stage
            &&& loaded.state == GameSceneState::LoadCompleted
            &&& teleport_requests(loaded)[0] == TeleportRequest::PlacePlayerAtGate(gate)
            &&& !teleport_mode(teleport_next(loaded))
        }),
{
}

} // verus!
