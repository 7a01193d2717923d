use vstd::prelude::*;
use crate::game_module::actors::character::actor::{corpse, damaged, lemma_damage_laws, Character, DamageOutcome};
use crate::game_module::actors::character::character::{with_next_action, with_next_move};
use crate::game_module::actors::character::data::{
    is_attack_event_kind, power_of, ActionAnimationState, CharacterDataType, MoveAnimationState,
};
use crate::game_module::actors::character::stats::CharacterStats;
use crate::game_module::actors::interaction_object::InteractionKind;
use crate::game_module::game_constants::{FARM_MEAT_COUNT, ITEM_MEAT, ITEM_SPIRIT_BALL};

verus! {

/// The three sides a character can attack for.
#[derive(Clone, Copy, Debug, PartialEq, Eq, Structural)]
pub enum AttackerKind {
    /// The player hits wild monsters and their corpses.
    Player,
    /// A tamed monster hits living wild monsters.
    Tamed,
    /// A wild monster hits the player and tamed monsters.
    Wild,
}

pub open spec fn attacker_kind(c: Character) -> AttackerKind {
    if c._is_player {
        AttackerKind::Player
    } else if c._character_stats._is_tamed {
        AttackerKind::Tamed
    } else {
        AttackerKind::Wild
    }
}

/// What one attack did to one character.
#[derive(Clone, Copy, Debug, PartialEq, Eq, Structural)]
pub struct TargetResult {
    /// The character was struck once, or twice; each blow's outcome.
    pub first: Option<DamageOutcome>,
    pub second: Option<DamageOutcome>,
    /// The character became the attacker's shown target.
    pub focused: bool,
    /// The character died of the attack.
    pub died: bool,
    /// The character's corpse took its last hit.
    pub farmed: bool,
}

pub open spec fn no_result() -> TargetResult {
    TargetResult { first: None, second: None, focused: false, died: false, farmed: false }
}

/// A visible hit of the given power: a blow when the power is positive,
/// nothing otherwise.
pub open spec fn struck(t: Character, power: i32) -> (Character, Option<DamageOutcome>) {
    if 0 < power {
        let (t1, o) = damaged(t, power);
        (t1, Some(o))
    } else {
        (t, None)
    }
}

/// A character that an attack can reach: in range and not invincible.
pub open spec fn reachable(t: Character, in_range: bool) -> bool {
    in_range && !t._character_stats._invincibility
}

/// What one attack does to one character, and the character after it.
/// The player focuses on any reachable wild character, strikes it when it
/// lives and is no civilian, and strikes its corpse otherwise, farming the
/// corpse on its last hit. A tamed monster strikes reachable living wild
/// monsters. A wild monster strikes the player and then tamed monsters
/// while they live and are reachable. Every death of a monster is reported.
pub open spec fn attack_target(kind: AttackerKind, power: i32, t: Character, in_range: bool) -> (
    Character,
    TargetResult,
) {
    let stats = t._character_stats;
    match kind {
        AttackerKind::Player => if !t._is_player && !stats._is_tamed && reachable(t, in_range) {
            if stats._is_alive && t._character_type != CharacterDataType::Civilian {
                let (t1, o) = struck(t, power);
                (t1, TargetResult { first: o, focused: true, died: !t1._character_stats._is_alive, ..no_result() })
            } else if corpse(t) {
                let (t1, o) = struck(t, power);
                (
                    t1,
                    TargetResult {
                        first: o,
                        focused: true,
                        farmed: t1._character_stats._corpse_hit_count <= 0,
                        ..no_result()
                    },
                )
            } else {
                (t, TargetResult { focused: true, ..no_result() })
            }
        } else {
            (t, no_result())
        },
        AttackerKind::Tamed => if !t._is_player && !stats._is_tamed && stats._is_alive && reachable(t, in_range) {
            let (t1, o) = struck(t, power);
            (t1, TargetResult { first: o, died: !t1._character_stats._is_alive, ..no_result() })
        } else {
            (t, no_result())
        },
        AttackerKind::Wild => {
            let (t1, o1) = if t._is_player && stats._is_alive && reachable(t, in_range) {
                struck(t, power)
            } else {
                (t, None)
            };
            let s1 = t1._character_stats;
            if s1._is_tamed && s1._is_alive && reachable(t1, in_range) {
                let (t2, o2) = struck(t1, power);
                (t2, TargetResult { first: o1, second: o2, died: !t2._character_stats._is_alive, ..no_result() })
            } else {
                (t1, TargetResult { first: o1, ..no_result() })
            }
        },
    }
}

/// The characters after one attack.
pub open spec fn attacked(kind: AttackerKind, power: i32, cs: Seq<Character>, in_range: Seq<bool>) -> Seq<
    Character,
> {
    Seq::new(cs.len(), |i: int| attack_target(kind, power, cs[i], in_range[i]).0)
}

pub open spec fn results(kind: AttackerKind, power: i32, cs: Seq<Character>, in_range: Seq<bool>) -> Seq<
    TargetResult,
> {
    Seq::new(cs.len(), |i: int| attack_target(kind, power, cs[i], in_range[i]).1)
}

/// The positions, in order, of the first `n` results that have a flag.
pub open spec fn died_positions(rs: Seq<TargetResult>, n: int) -> Seq<usize>
    decreases n,
{
    if n <= 0 {
        Seq::empty()
    } else {
        died_positions(rs, n - 1) + (if rs[n - 1].died {
            seq![(n - 1) as usize]
        } else {
            Seq::empty()
        })
    }
}

pub open spec fn farmed_positions(rs: Seq<TargetResult>, n: int) -> Seq<usize>
    decreases n,
{
    if n <= 0 {
        Seq::empty()
    } else {
        farmed_positions(rs, n - 1) + (if rs[n - 1].farmed {
            seq![(n - 1) as usize]
        } else {
            Seq::empty()
        })
    }
}

/// The last of the first `n` results that focused, if any.
pub open spec fn last_focused(rs: Seq<TargetResult>, n: int) -> Option<usize>
    decreases n,
{
    if n <= 0 {
        None
    } else if rs[n - 1].focused {
        Some((n - 1) as usize)
    } else {
        last_focused(rs, n - 1)
    }
}

/// What one attack did to all characters.
pub struct AttackReport {
    /// Each character's result, by position.
    pub results: Vec<TargetResult>,
    /// The monsters that died of the attack.
    pub dead: Vec<usize>,
    /// The corpses used up by the attack.
    pub farmed: Vec<usize>,
    /// The character to show as the player's target.
    pub focus: Option<usize>,
}

/// The characters of a game scene, the player among them, and the
/// interactions the player has at hand with them, each a kind and the id of
/// the character.
pub struct CharacterManager {
    pub _characters: Vec<Character>,
    pub _player_interactions: Vec<(InteractionKind, u64)>,
}

/// Two characters of one scene: they have different ids, and they are not
/// both the player.
pub open spec fn apart(a: Character, b: Character) -> bool {
    a._character_id != b._character_id && !(a._is_player && b._is_player)
}

/// The characters are well formed, no id occurs twice, and at most one of
/// them is the player.
pub open spec fn scene_wf(cs: Seq<Character>) -> bool {
    &&& forall|i: int| 0 <= i < cs.len() ==> (#[trigger] cs[i]).wf()
    &&& forall|i: int, j: int|
        #![trigger cs[i], cs[j]]
        0 <= i < cs.len() && 0 <= j < cs.len() && i != j ==> apart(cs[i], cs[j])
}

/// A character keeps who it is: its id, and whether it is the player.
pub open spec fn same_identity(a: Character, b: Character) -> bool {
    a._character_id == b._character_id && a._is_player == b._is_player
}

impl CharacterManager {
    pub open spec fn wf(&self) -> bool {
        scene_wf(self._characters@)
    }

    /// Resolves the attack the character at `attacker` lands in this
    /// update. `in_range[i]` tells whether the character at `i` stands
    /// within the attacker's reach in front of it.
    pub fn resolve_attack(&mut self, attacker: usize, in_range: &Vec<bool>) -> (r: AttackReport)
        requires
            old(self).wf(),
            attacker < old(self)._characters@.len(),
            in_range@.len() == old(self)._characters@.len(),
            is_attack_event_kind(old(self)._characters@[attacker as int]._animation_state._action_event),
        ensures
            final(self).wf(),
            final(self)._player_interactions == old(self)._player_interactions,
            ({
                let a = old(self)._characters@[attacker as int];
                let kind = attacker_kind(a);
                let power = power_of(a._animation_state._action_event, a._power_data);
                let rs = results(kind, power, old(self)._characters@, in_range@);
                &&& final(self)._characters@ == attacked(kind, power, old(self)._characters@, in_range@)
                &&& r.results@ == rs
                &&& r.dead@ == died_positions(rs, rs.len() as int)
                &&& r.farmed@ == farmed_positions(rs, rs.len() as int)
                &&& r.focus == last_focused(rs, rs.len() as int)
            }),
    {
        let a = self._characters[attacker];
        let kind = if a._is_player {
            AttackerKind::Player
        } else if a._character_stats._is_tamed {
            AttackerKind::Tamed
        } else {
            AttackerKind::Wild
        };
        let power = a.get_power(a._animation_state._action_event);
        let ghost cs0 = self._characters@;
        let ghost rs = results(kind, power, cs0, in_range@);
        let mut report = AttackReport { results: Vec::new(), dead: Vec::new(), farmed: Vec::new(), focus: None };
        let n = self._characters.len();
        let mut i: usize = 0;
        while i < n
            invariant
                n == cs0.len(),
                n == in_range@.len(),
                self._player_interactions == old(self)._player_interactions,
                i <= n,
                self._characters@.len() == n,
                forall|j: int| 0 <= j < n ==> (#[trigger] cs0[j]).wf(),
                rs == results(kind, power, cs0, in_range@),
                forall|j: int|
                    0 <= j < i ==> #[trigger] self._characters@[j] == attack_target(
                        kind,
                        power,
                        cs0[j],
                        in_range@[j],
                    ).0,
                forall|j: int| i <= j < n ==> #[trigger] self._characters@[j] == cs0[j],
                forall|j: int| 0 <= j < i ==> (#[trigger] self._characters@[j]).wf(),
                scene_wf(cs0),
                forall|j: int| 0 <= j < n ==> same_identity(#[trigger] self._characters@[j], cs0[j]),
                report.results@ == rs.subrange(0, i as int),
                report.dead@ == died_positions(rs, i as int),
                report.farmed@ == farmed_positions(rs, i as int),
                report.focus == last_focused(rs, i as int),
            decreases n - i,
        {
            let t = self._characters[i];
            let (t1, res) = attack_one(kind, power, t, in_range[i]);
            self._characters.set(i, t1);
            report.results.push(res);
            if res.died {
                report.dead.push(i);
            }
            if res.farmed {
                report.farmed.push(i);
            }
            if res.focused {
                report.focus = Some(i);
            }
            proof {
                assert forall|j: int| 0 <= j < n implies same_identity(#[trigger] self._characters@[j], cs0[j]) by {
                    if j == i {
                        assert(self._characters@[j] == t1);
                    }
                }
                assert(rs[i as int] == res);
                assert(report.results@ =~= rs.subrange(0, i + 1));
                assert(died_positions(rs, i + 1) == died_positions(rs, i as int) + (if rs[i as int].died {
                    seq![i]
                } else {
                    Seq::empty()
                }));
                assert(farmed_positions(rs, i + 1) == farmed_positions(rs, i as int) + (if rs[i as int].farmed {
                    seq![i]
                } else {
                    Seq::empty()
                }));
                if res.died {
                    assert(report.dead@ =~= died_positions(rs, i + 1));
                } else {
                    assert(report.dead@ =~= died_positions(rs, i + 1));
                }
                assert(report.farmed@ =~= farmed_positions(rs, i + 1));
            }
            i = i + 1;
        }
        proof {
            let f = self._characters@;
            assert forall|a: int, b: int|
                #![trigger f[a], f[b]]
                0 <= a < f.len() && 0 <= b < f.len() && a != b implies apart(f[a], f[b]) by {
                assert(same_identity(f[a], cs0[a]));
                assert(same_identity(f[b], cs0[b]));
                assert(apart(cs0[a], cs0[b]));
            }
            assert(self._characters@ =~= attacked(kind, power, cs0, in_range@));
            assert(rs.subrange(0, n as int) =~= rs);
        }
        report
    }
}

/// A visible hit of the given power on one character.
fn strike(t: Character, power: i32) -> (r: (Character, Option<DamageOutcome>))
    requires
        t.wf(),
    ensures
        r == struck(t, power),
        r.0.wf(),
        same_identity(r.0, t),
{
    let mut t1 = t;
    proof {
        lemma_damage_laws(t, power);
    }
    let o = t1.set_hit_damage(power);
    (t1, o)
}

/// What one attack does to one character, as `attack_target` states it.
fn attack_one(kind: AttackerKind, power: i32, t: Character, in_range: bool) -> (r: (Character, TargetResult))
    requires
        t.wf(),
    ensures
        r == attack_target(kind, power, t, in_range),
        r.0.wf(),
        same_identity(r.0, t),
{
    let stats = t._character_stats;
    let empty = TargetResult { first: None, second: None, focused: false, died: false, farmed: false };
    let reach = in_range && !stats._invincibility;
    match kind {
        AttackerKind::Player => {
            if !t._is_player && !stats._is_tamed && reach {
                if stats._is_alive && !t.is_civilian() {
                    let (t1, o) = strike(t, power);
                    (t1, TargetResult { first: o, focused: true, died: !t1._character_stats._is_alive, ..empty })
                } else if t.is_corpse() {
                    let (t1, o) = strike(t, power);
                    (
                        t1,
                        TargetResult {
                            first: o,
                            focused: true,
                            farmed: t1._character_stats._corpse_hit_count <= 0,
                            ..empty
                        },
                    )
                } else {
                    (t, TargetResult { focused: true, ..empty })
                }
            } else {
                (t, empty)
            }
        },
        AttackerKind::Tamed => {
            if !t._is_player && !stats._is_tamed && stats._is_alive && reach {
                let (t1, o) = strike(t, power);
                (t1, TargetResult { first: o, died: !t1._character_stats._is_alive, ..empty })
            } else {
                (t, empty)
            }
        },
        AttackerKind::Wild => {
            let (t1, o1) = if t._is_player && stats._is_alive && reach {
                strike(t, power)
            } else {
                (t, None)
            };
            let s1 = t1._character_stats;
            if s1._is_tamed && s1._is_alive && in_range && !s1._invincibility {
                let (t2, o2) = strike(t1, power);
                (t2, TargetResult { first: o1, second: o2, died: !t2._character_stats._is_alive, ..empty })
            } else {
                (t1, TargetResult { first: o1, ..empty })
            }
        },
    }
}

/// A change the player's list of interactions needs.
#[derive(Clone, Copy, Debug, PartialEq, Eq, Structural)]
pub enum InteractionUiCommand {
    Add(InteractionKind),
    Remove(InteractionKind),
}

/// The changes that keep the player's interactions with a character right.
/// A corpse offers taming and farming (together) while the player is near,
/// and no talk. Any other character offers no taming or farming; it offers
/// a talk while the player is near if it lives and is a civilian or tamed.
/// `has_taming` and `has_npc` tell what the player's list holds already.
pub open spec fn interaction_ui_commands(c: Character, has_taming: bool, has_npc: bool, in_range: bool) -> Seq<
    InteractionUiCommand,
> {
    if corpse(c) {
        (if has_npc {
            seq![InteractionUiCommand::Remove(InteractionKind::Npc)]
        } else {
            Seq::empty()
        }) + (if !has_taming && in_range {
            seq![
                InteractionUiCommand::Add(InteractionKind::Taming),
                InteractionUiCommand::Add(InteractionKind::Farming),
            ]
        } else if has_taming && !in_range {
            seq![
                InteractionUiCommand::Remove(InteractionKind::Taming),
                InteractionUiCommand::Remove(InteractionKind::Farming),
            ]
        } else {
            Seq::empty()
        })
    } else {
        (if has_taming {
            seq![
                InteractionUiCommand::Remove(InteractionKind::Taming),
                InteractionUiCommand::Remove(InteractionKind::Farming),
            ]
        } else {
            Seq::empty()
        }) + (if c._character_stats._is_alive && (c._character_type == CharacterDataType::Civilian
            || c._character_stats._is_tamed) {
            if !has_npc && in_range {
                seq![InteractionUiCommand::Add(InteractionKind::Npc)]
            } else if has_npc && !in_range {
                seq![InteractionUiCommand::Remove(InteractionKind::Npc)]
            } else {
                Seq::empty()
            }
        } else if has_npc {
            seq![InteractionUiCommand::Remove(InteractionKind::Npc)]
        } else {
            Seq::empty()
        })
    }
}

/// Keeps the player's interactions with one character right, as
/// `interaction_ui_commands` states.
pub fn update_interaction_ui(c: &Character, has_taming: bool, has_npc: bool, in_range: bool) -> (r: Vec<
    InteractionUiCommand,
>)
    ensures
        r@ == interaction_ui_commands(*c, has_taming, has_npc, in_range),
{
    let mut r: Vec<InteractionUiCommand> = Vec::new();
    if c.is_corpse() {
        if has_npc {
            r.push(InteractionUiCommand::Remove(InteractionKind::Npc));
        }
        if !has_taming && in_range {
            r.push(InteractionUiCommand::Add(InteractionKind::Taming));
            r.push(InteractionUiCommand::Add(InteractionKind::Farming));
        } else if has_taming && !in_range {
            r.push(InteractionUiCommand::Remove(InteractionKind::Taming));
            r.push(InteractionUiCommand::Remove(InteractionKind::Farming));
        }
    } else {
        if has_taming {
            r.push(InteractionUiCommand::Remove(InteractionKind::Taming));
            r.push(InteractionUiCommand::Remove(InteractionKind::Farming));
        }
        if c.is_alive() && (c.is_civilian() || c.is_tamed()) {
            if !has_npc && in_range {
                r.push(InteractionUiCommand::Add(InteractionKind::Npc));
            } else if has_npc && !in_range {
                r.push(InteractionUiCommand::Remove(InteractionKind::Npc));
            }
        } else if has_npc {
            r.push(InteractionUiCommand::Remove(InteractionKind::Npc));
        }
    }
    proof {
        assert(r@ =~= interaction_ui_commands(*c, has_taming, has_npc, in_range));
    }
    r
}

/// Whatever the list held, after the changes it offers taming exactly for a
/// corpse the player is near, and a talk exactly for a living civilian or
/// tamed character the player is near.
pub proof fn lemma_interaction_ui_settles(c: Character, has_taming: bool, has_npc: bool, in_range: bool)
    ensures
        ({
            let cmds = interaction_ui_commands(c, has_taming, has_npc, in_range);
            let taming_after = if cmds.contains(InteractionUiCommand::Add(InteractionKind::Taming)) {
                true
            } else if cmds.contains(InteractionUiCommand::Remove(InteractionKind::Taming)) {
                false
            } else {
                has_taming
            };
            let npc_after = if cmds.contains(InteractionUiCommand::Add(InteractionKind::Npc)) {
                true
            } else if cmds.contains(InteractionUiCommand::Remove(InteractionKind::Npc)) {
                false
            } else {
                has_npc
            };
            &&& taming_after == (corpse(c) && in_range)
            &&& npc_after == (!corpse(c) && c._character_stats._is_alive && (c._character_type
                == CharacterDataType::Civilian || c._character_stats._is_tamed) && in_range)
        }),
{
    let cmds = interaction_ui_commands(c, has_taming, has_npc, in_range);
    let at = InteractionUiCommand::Add(InteractionKind::Taming);
    let rt = InteractionUiCommand::Remove(InteractionKind::Taming);
    let an = InteractionUiCommand::Add(InteractionKind::Npc);
    let rn = InteractionUiCommand::Remove(InteractionKind::Npc);
    if cmds.contains(at) {
        let k = choose|k: int| 0 <= k < cmds.len() && cmds[k] == at;
    }
    if cmds.contains(rt) {
        let k = choose|k: int| 0 <= k < cmds.len() && cmds[k] == rt;
    }
    if cmds.contains(an) {
        let k = choose|k: int| 0 <= k < cmds.len() && cmds[k] == an;
    }
    if cmds.contains(rn) {
        let k = choose|k: int| 0 <= k < cmds.len() && cmds[k] == rn;
    }
    if corpse(c) {
        if !has_taming && in_range {
            assert(cmds[if has_npc { 1int } else { 0int }] == at);
        } else if has_taming && !in_range {
            assert(cmds[if has_npc { 1int } else { 0int }] == rt);
        }
        if has_npc {
            assert(cmds[0] == rn);
        }
    } else {
        if has_taming {
            assert(cmds[0] == rt);
        }
        let off: int = if has_taming { 2 } else { 0 };
        if c._character_stats._is_alive && (c._character_type == CharacterDataType::Civilian
            || c._character_stats._is_tamed) {
            if !has_npc && in_range {
                assert(cmds[off] == an);
            } else if has_npc && !in_range {
                assert(cmds[off] == rn);
            }
        } else if has_npc {
            assert(cmds[off] == rn);
        }
    }
}


/// The player's interactions after one change of the interface for the
/// character of the given id: an added kind is appended, a removed kind is
/// dropped wherever it was held for the character.
pub open spec fn with_ui_command(
    is: Seq<(InteractionKind, u64)>,
    id: u64,
    cmd: InteractionUiCommand,
) -> Seq<(InteractionKind, u64)> {
    match cmd {
        InteractionUiCommand::Add(k) => is.push((k, id)),
        InteractionUiCommand::Remove(k) => is.filter(|e: (InteractionKind, u64)| e != (k, id)),
    }
}

/// The player's interactions after the changes, in order.
pub open spec fn with_ui_commands(
    is: Seq<(InteractionKind, u64)>,
    id: u64,
    cmds: Seq<InteractionUiCommand>,
) -> Seq<(InteractionKind, u64)>
    decreases cmds.len(),
{
    if cmds.len() == 0 {
        is
    } else {
        with_ui_command(with_ui_commands(is, id, cmds.drop_last()), id, cmds.last())
    }
}

/// Whether the interaction is among those at hand.
fn holds_interaction(is: &Vec<(InteractionKind, u64)>, k: InteractionKind, id: u64) -> (r: bool)
    ensures
        r == is@.contains((k, id)),
{
    let mut i: usize = 0;
    while i < is.len()
        invariant
            i <= is@.len(),
            forall|j: int| 0 <= j < i ==> is@[j] != (k, id),
        decreases is@.len() - i,
    {
        let e = is[i];
        if e.0 == k && e.1 == id {
            assert(is@[i as int] == (k, id));
            return true;
        }
        i = i + 1;
    }
    false
}

/// Drops the interaction wherever it is held.
fn drop_interaction(is: &mut Vec<(InteractionKind, u64)>, k: InteractionKind, id: u64)
    ensures
        final(is)@ == old(is)@.filter(|e: (InteractionKind, u64)| e != (k, id)),
{
    let ghost s = is@;
    let ghost keep = |e: (InteractionKind, u64)| e != (k, id);
    let mut kept: Vec<(InteractionKind, u64)> = Vec::new();
    let n = is.len();
    let mut i: usize = 0;
    while i < n
        invariant
            n == s.len(),
            is@ == s,
            i <= n,
            keep == (|e: (InteractionKind, u64)| e != (k, id)),
            kept@ == s.subrange(0, i as int).filter(keep),
        decreases n - i,
    {
        let e = is[i];
        proof {
            let t = s.subrange(0, i + 1);
            assert(t.drop_last() =~= s.subrange(0, i as int));
            assert(t.last() == e);
            reveal(Seq::filter);
        }
        if !(e.0 == k && e.1 == id) {
            kept.push(e);
        }
        i = i + 1;
    }
    proof {
        assert(s.subrange(0, n as int) =~= s);
    }
    *is = kept;
}

impl CharacterManager {
    /// Keeps the player's interactions with the character at `index` right,
    /// as `update_interaction_ui` decides from what the player holds for it
    /// and whether the player is near, and returns the changes made.
    pub fn update_character_interaction_ui(&mut self, index: usize, in_range: bool) -> (r: Vec<InteractionUiCommand>)
        requires
            index < old(self)._characters@.len(),
        ensures
            final(self)._characters == old(self)._characters,
            ({
                let c = old(self)._characters@[index as int];
                let is = old(self)._player_interactions@;
                &&& r@ == interaction_ui_commands(
                    c,
                    is.contains((InteractionKind::Taming, c._character_id)),
                    is.contains((InteractionKind::Npc, c._character_id)),
                    in_range,
                )
                &&& final(self)._player_interactions@ == with_ui_commands(is, c._character_id, r@)
            }),
    {
        let c = self._characters[index];
        let id = c._character_id;
        let has_taming = holds_interaction(&self._player_interactions, InteractionKind::Taming, id);
        let has_npc = holds_interaction(&self._player_interactions, InteractionKind::Npc, id);
        let r = update_interaction_ui(&c, has_taming, has_npc, in_range);
        let ghost is0 = self._player_interactions@;
        let mut i: usize = 0;
        while i < r.len()
            invariant
                i <= r@.len(),
                self._characters == old(self)._characters,
                self._player_interactions@ == with_ui_commands(is0, id, r@.subrange(0, i as int)),
            decreases r@.len() - i,
        {
            let cmd = r[i];
            match cmd {
                InteractionUiCommand::Add(k) => {
                    self._player_interactions.push((k, id));
                },
                InteractionUiCommand::Remove(k) => {
                    drop_interaction(&mut self._player_interactions, k, id);
                },
            }
            proof {
                let t = r@.subrange(0, i + 1);
                assert(t.drop_last() =~= r@.subrange(0, i as int));
                assert(t.last() == cmd);
            }
            i = i + 1;
        }
        proof {
            assert(r@.subrange(0, r@.len() as int) =~= r@);
        }
        r
    }
}


/// A tamed monster's blow lands on every living wild monster in its reach
/// that is not invincible: it takes the damage, and its death is reported.
pub proof fn lemma_tamed_attack_strikes(power: i32, t: Character)
    requires
        0 < power,
        !t._is_player,
        !t._character_stats._is_tamed,
        t._character_stats._is_alive,
        !t._character_stats._invincibility,
    ensures
        attack_target(AttackerKind::Tamed, power, t, true).0 == damaged(t, power).0,
        attack_target(AttackerKind::Tamed, power, t, true).1.first == Some(damaged(t, power).1),
        attack_target(AttackerKind::Tamed, power, t, true).1.died == !damaged(t, power).0._character_stats._is_alive,
        !attack_target(AttackerKind::Tamed, power, t, true).1.focused,
{
}

/// The player's blow lands on every living wild monster in reach that is
/// no civilian and not invincible: it takes the damage, becomes the shown
/// target, and its death is reported.
pub proof fn lemma_player_attack_strikes(power: i32, t: Character)
    requires
        0 < power,
        !t._is_player,
        !t._character_stats._is_tamed,
        t._character_stats._is_alive,
        !t._character_stats._invincibility,
        t._character_type != CharacterDataType::Civilian,
    ensures
        attack_target(AttackerKind::Player, power, t, true).0 == damaged(t, power).0,
        attack_target(AttackerKind::Player, power, t, true).1.first == Some(damaged(t, power).1),
        attack_target(AttackerKind::Player, power, t, true).1.focused,
        attack_target(AttackerKind::Player, power, t, true).1.died == !damaged(t, power).0._character_stats._is_alive,
{
}

/// The player's blow on a corpse in reach takes one of its hits, and the
/// corpse is reported farmed exactly when that was its last.
pub proof fn lemma_player_attack_farms_corpses(power: i32, t: Character)
    requires
        0 < power,
        corpse(t),
        !t._is_player,
        !t._character_stats._invincibility,
        t.wf(),
    ensures
        ({
            let (t1, res) = attack_target(AttackerKind::Player, power, t, true);
            &&& res.focused
            &&& !res.died
            &&& t._character_stats._corpse_hit_count > 0 ==> t1._character_stats._corpse_hit_count
                == t._character_stats._corpse_hit_count - 1 && res.first == Some(DamageOutcome::CorpseHit)
            &&& res.farmed == (t1._character_stats._corpse_hit_count <= 0)
            &&& t1._character_stats._hp == t._character_stats._hp
        }),
{
}

/// A wild monster's blow lands on the living player in reach that is not
/// invincible.
pub proof fn lemma_wild_attack_strikes_player(power: i32, t: Character)
    requires
        0 < power,
        t._is_player,
        !t._character_stats._is_tamed,
        t._character_stats._is_alive,
        !t._character_stats._invincibility,
    ensures
        attack_target(AttackerKind::Wild, power, t, true).0 == damaged(t, power).0,
        attack_target(AttackerKind::Wild, power, t, true).1.first == Some(damaged(t, power).1),
{
}

/// A wild monster's blow lands on every living tamed monster in reach that
/// is not invincible.
pub proof fn lemma_wild_attack_strikes_tamed(power: i32, t: Character)
    requires
        0 < power,
        !t._is_player,
        t._character_stats._is_tamed,
        t._character_stats._is_alive,
        !t._character_stats._invincibility,
    ensures
        attack_target(AttackerKind::Wild, power, t, true).0 == damaged(t, power).0,
        attack_target(AttackerKind::Wild, power, t, true).1.second == Some(damaged(t, power).1),
        attack_target(AttackerKind::Wild, power, t, true).1.died == !damaged(t, power).0._character_stats._is_alive,
{
}

/// No attack reaches a character out of range or invincible: it stays as
/// it was and nothing is reported of it.
pub proof fn lemma_attack_misses_out_of_reach(kind: AttackerKind, power: i32, t: Character, in_range: bool)
    requires
        !in_range || t._character_stats._invincibility,
    ensures
        attack_target(kind, power, t, in_range).0 == t,
        attack_target(kind, power, t, in_range).1 == (TargetResult {
            first: None,
            second: None,
            focused: false,
            died: false,
            farmed: false,
        }),
{
}


/// A tamed monster with a living wild monster in tracking range goes after
/// one, and after none farther than any other in range.
pub proof fn lemma_tamed_hunts_nearest_wild(
    cs: Seq<Character>,
    who: int,
    player: usize,
    following: bool,
    keys: Seq<u32>,
    range: u32,
    r: Option<usize>,
    j: int,
)
    requires
        0 <= who < cs.len(),
        !cs[who]._is_player,
        cs[who]._character_stats._is_tamed,
        0 <= j < cs.len(),
        !cs[j]._is_player && !cs[j]._character_stats._is_tamed && cs[j]._character_stats._is_alive,
        keys[j] <= range,
        ai_target(cs, who, player, following, keys, range, r),
    ensures
        r matches Some(t) && 0 <= t < cs.len() && !cs[t as int]._is_player && !cs[t as int]._character_stats._is_tamed
            && cs[t as int]._character_stats._is_alive && keys[t as int] <= keys[j] && keys[t as int] <= range,
{
    assert(prey_within(PreyKind::Wild, cs, keys, range, None, j));
}

/// A wild monster that does not follow the player goes after the living
/// player in tracking range unless a living tamed monster is strictly
/// nearer; with no one in range it goes after no one.
pub proof fn lemma_wild_hunts_player(
    cs: Seq<Character>,
    who: int,
    player: usize,
    keys: Seq<u32>,
    range: u32,
    r: Option<usize>,
)
    requires
        0 <= who < cs.len(),
        player < cs.len(),
        !cs[who]._is_player,
        !cs[who]._character_stats._is_tamed,
        ai_target(cs, who, player, false, keys, range, r),
    ensures
        cs[player as int]._character_stats._is_alive && keys[player as int] <= range && (forall|k: int|
            0 <= k < cs.len() && #[trigger] cs[k]._character_stats._is_tamed && cs[k]._character_stats._is_alive
                ==> keys[k] >= keys[player as int]) ==> r == Some(player),
        r matches Some(t) ==> (t != player ==> cs[t as int]._character_stats._is_tamed
            && cs[t as int]._character_stats._is_alive && keys[t as int] <= range),
        !(cs[player as int]._character_stats._is_alive && keys[player as int] <= range) && (forall|k: int|
            0 <= k < cs.len() && #[trigger] cs[k]._character_stats._is_tamed && cs[k]._character_stats._is_alive
                ==> keys[k] > range) ==> r is None,
{
    let bound = if cs[player as int]._character_stats._is_alive && keys[player as int] <= range {
        Some(keys[player as int])
    } else {
        None
    };
    if has_prey(PreyKind::Tamed, cs, keys, range, bound) {
        let j = choose|j: int| prey_within(PreyKind::Tamed, cs, keys, range, bound, j);
        assert(cs[j]._character_stats._is_tamed);
    }
}

/// A monster that follows the player goes after the player, unless it is
/// tamed and has a wild monster to hunt.
pub proof fn lemma_follower_goes_after_player(
    cs: Seq<Character>,
    who: int,
    player: usize,
    keys: Seq<u32>,
    range: u32,
    r: Option<usize>,
)
    requires
        0 <= who < cs.len(),
        !cs[who]._is_player,
        ai_target(cs, who, player, true, keys, range, r),
        cs[who]._character_stats._is_tamed ==> forall|k: int|
            0 <= k < cs.len() && !#[trigger] cs[k]._is_player && !cs[k]._character_stats._is_tamed
                && cs[k]._character_stats._is_alive ==> keys[k] > range,
    ensures
        r == Some(player),
{
    if cs[who]._character_stats._is_tamed && has_prey(PreyKind::Wild, cs, keys, range, None) {
        let j = choose|j: int| prey_within(PreyKind::Wild, cs, keys, range, None, j);
        assert(!cs[j]._is_player);
    }
}

/// The side a character fights on: the player and tamed monsters on one,
/// wild monsters on the other.
pub open spec fn on_players_side(c: Character) -> bool {
    c._is_player || c._character_stats._is_tamed
}

/// An attack never touches a character of the attacker's own side, the
/// attacker itself among them.
pub proof fn lemma_attack_spares_own_side(a: Character, power: i32, t: Character, in_range: bool)
    requires
        on_players_side(a) == on_players_side(t),
    ensures
        attack_target(attacker_kind(a), power, t, in_range) == (t, no_result()),
{
}

/// An attack leaves every character of the attacker's side as it was.
pub proof fn lemma_attack_keeps_own_side(a: Character, power: i32, cs: Seq<Character>, in_range: Seq<bool>, i: int)
    requires
        cs.len() == in_range.len(),
        0 <= i < cs.len(),
        on_players_side(a) == on_players_side(cs[i]),
    ensures
        attacked(attacker_kind(a), power, cs, in_range)[i] == cs[i],
        !results(attacker_kind(a), power, cs, in_range)[i].died,
{
    lemma_attack_spares_own_side(a, power, cs[i], in_range[i]);
}


/// Whether a character stays when the scene's characters are cleared: only
/// the player, and only when the player is spared.
pub open spec fn stays_on_clear(clear_player: bool) -> spec_fn(Character) -> bool {
    |c: Character| !clear_player && c._is_player
}

/// Some player of the scene lives.
pub open spec fn player_alive(cs: Seq<Character>) -> bool {
    exists|i: int| 0 <= i < cs.len() && #[trigger] cs[i]._is_player && cs[i]._character_stats._is_alive
}

/// The characters whose mark is not set, in their order.
pub open spec fn unmarked(cs: Seq<Character>, marked: Seq<bool>, n: int) -> Seq<Character>
    decreases n,
{
    if n <= 0 {
        Seq::empty()
    } else {
        unmarked(cs, marked, n - 1) + (if marked[n - 1] {
            Seq::empty()
        } else {
            seq![cs[n - 1]]
        })
    }
}

/// What a farmed corpse leaves behind: its spirit ball, then its meat.
pub open spec fn farm_drops() -> Seq<&'static str> {
    seq![ITEM_SPIRIT_BALL] + Seq::new(FARM_MEAT_COUNT as nat, |i: int| ITEM_MEAT)
}

/// The player's interactions at hand with characters, each a kind and the
/// id of the character, without those with the characters of the given ids.
pub open spec fn without_ids(is: Seq<(InteractionKind, u64)>, gone: Seq<u64>) -> Seq<(InteractionKind, u64)> {
    is.filter(|e: (InteractionKind, u64)| !gone.contains(e.1))
}

/// The ids of the first `n` characters whose mark is set, in their order.
pub open spec fn marked_ids(cs: Seq<Character>, marked: Seq<bool>, n: int) -> Seq<u64>
    decreases n,
{
    if n <= 0 {
        Seq::empty()
    } else {
        marked_ids(cs, marked, n - 1) + (if marked[n - 1] {
            seq![cs[n - 1]._character_id]
        } else {
            Seq::empty()
        })
    }
}

/// The marks of the characters that clearing the scene takes away.
pub open spec fn clear_marks(cs: Seq<Character>, clear_player: bool) -> Seq<bool> {
    Seq::new(cs.len(), |i: int| !stays_on_clear(clear_player)(cs[i]))
}

/// A character as it leaves the scene: its animations are asked to stop
/// and its stats are hidden.
pub open spec fn destroyed(c: Character) -> Character {
    Character {
        _animation_state: with_next_move(
            with_next_action(c._animation_state, ActionAnimationState::Nothing),
            MoveAnimationState::Nothing,
        ),
        _character_stats: CharacterStats { _is_stat_displayed: false, ..c._character_stats },
        ..c
    }
}

/// Whether `id` is among `ids`.
fn contains_id(ids: &Vec<u64>, id: u64) -> (r: bool)
    ensures
        r == ids@.contains(id),
{
    let mut i: usize = 0;
    while i < ids.len()
        invariant
            i <= ids@.len(),
            forall|j: int| 0 <= j < i ==> ids@[j] != id,
        decreases ids@.len() - i,
    {
        if ids[i] == id {
            assert(ids@[i as int] == id);
            return true;
        }
        i = i + 1;
    }
    false
}

impl CharacterManager {
    /// A scene with no characters, and nothing at hand for the player.
    pub fn create_character_manager() -> (r: CharacterManager)
        ensures
            r.wf(),
            r._characters@ == Seq::<Character>::empty(),
            r._player_interactions@ == Seq::<(InteractionKind, u64)>::empty(),
    {
        CharacterManager { _characters: Vec::new(), _player_interactions: Vec::new() }
    }

    /// Where the character of the given id stands, the first one if several
    /// share it.
    pub fn get_character(&self, character_id: u64) -> (r: Option<usize>)
        ensures
            match r {
                Some(i) => i < self._characters@.len() && self._characters@[i as int]._character_id == character_id
                    && forall|j: int| 0 <= j < i ==> #[trigger] self._characters@[j]._character_id != character_id,
                None => forall|j: int|
                    0 <= j < self._characters@.len() ==> #[trigger] self._characters@[j]._character_id != character_id,
            },
    {
        let mut i: usize = 0;
        while i < self._characters.len()
            invariant
                i <= self._characters@.len(),
                forall|j: int| 0 <= j < i ==> #[trigger] self._characters@[j]._character_id != character_id,
            decreases self._characters@.len() - i,
        {
            if self._characters[i]._character_id == character_id {
                return Some(i);
            }
            i = i + 1;
        }
        None
    }

    /// Puts a character into the scene under its id: it takes the place of
    /// a character of the same id, or joins the others at the end. The
    /// result tells where it stands. The scene keeps one player slot, so a
    /// player may only come in when no other character is the player.
    pub fn create_character(&mut self, character: Character) -> (r: usize)
        requires
            old(self).wf(),
            character.wf(),
            character._is_player ==> forall|j: int|
                0 <= j < old(self)._characters@.len() && (#[trigger] old(self)._characters@[j])._is_player
                    ==> old(self)._characters@[j]._character_id == character._character_id,
        ensures
            final(self).wf(),
            final(self)._player_interactions == old(self)._player_interactions,
            (exists|j: int|
                0 <= j < old(self)._characters@.len() && (#[trigger] old(self)._characters@[j])._character_id
                    == character._character_id) ==> {
                &&& r < old(self)._characters@.len()
                &&& old(self)._characters@[r as int]._character_id == character._character_id
                &&& final(self)._characters@ == old(self)._characters@.update(r as int, character)
            },
            (forall|j: int|
                0 <= j < old(self)._characters@.len() ==> (#[trigger] old(self)._characters@[j])._character_id
                    != character._character_id) ==> {
                &&& r == old(self)._characters@.len()
                &&& final(self)._characters@ == old(self)._characters@.push(character)
            },
    {
        let ghost o = self._characters@;
        match self.get_character(character._character_id) {
            Some(i) => {
                self._characters.set(i, character);
                proof {
                    let f = self._characters@;
                    assert forall|a: int, b: int|
                        #![trigger f[a], f[b]]
                        0 <= a < f.len() && 0 <= b < f.len() && a != b implies apart(f[a], f[b]) by {
                        if a == i {
                            assert(apart(o[i as int], o[b]));
                        } else if b == i {
                            assert(apart(o[a], o[i as int]));
                        } else {
                            assert(apart(o[a], o[b]));
                        }
                    }
                }
                i
            },
            None => {
                let n = self._characters.len();
                self._characters.push(character);
                proof {
                    let f = self._characters@;
                    assert forall|a: int, b: int|
                        #![trigger f[a], f[b]]
                        0 <= a < f.len() && 0 <= b < f.len() && a != b implies apart(f[a], f[b]) by {
                        if a == n {
                            assert(f[b] == o[b]);
                        } else if b == n {
                            assert(f[a] == o[a]);
                        } else {
                            assert(apart(o[a], o[b]));
                        }
                    }
                }
                n
            },
        }
    }

    /// Whether the player lives.
    pub fn is_player_alive(&self) -> (r: bool)
        ensures
            r == player_alive(self._characters@),
    {
        let n = self._characters.len();
        let mut i: usize = 0;
        while i < n
            invariant
                n == self._characters@.len(),
                i <= n,
                forall|j: int|
                    0 <= j < i ==> !(#[trigger] self._characters@[j]._is_player
                        && self._characters@[j]._character_stats._is_alive),
            decreases n - i,
        {
            if self._characters[i]._is_player && self._characters[i]._character_stats._is_alive {
                return true;
            }
            i = i + 1;
        }
        false
    }

    /// Drops the player's interactions with the characters of the given ids.
    fn drop_interactions_with(&mut self, gone: &Vec<u64>)
        ensures
            final(self)._characters == old(self)._characters,
            final(self)._player_interactions@ == without_ids(old(self)._player_interactions@, gone@),
    {
        let ghost is = self._player_interactions@;
        let ghost keep = |e: (InteractionKind, u64)| !gone@.contains(e.1);
        let mut kept: Vec<(InteractionKind, u64)> = Vec::new();
        let n = self._player_interactions.len();
        let mut i: usize = 0;
        while i < n
            invariant
                n == is.len(),
                self._player_interactions@ == is,
                i <= n,
                keep == (|e: (InteractionKind, u64)| !gone@.contains(e.1)),
                kept@ == is.subrange(0, i as int).filter(keep),
            decreases n - i,
        {
            let e = self._player_interactions[i];
            proof {
                let t = is.subrange(0, i + 1);
                assert(t.drop_last() =~= is.subrange(0, i as int));
                assert(t.last() == e);
                reveal(Seq::filter);
            }
            if !contains_id(gone, e.1) {
                kept.push(e);
            }
            i = i + 1;
        }
        proof {
            assert(is.subrange(0, n as int) =~= is);
        }
        self._player_interactions = kept;
    }

    /// Takes the character at `index` out of the scene, with the player's
    /// interactions with it, and gives it back as it leaves: its animations
    /// asked to stop and its stats hidden.
    pub fn remove_character(&mut self, index: usize) -> (r: Character)
        requires
            old(self).wf(),
            index < old(self)._characters@.len(),
        ensures
            final(self).wf(),
            r == destroyed(old(self)._characters@[index as int]),
            final(self)._characters@ == old(self)._characters@.remove(index as int),
            forall|j: int|
                0 <= j < final(self)._characters@.len() ==> (#[trigger] final(self)._characters@[j])._character_id
                    != old(self)._characters@[index as int]._character_id,
            final(self)._player_interactions@ == without_ids(
                old(self)._player_interactions@,
                seq![old(self)._characters@[index as int]._character_id],
            ),
            forall|j: int|
                0 <= j < final(self)._player_interactions@.len() ==> (#[trigger] final(self)._player_interactions@[j]).1
                    != old(self)._characters@[index as int]._character_id,
    {
        let c = self._characters.remove(index);
        proof {
            assert forall|i: int| 0 <= i < self._characters@.len() implies (#[trigger] self._characters@[i]).wf() by {
                if i < index {
                    assert(self._characters@[i] == old(self)._characters@[i]);
                } else {
                    assert(self._characters@[i] == old(self)._characters@[i + 1]);
                }
            }
            assert forall|i: int| 0 <= i < self._characters@.len() implies (#[trigger] self._characters@[i])._character_id
                != c._character_id by {
                if i < index {
                    assert(apart(old(self)._characters@[i], old(self)._characters@[index as int]));
                } else {
                    assert(apart(old(self)._characters@[i + 1], old(self)._characters@[index as int]));
                }
            }
            let f = self._characters@;
            let o = old(self)._characters@;
            assert forall|a: int, b: int|
                #![trigger f[a], f[b]]
                0 <= a < f.len() && 0 <= b < f.len() && a != b implies apart(f[a], f[b]) by {
                let a1 = if a < index { a } else { a + 1 };
                let b1 = if b < index { b } else { b + 1 };
                assert(f[a] == o[a1]);
                assert(f[b] == o[b1]);
                assert(apart(o[a1], o[b1]));
            }
        }
        let gone = vec![c._character_id];
        assert(gone@ =~= seq![old(self)._characters@[index as int]._character_id]);
        self.drop_interactions_with(&gone);
        proof {
            let f = self._player_interactions@;
            let keep = |e: (InteractionKind, u64)| !gone@.contains(e.1);
            assert forall|j: int| 0 <= j < f.len() implies (#[trigger] f[j]).1 != c._character_id by {
                old(self)._player_interactions@.lemma_filter_pred(keep, j);
                assert(gone@[0] == c._character_id);
            }
        }
        let mut d = c;
        d._animation_state.stop_animations();
        d._character_stats._is_stat_displayed = false;
        d
    }

    /// Takes every character whose mark is set out of the scene at once,
    /// keeping the order of the others, with the player's interactions
    /// with them.
    pub fn remove_characters(&mut self, marked: &Vec<bool>)
        requires
            old(self).wf(),
            marked@.len() == old(self)._characters@.len(),
        ensures
            final(self).wf(),
            final(self)._characters@ == unmarked(old(self)._characters@, marked@, marked@.len() as int),
            final(self)._player_interactions@ == without_ids(
                old(self)._player_interactions@,
                marked_ids(old(self)._characters@, marked@, marked@.len() as int),
            ),
            forall|j: int, k: int|
                #![trigger final(self)._characters@[j], old(self)._characters@[k]]
                0 <= j < final(self)._characters@.len() && 0 <= k < old(self)._characters@.len() && marked@[k]
                    ==> final(self)._characters@[j]._character_id != old(self)._characters@[k]._character_id,
    {
        let ghost cs = self._characters@;
        let ghost mut idx: Seq<int> = Seq::empty();
        let mut kept: Vec<Character> = Vec::new();
        let mut gone: Vec<u64> = Vec::new();
        let n = self._characters.len();
        let mut i: usize = 0;
        while i < n
            invariant
                n == cs.len(),
                n == marked@.len(),
                self._characters@ == cs,
                self._player_interactions == old(self)._player_interactions,
                i <= n,
                forall|j: int| 0 <= j < n ==> (#[trigger] cs[j]).wf(),
                kept@ == unmarked(cs, marked@, i as int),
                gone@ == marked_ids(cs, marked@, i as int),
                forall|j: int| 0 <= j < kept@.len() ==> (#[trigger] kept@[j]).wf(),
                scene_wf(cs),
                idx.len() == kept@.len(),
                forall|a: int|
                    0 <= a < idx.len() ==> 0 <= #[trigger] idx[a] < i && !marked@[idx[a]] && kept@[a] == cs[idx[a]],
                forall|a: int, b: int| 0 <= a < b < idx.len() ==> #[trigger] idx[a] < #[trigger] idx[b],
            decreases n - i,
        {
            if marked[i] {
                gone.push(self._characters[i]._character_id);
            } else {
                kept.push(self._characters[i]);
                proof {
                    idx = idx.push(i as int);
                }
            }
            proof {
                assert(kept@ =~= unmarked(cs, marked@, i + 1));
                assert(gone@ =~= marked_ids(cs, marked@, i + 1));
            }
            i = i + 1;
        }
        proof {
            lemma_picked_apart(cs, kept@, idx);
            assert forall|j: int, k: int|
                #![trigger kept@[j], cs[k]]
                0 <= j < kept@.len() && 0 <= k < cs.len() && marked@[k] implies kept@[j]._character_id
                != cs[k]._character_id by {
                assert(kept@[j] == cs[idx[j]]);
                assert(apart(cs[idx[j]], cs[k]));
            }
        }
        self._characters = kept;
        self.drop_interactions_with(&gone);
    }

    /// Takes every character but the player out of the scene, and the
    /// player too when `clear_player` is set, with the player's
    /// interactions with them.
    pub fn clear_characters(&mut self, clear_player: bool)
        requires
            old(self).wf(),
        ensures
            final(self).wf(),
            final(self)._characters@ == old(self)._characters@.filter(stays_on_clear(clear_player)),
            final(self)._player_interactions@ == without_ids(
                old(self)._player_interactions@,
                marked_ids(
                    old(self)._characters@,
                    clear_marks(old(self)._characters@, clear_player),
                    old(self)._characters@.len() as int,
                ),
            ),
    {
        let ghost cs = self._characters@;
        let ghost mut idx: Seq<int> = Seq::empty();
        let ghost keep = stays_on_clear(clear_player);
        let ghost marks = clear_marks(cs, clear_player);
        let mut kept: Vec<Character> = Vec::new();
        let mut gone: Vec<u64> = Vec::new();
        let n = self._characters.len();
        let mut i: usize = 0;
        while i < n
            invariant
                n == cs.len(),
                self._characters@ == cs,
                self._player_interactions == old(self)._player_interactions,
                i <= n,
                keep == stays_on_clear(clear_player),
                marks == clear_marks(cs, clear_player),
                forall|j: int| 0 <= j < n ==> (#[trigger] cs[j]).wf(),
                kept@ == cs.subrange(0, i as int).filter(keep),
                gone@ == marked_ids(cs, marks, i as int),
                forall|j: int| 0 <= j < kept@.len() ==> (#[trigger] kept@[j]).wf(),
                scene_wf(cs),
                idx.len() == kept@.len(),
                forall|a: int| 0 <= a < idx.len() ==> 0 <= #[trigger] idx[a] < i && kept@[a] == cs[idx[a]],
                forall|a: int, b: int| 0 <= a < b < idx.len() ==> #[trigger] idx[a] < #[trigger] idx[b],
            decreases n - i,
        {
            let c = self._characters[i];
            proof {
                let s = cs.subrange(0, i + 1);
                assert(s.drop_last() =~= cs.subrange(0, i as int));
                assert(s.last() == c);
                reveal(Seq::filter);
                assert(marks[i as int] == !keep(c));
            }
            if !clear_player && c._is_player {
                kept.push(c);
                proof {
                    idx = idx.push(i as int);
                }
            } else {
                gone.push(c._character_id);
            }
            proof {
                assert(gone@ =~= marked_ids(cs, marks, i + 1));
            }
            i = i + 1;
        }
        proof {
            assert(cs.subrange(0, n as int) =~= cs);
            lemma_picked_apart(cs, kept@, idx);
        }
        self._characters = kept;
        self.drop_interactions_with(&gone);
    }

    /// Farms the corpse at `index`: it leaves the scene, the player has no
    /// interaction with it any more, and what it leaves behind, as item
    /// names, comes back in the order it drops.
    pub fn farm_character(&mut self, index: usize) -> (r: Vec<&'static str>)
        requires
            old(self).wf(),
            index < old(self)._characters@.len(),
        ensures
            final(self).wf(),
            final(self)._characters@ == old(self)._characters@.remove(index as int),
            forall|j: int|
                0 <= j < final(self)._characters@.len() ==> (#[trigger] final(self)._characters@[j])._character_id
                    != old(self)._characters@[index as int]._character_id,
            final(self)._player_interactions@ == without_ids(
                old(self)._player_interactions@,
                seq![old(self)._characters@[index as int]._character_id],
            ),
            forall|j: int|
                0 <= j < final(self)._player_interactions@.len() ==> (#[trigger] final(self)._player_interactions@[j]).1
                    != old(self)._characters@[index as int]._character_id,
            r@ == farm_drops(),
    {
        let mut r: Vec<&'static str> = Vec::new();
        r.push(ITEM_SPIRIT_BALL);
        let mut k: usize = 0;
        while k < FARM_MEAT_COUNT
            invariant
                k <= FARM_MEAT_COUNT,
                r@ == seq![ITEM_SPIRIT_BALL] + Seq::new(k as nat, |i: int| ITEM_MEAT),
            decreases FARM_MEAT_COUNT - k,
        {
            r.push(ITEM_MEAT);
            k = k + 1;
            proof {
                assert(r@ =~= seq![ITEM_SPIRIT_BALL] + Seq::new(k as nat, |i: int| ITEM_MEAT));
            }
        }
        self.remove_character(index);
        r
    }
}


/// Characters picked from a scene in the order they stand are as far apart
/// as the scene's.
proof fn lemma_picked_apart(cs: Seq<Character>, picked: Seq<Character>, idx: Seq<int>)
    requires
        scene_wf(cs),
        idx.len() == picked.len(),
        forall|a: int| 0 <= a < idx.len() ==> 0 <= #[trigger] idx[a] < cs.len() && picked[a] == cs[idx[a]],
        forall|a: int, b: int| 0 <= a < b < idx.len() ==> #[trigger] idx[a] < #[trigger] idx[b],
    ensures
        scene_wf(picked),
{
    assert forall|a: int, b: int|
        #![trigger picked[a], picked[b]]
        0 <= a < picked.len() && 0 <= b < picked.len() && a != b implies apart(picked[a], picked[b]) by {
        if a < b {
            assert(idx[a] < idx[b]);
        } else {
            assert(idx[b] < idx[a]);
        }
        assert(apart(cs[idx[a]], cs[idx[b]]));
    }
    assert forall|a: int| 0 <= a < picked.len() implies (#[trigger] picked[a]).wf() by {
        assert(cs[idx[a]].wf());
    }
}

/// Clearing the scene but for the player leaves the player as alive as it
/// was.
pub proof fn lemma_clear_keeps_player_alive(cs: Seq<Character>)
    ensures
        player_alive(cs.filter(stays_on_clear(false))) == player_alive(cs),
{
    let keep = stays_on_clear(false);
    let f = cs.filter(keep);
    broadcast use Seq::lemma_filter_pred, Seq::lemma_filter_contains;
    if player_alive(cs) {
        let i = choose|i: int| 0 <= i < cs.len() && #[trigger] cs[i]._is_player && cs[i]._character_stats._is_alive;
        assert(keep(cs[i]));
        assert(f.contains(cs[i]));
        let j = choose|j: int| 0 <= j < f.len() && f[j] == cs[i];
        assert(f[j]._is_player);
    }
    if player_alive(f) {
        let j = choose|j: int| 0 <= j < f.len() && #[trigger] f[j]._is_player && f[j]._character_stats._is_alive;
        cs.lemma_filter_contains_rev(keep, f[j]);
    }
}


/// Whom a monster hunts: tamed monsters hunt living wild monsters, wild
/// monsters hunt living tamed ones.
#[derive(Clone, Copy, Debug, PartialEq, Eq, Structural)]
pub enum PreyKind {
    Wild,
    Tamed,
}

pub open spec fn is_prey(kind: PreyKind, c: Character) -> bool {
    match kind {
        PreyKind::Wild => !c._is_player && !c._character_stats._is_tamed && c._character_stats._is_alive,
        PreyKind::Tamed => c._character_stats._is_tamed && c._character_stats._is_alive,
    }
}

/// The prey at `j` is within tracking range and nearer than `bound`, if
/// any bound is given. Distances are keys that order as the distances do.
pub open spec fn prey_within(
    kind: PreyKind,
    cs: Seq<Character>,
    keys: Seq<u32>,
    range: u32,
    bound: Option<u32>,
    j: int,
) -> bool {
    &&& 0 <= j < cs.len()
    &&& is_prey(kind, cs[j])
    &&& keys[j] <= range
    &&& (bound matches Some(b) ==> keys[j] < b)
}

/// `j` is the nearest prey within range and nearer than `bound`: no prey in
/// range is nearer, and none before it is as near.
pub open spec fn nearest_prey(
    kind: PreyKind,
    cs: Seq<Character>,
    keys: Seq<u32>,
    range: u32,
    bound: Option<u32>,
    j: int,
) -> bool {
    &&& prey_within(kind, cs, keys, range, bound, j)
    &&& forall|k: int| prey_within(kind, cs, keys, range, None, k) ==> keys[j] <= #[trigger] keys[k]
    &&& forall|k: int| 0 <= k < j && prey_within(kind, cs, keys, range, None, k) ==> keys[j] < #[trigger] keys[k]
}

pub open spec fn has_prey(kind: PreyKind, cs: Seq<Character>, keys: Seq<u32>, range: u32, bound: Option<u32>) -> bool {
    exists|j: int| prey_within(kind, cs, keys, range, bound, j)
}

/// The nearest prey when there is one, and `fallback` otherwise.
pub open spec fn hunted(
    kind: PreyKind,
    cs: Seq<Character>,
    keys: Seq<u32>,
    range: u32,
    bound: Option<u32>,
    fallback: Option<usize>,
    r: Option<usize>,
) -> bool {
    if has_prey(kind, cs, keys, range, bound) {
        r matches Some(j) && nearest_prey(kind, cs, keys, range, bound, j as int)
    } else {
        r == fallback
    }
}

/// Whom the character at `who` goes after, with `keys[i]` the distance
/// from it to the character at `i` and `range` its tracking range. The
/// player goes after nobody. A tamed monster goes after the nearest living
/// wild monster in range, else after the player when it follows the
/// player. A wild monster that follows the player goes after the player;
/// any other goes after the nearest of the player, while the player lives
/// and is in range, and the living tamed monsters in range, the player
/// winning ties.
pub open spec fn ai_target(
    cs: Seq<Character>,
    who: int,
    player: usize,
    following: bool,
    keys: Seq<u32>,
    range: u32,
    r: Option<usize>,
) -> bool {
    let c = cs[who];
    if c._is_player {
        r is None
    } else if c._character_stats._is_tamed {
        hunted(PreyKind::Wild, cs, keys, range, None, if following { Some(player) } else { None }, r)
    } else if following {
        r == Some(player)
    } else {
        let p = cs[player as int];
        let player_tracked = p._character_stats._is_alive && keys[player as int] <= range;
        hunted(
            PreyKind::Tamed,
            cs,
            keys,
            range,
            if player_tracked { Some(keys[player as int]) } else { None },
            if player_tracked { Some(player) } else { None },
            r,
        )
    }
}

/// Finds the nearest prey in range that is nearer than `bound`.
fn find_nearest_prey(kind: PreyKind, cs: &Vec<Character>, keys: &Vec<u32>, range: u32, bound: Option<u32>) -> (r: Option<
    usize,
>)
    requires
        keys@.len() == cs@.len(),
    ensures
        match r {
            Some(j) => nearest_prey(kind, cs@, keys@, range, bound, j as int),
            None => !has_prey(kind, cs@, keys@, range, bound),
        },
{
    let mut best: Option<usize> = None;
    let mut best_key: Option<u32> = bound;
    let n = cs.len();
    let mut i: usize = 0;
    while i < n
        invariant
            n == cs@.len(),
            n == keys@.len(),
            i <= n,
            match best {
                Some(j) => {
                    &&& j < i
                    &&& best_key == Some(keys@[j as int])
                    &&& prey_within(kind, cs@, keys@, range, bound, j as int)
                    &&& forall|k: int| 0 <= k < i && prey_within(kind, cs@, keys@, range, None, k) ==> keys@[j as int] <= #[trigger] keys@[k]
                    &&& forall|k: int| 0 <= k < j && prey_within(kind, cs@, keys@, range, None, k) ==> keys@[j as int] < #[trigger] keys@[k]
                },
                None => {
                    &&& best_key == bound
                    &&& forall|k: int| 0 <= k < i ==> !#[trigger] prey_within(kind, cs@, keys@, range, bound, k)
                },
            },
        decreases n - i,
    {
        let c = cs[i];
        let prey = match kind {
            PreyKind::Wild => !c._is_player && !c._character_stats._is_tamed && c._character_stats._is_alive,
            PreyKind::Tamed => c._character_stats._is_tamed && c._character_stats._is_alive,
        };
        let nearer = match best_key {
            Some(b) => keys[i] < b,
            None => true,
        };
        if prey && keys[i] <= range && nearer {
            proof {
                if let Some(j) = best {
                    assert forall|k: int| 0 <= k < i + 1 && prey_within(kind, cs@, keys@, range, None, k) implies keys@[i as int] <= #[trigger] keys@[k] by {
                        if k < i {
                            assert(keys@[j as int] <= keys@[k]);
                        }
                    }
                } else {
                    assert forall|k: int| 0 <= k < i + 1 && prey_within(kind, cs@, keys@, range, None, k) implies keys@[i as int] <= #[trigger] keys@[k] by {
                        if k < i {
                            if !(keys@[i as int] <= keys@[k]) {
                                assert(prey_within(kind, cs@, keys@, range, bound, k));
                            }
                        }
                    }
                    assert forall|k: int| 0 <= k < i && prey_within(kind, cs@, keys@, range, None, k) implies keys@[i as int] < #[trigger] keys@[k] by {
                        if !(keys@[i as int] < keys@[k]) {
                            assert(prey_within(kind, cs@, keys@, range, bound, k));
                        }
                    }
                }
            }
            best = Some(i);
            best_key = Some(keys[i]);
        }
        i = i + 1;
    }
    proof {
        if let Some(j) = best {
            assert forall|k: int| prey_within(kind, cs@, keys@, range, None, k) implies keys@[j as int] <= #[trigger] keys@[k] by {
                assert(0 <= k < n);
            }
        } else {
            assert forall|k: int| !prey_within(kind, cs@, keys@, range, bound, k) by {
                if 0 <= k < n {
                    assert(!prey_within(kind, cs@, keys@, range, bound, k));
                }
            }
        }
    }
    best
}

impl CharacterManager {
    /// Whom the character at `who` goes after, as `ai_target` states, with
    /// `keys[i]` the distance from it to the character at `i`, `range` its
    /// tracking range, `player` where the player stands, and `following`
    /// whether it follows the player.
    pub fn choose_ai_target(&self, who: usize, player: usize, following: bool, keys: &Vec<u32>, range: u32) -> (r:
        Option<usize>)
        requires
            who < self._characters@.len(),
            player < self._characters@.len(),
            keys@.len() == self._characters@.len(),
        ensures
            ai_target(self._characters@, who as int, player, following, keys@, range, r),
    {
        let c = self._characters[who];
        if c._is_player {
            None
        } else if c._character_stats._is_tamed {
            match find_nearest_prey(PreyKind::Wild, &self._characters, keys, range, None) {
                Some(j) => Some(j),
                None => if following {
                    Some(player)
                } else {
                    None
                },
            }
        } else if following {
            Some(player)
        } else {
            let p = self._characters[player];
            let player_tracked = p._character_stats._is_alive && keys[player] <= range;
            let bound = if player_tracked {
                Some(keys[player])
            } else {
                None
            };
            match find_nearest_prey(PreyKind::Tamed, &self._characters, keys, range, bound) {
                Some(j) => Some(j),
                None => if player_tracked {
                    Some(player)
                } else {
                    None
                },
            }
        }
    }
}

/// No character goes after itself.
pub proof fn lemma_ai_target_not_self(
    cs: Seq<Character>,
    who: int,
    player: usize,
    following: bool,
    keys: Seq<u32>,
    range: u32,
    r: Option<usize>,
)
    requires
        0 <= who < cs.len(),
        player < cs.len(),
        cs[player as int]._is_player,
        ai_target(cs, who, player, following, keys, range, r),
    ensures
        r matches Some(j) ==> j as int != who,
{
}

/// A monster goes after the player or a monster of the other side, and
/// never after one of its own side.
pub proof fn lemma_ai_target_other_side(
    cs: Seq<Character>,
    who: int,
    player: usize,
    following: bool,
    keys: Seq<u32>,
    range: u32,
    j: usize,
)
    requires
        0 <= who < cs.len(),
        player < cs.len(),
        cs[player as int]._is_player,
        ai_target(cs, who, player, following, keys, range, Some(j)),
    ensures
        j == player || cs[who]._character_stats._is_tamed != cs[j as int]._character_stats._is_tamed,
{
}

} // verus!
