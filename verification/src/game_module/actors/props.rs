use vstd::prelude::*;
use crate::game_module::actors::interaction_object::InteractionKind;

verus! {

/// The kinds of prop standing in the world.
#[derive(Clone, Copy, Debug, PartialEq, Eq, Structural)]
pub enum PropDataType {
    Nothing,
    Bed,
    Ceiling,
    Destruction,
    Harvestable,
    Gate,
    Pickup,
    Monolith,
}

/// The data a prop is made from: its kind, looks, name, health, and the
/// item it drops with how many of them.
pub struct PropData {
    pub _prop_type: PropDataType,
    pub _model_data_name: String,
    pub _name: String,
    pub _max_hp: i32,
    pub _item_data_name: String,
    pub _item_drop_count_max: i32,
    pub _item_drop_count_min: i32,
}

impl Default for PropData {
    fn default() -> (r: Self)
        ensures
            r._prop_type == PropDataType::Nothing,
            r._model_data_name@ == Seq::<char>::empty(),
            r._name@ == Seq::<char>::empty(),
            r._max_hp == 0,
            r._item_data_name@ == Seq::<char>::empty(),
            r._item_drop_count_max == 1,
            r._item_drop_count_min == 1,
    {
        PropData {
            _prop_type: PropDataType::Nothing,
            _model_data_name: String::new(),
            _name: String::new(),
            _max_hp: 0,
            _item_data_name: String::new(),
            _item_drop_count_max: 1,
            _item_drop_count_min: 1,
        }
    }
}

/// Calls `rand::random_range` on the inclusive range `low..=high`. The
/// number is drawn by chance from the thread's generator, so nothing but
/// its range is claimed: it lies between `low` and `high`. The call panics
/// on an empty range, which `requires` rules out.
#[verifier::external_body]
fn random_range_inclusive(low: i32, high: i32) -> (r: i32)
    requires
        low <= high,
    ensures
        low <= r <= high,
{
    rand::random_range(low..=high)
}

impl PropData {
    /// A number of items to drop, drawn between the data's least and most.
    pub fn get_item_drop_count(&self) -> (r: i32)
        requires
            self._item_drop_count_min <= self._item_drop_count_max,
        ensures
            self._item_drop_count_min <= r <= self._item_drop_count_max,
    {
        random_range_inclusive(self._item_drop_count_min, self._item_drop_count_max)
    }
}

/// The state of a prop: whether it stands, its health, the items it holds
/// and can hold, and whether the player is near.
#[derive(Clone, Copy, Debug, PartialEq, Eq, Structural)]
pub struct PropStats {
    pub _is_alive: bool,
    pub _prop_hp: i32,
    pub _item_count_max: i32,
    pub _item_count: i32,
    pub _is_in_player_range: bool,
}

/// A prop of a scene.
pub struct Prop {
    pub _prop_name: String,
    pub _prop_id: u64,
    pub _prop_type: PropDataType,
    pub _prop_stats: PropStats,
    /// How many item models the prop shows.
    pub _item_slot_count: usize,
}

/// The stats of a new prop holding the given number of items: standing,
/// at full health, full of items, the player not near.
pub open spec fn new_prop_stats(max_hp: i32, item_count: i32) -> PropStats {
    PropStats {
        _is_alive: true,
        _prop_hp: max_hp,
        _item_count_max: item_count,
        _item_count: item_count,
        _is_in_player_range: false,
    }
}

/// The prop's stats after a hit: harvestable props take no damage; the
/// others lose health and fall when none is left.
pub open spec fn hit_stats(t: PropDataType, s: PropStats, damage: i32) -> PropStats {
    if t == PropDataType::Harvestable {
        s
    } else {
        let hp = s._prop_hp - damage;
        PropStats { _prop_hp: hp as i32, _is_alive: if hp <= 0 { false } else { s._is_alive }, ..s }
    }
}

/// Dropping items: as many as asked, at most all the prop holds. The
/// result is the number dropped and the slot of the first one.
pub open spec fn dropped(s: PropStats, drop_count: i32) -> (PropStats, (i32, i32)) {
    if s._item_count <= drop_count {
        (PropStats { _item_count: 0, ..s }, (s._item_count, 0))
    } else {
        let left = (s._item_count - drop_count) as i32;
        (PropStats { _item_count: left, ..s }, (drop_count, left))
    }
}

/// A prop shows the item models of the items it holds; a negative count
/// shows them all.
pub open spec fn item_visible(item_count: i32, slot: int) -> bool {
    item_count < 0 || slot < item_count
}

/// What a prop's regeneration did in one update.
#[derive(Clone, Copy, Debug, PartialEq, Eq, Structural)]
pub enum RegenerateStep {
    /// Nothing to regenerate.
    Idle,
    /// An item grew back; the regeneration time starts over.
    Generated,
    /// Waiting: the regeneration time goes on.
    Waiting,
}

impl Prop {
    /// A new prop with the given number of items.
    pub fn create_prop_with_item_count(
        prop_id: u64,
        prop_name: &str,
        prop_type: PropDataType,
        max_hp: i32,
        item_count: i32,
        item_slot_count: usize,
    ) -> (r: Prop)
        ensures
            r._prop_id == prop_id,
            r._prop_name@ == prop_name@,
            r._prop_type == prop_type,
            r._prop_stats == new_prop_stats(max_hp, item_count),
            r._item_slot_count == item_slot_count,
    {
        let mut prop = Prop {
            _prop_name: prop_name.to_owned(),
            _prop_id: prop_id,
            _prop_type: prop_type,
            _prop_stats: PropStats {
                _is_alive: false,
                _prop_hp: max_hp,
                _item_count_max: item_count,
                _item_count: item_count,
                _is_in_player_range: false,
            },
            _item_slot_count: item_slot_count,
        };
        prop.initialize_prop();
        prop
    }

    /// A new prop made from its data, holding a number of items drawn
    /// between the data's least and most.
    pub fn create_prop(prop_id: u64, prop_name: &str, prop_data: &PropData, item_slot_count: usize) -> (r: Prop)
        requires
            prop_data._item_drop_count_min <= prop_data._item_drop_count_max,
        ensures
            r._prop_id == prop_id,
            r._prop_name@ == prop_name@,
            r._prop_type == prop_data._prop_type,
            r._prop_stats._is_alive,
            r._prop_stats._prop_hp == prop_data._max_hp,
            r._prop_stats._item_count == r._prop_stats._item_count_max,
            prop_data._item_drop_count_min <= r._prop_stats._item_count <= prop_data._item_drop_count_max,
            !r._prop_stats._is_in_player_range,
            r._item_slot_count == item_slot_count,
    {
        let item_count = prop_data.get_item_drop_count();
        Prop::create_prop_with_item_count(
            prop_id,
            prop_name,
            prop_data._prop_type,
            prop_data._max_hp,
            item_count,
            item_slot_count,
        )
    }

    /// Ceilings and gates let characters through.
    pub fn has_collision(&self) -> (r: bool)
        ensures
            r == !(self._prop_type == PropDataType::Ceiling || self._prop_type == PropDataType::Gate),
    {
        !(self._prop_type == PropDataType::Ceiling || self._prop_type == PropDataType::Gate)
    }

    pub fn initialize_prop(&mut self)
        ensures
            final(self)._prop_stats == (PropStats { _is_alive: true, ..old(self)._prop_stats }),
            final(self)._prop_id == old(self)._prop_id,
            final(self)._prop_name == old(self)._prop_name,
            final(self)._prop_type == old(self)._prop_type,
            final(self)._item_slot_count == old(self)._item_slot_count,
    {
        self._prop_stats._is_alive = true;
    }

    pub fn get_prop_id(&self) -> (r: u64)
        ensures
            r == self._prop_id,
    {
        self._prop_id
    }

    /// Whether the prop holds an item to drop.
    pub fn can_drop_item(&self) -> (r: bool)
        ensures
            r == (0 < self._prop_stats._item_count),
    {
        0 < self._prop_stats._item_count
    }

    pub fn is_alive(&self) -> (r: bool)
        ensures
            r == self._prop_stats._is_alive,
    {
        self._prop_stats._is_alive
    }

    pub fn set_dead(&mut self)
        ensures
            final(self)._prop_stats == (PropStats { _is_alive: false, ..old(self)._prop_stats }),
            final(self)._prop_id == old(self)._prop_id,
            final(self)._prop_name == old(self)._prop_name,
            final(self)._prop_type == old(self)._prop_type,
            final(self)._item_slot_count == old(self)._item_slot_count,
    {
        self._prop_stats._is_alive = false;
    }

    /// Takes a hit; the caller shows its effect and sound in every case.
    pub fn set_hit_damage(&mut self, damage: i32)
        requires
            i32::MIN <= old(self)._prop_stats._prop_hp - damage <= i32::MAX,
        ensures
            final(self)._prop_stats == hit_stats(old(self)._prop_type, old(self)._prop_stats, damage),
            final(self)._prop_id == old(self)._prop_id,
            final(self)._prop_name == old(self)._prop_name,
            final(self)._prop_type == old(self)._prop_type,
            final(self)._item_slot_count == old(self)._item_slot_count,
    {
        if self._prop_type != PropDataType::Harvestable {
            self._prop_stats._prop_hp = self._prop_stats._prop_hp - damage;
            if self._prop_stats._prop_hp <= 0 {
                self.set_dead();
            }
        }
    }

    /// One update of a harvestable prop's items: one grows back once the
    /// regeneration time is reached, until the prop is full again.
    pub fn update_generate_item(&mut self, regenerate_time_reached: bool) -> (r: RegenerateStep)
        requires
            old(self)._prop_stats._item_count < i32::MAX,
        ensures
            r == (if old(self)._prop_type == PropDataType::Harvestable && old(self)._prop_stats._item_count
                < old(self)._prop_stats._item_count_max {
                if regenerate_time_reached {
                    RegenerateStep::Generated
                } else {
                    RegenerateStep::Waiting
                }
            } else {
                RegenerateStep::Idle
            }),
            final(self)._prop_stats == (if r == RegenerateStep::Generated {
                PropStats { _item_count: (old(self)._prop_stats._item_count + 1) as i32, ..old(self)._prop_stats }
            } else {
                old(self)._prop_stats
            }),
            final(self)._prop_type == old(self)._prop_type,
            final(self)._item_slot_count == old(self)._item_slot_count,
    {
        if self._prop_type == PropDataType::Harvestable && self._prop_stats._item_count
            < self._prop_stats._item_count_max {
            if regenerate_time_reached {
                self._prop_stats._item_count = self._prop_stats._item_count + 1;
                RegenerateStep::Generated
            } else {
                RegenerateStep::Waiting
            }
        } else {
            RegenerateStep::Idle
        }
    }

    /// Drops items, as `dropped` states it: the number dropped and the slot
    /// of the first one.
    pub fn drop_items(&mut self, drop_count: i32) -> (r: (i32, i32))
        requires
            i32::MIN <= old(self)._prop_stats._item_count - drop_count <= i32::MAX,
        ensures
            (final(self)._prop_stats, r) == dropped(old(self)._prop_stats, drop_count),
            final(self)._prop_type == old(self)._prop_type,
            final(self)._item_slot_count == old(self)._item_slot_count,
            final(self)._prop_id == old(self)._prop_id,
    {
        if self._prop_stats._item_count <= drop_count {
            let n = self._prop_stats._item_count;
            self._prop_stats._item_count = 0;
            (n, 0)
        } else {
            self._prop_stats._item_count = self._prop_stats._item_count - drop_count;
            (drop_count, self._prop_stats._item_count)
        }
    }

    /// Which item models the prop shows, slot by slot.
    pub fn update_item_visible(&self) -> (r: Vec<bool>)
        ensures
            r@.len() == self._item_slot_count,
            forall|i: int| 0 <= i < r@.len() ==> r@[i] == item_visible(self._prop_stats._item_count, i),
    {
        let mut r: Vec<bool> = Vec::new();
        let count = self._prop_stats._item_count;
        let mut i: usize = 0;
        while i < self._item_slot_count
            invariant
                i <= self._item_slot_count,
                r@.len() == i,
                count == self._prop_stats._item_count,
                forall|j: int| 0 <= j < i ==> r@[j] == item_visible(count, j),
            decreases self._item_slot_count - i,
        {
            let visible = count < 0 || (i as u64) < (count as u64);
            r.push(visible);
            i = i + 1;
        }
        r
    }
}

/// What the world tells a prop's update about the living player.
#[derive(Clone, Copy, Debug, PartialEq, Eq, Structural)]
pub struct PropObservation {
    /// The player is near, as the prop's kind measures it: touching a bed
    /// or a pickup, within reach and facing a destructible, harvestable or
    /// monolith, inside a gate.
    pub in_range: bool,
    /// The player stands inside a ceiling.
    pub player_inside: bool,
    /// The player's list of interactions holds this prop.
    pub is_interaction_object: bool,
    /// The player lands an attack in this update, of this power.
    pub attack_event: bool,
    pub attack_power: i32,
    pub enter_gate_event: bool,
    /// This prop names a stage and a gate to lead to.
    pub has_linked_gate: bool,
    pub pickup_event: bool,
    /// The items of a pickup went into the inventory.
    pub pickup_succeeded: bool,
    pub open_toolbox_event: bool,
}

/// The work a prop's update asks of the world.
#[derive(Clone, Copy, Debug, PartialEq, Eq, Structural)]
pub enum PropCommand {
    AddInteraction(InteractionKind),
    RemoveInteraction(InteractionKind),
    /// Show a hit's effect and play its sound.
    ShowHitEffect,
    /// Drop items into the world: how many, and the slot of the first.
    DropItems { count: i32, first_slot: i32 },
    /// The prop is gone from the scene.
    RemoveProp,
    /// Draw the ceiling or not.
    SetRenderCamera(bool),
    /// Lead the player through this prop to its linked stage.
    TeleportThroughGate,
    SetNeedToolboxMode,
}

/// The interaction of a kind of prop offered while the player is near.
pub open spec fn prop_interaction(t: PropDataType) -> InteractionKind {
    match t {
        PropDataType::Bed => InteractionKind::PropBed,
        PropDataType::Gate => InteractionKind::PropGate,
        PropDataType::Pickup => InteractionKind::PropPickup,
        PropDataType::Monolith => InteractionKind::PropMonolith,
        _ => InteractionKind::PropGathering,
    }
}

/// Offer the interaction while the player is near; withdraw it otherwise.
pub open spec fn offer(kind: InteractionKind, is_obj: bool, near: bool) -> Seq<PropCommand> {
    if !is_obj && near {
        seq![PropCommand::AddInteraction(kind)]
    } else if is_obj && !near {
        seq![PropCommand::RemoveInteraction(kind)]
    } else {
        Seq::empty()
    }
}

/// A prop's update while the player lives: it notes whether the player is
/// near, reacts to the player's action on it, and keeps the player's
/// interaction with it right. A destructible prop falls under attacks and
/// drops all its items; a harvestable prop drops one item per attack while
/// it has any; a gate leads on; a pickup goes to the inventory; a monolith
/// opens the toolbox. A prop of no kind is left as it is.
pub open spec fn prop_updated(p: PropStats, t: PropDataType, obs: PropObservation) -> (PropStats, Seq<PropCommand>) {
    let near = obs.in_range;
    let s = PropStats { _is_in_player_range: near, ..p };
    let is_obj = obs.is_interaction_object;
    match t {
        PropDataType::Bed | PropDataType::Gate | PropDataType::Monolith => {
            let act = if t == PropDataType::Gate && near && obs.enter_gate_event && obs.has_linked_gate {
                seq![PropCommand::TeleportThroughGate]
            } else if t == PropDataType::Monolith && near && obs.open_toolbox_event {
                seq![PropCommand::SetNeedToolboxMode]
            } else {
                Seq::empty()
            };
            (s, act + offer(prop_interaction(t), is_obj, near))
        },
        PropDataType::Ceiling => (p, seq![PropCommand::SetRenderCamera(!obs.player_inside)]),
        PropDataType::Destruction => {
            let (s1, hit) = if obs.attack_event && near {
                let s_hit = hit_stats(t, s, obs.attack_power);
                if !s_hit._is_alive {
                    let (s_drop, (n, first)) = dropped(s_hit, s_hit._item_count);
                    (
                        s_drop,
                        seq![
                            PropCommand::ShowHitEffect,
                            PropCommand::DropItems { count: n, first_slot: first },
                            PropCommand::RemoveProp,
                        ],
                    )
                } else {
                    (s_hit, seq![PropCommand::ShowHitEffect])
                }
            } else {
                (s, Seq::empty())
            };
            let offer_cmds = if !is_obj && near && s1._is_alive {
                seq![PropCommand::AddInteraction(InteractionKind::PropGathering)]
            } else if (is_obj && !near) || !s1._is_alive {
                seq![PropCommand::RemoveInteraction(InteractionKind::PropGathering)]
            } else {
                Seq::empty()
            };
            (s1, hit + offer_cmds)
        },
        PropDataType::Harvestable => {
            let can_drop = 0 < s._item_count;
            let (s1, hit) = if can_drop && obs.attack_event && near {
                let (s_drop, (n, first)) = dropped(s, 1);
                (s_drop, seq![PropCommand::ShowHitEffect, PropCommand::DropItems { count: n, first_slot: first }])
            } else {
                (s, Seq::empty())
            };
            let offer_cmds = if !is_obj && near && can_drop {
                seq![PropCommand::AddInteraction(InteractionKind::PropGathering)]
            } else if is_obj && (!near || !can_drop) {
                seq![PropCommand::RemoveInteraction(InteractionKind::PropGathering)]
            } else {
                Seq::empty()
            };
            (s1, hit + offer_cmds)
        },
        PropDataType::Pickup => {
            if near && obs.pickup_event {
                let (s_drop, (n, first)) = dropped(s, s._item_count);
                let picked = obs.pickup_succeeded;
                let s1 = if picked { PropStats { _is_in_player_range: false, ..s_drop } } else { s_drop };
                (
                    s1,
                    seq![PropCommand::DropItems { count: n, first_slot: first }] + (if picked {
                        seq![PropCommand::RemoveProp]
                    } else {
                        Seq::empty()
                    }) + offer(InteractionKind::PropPickup, is_obj, s1._is_in_player_range),
                )
            } else {
                (s, offer(InteractionKind::PropPickup, is_obj, near))
            }
        },
        PropDataType::Nothing => (p, Seq::empty()),
    }
}

impl Prop {
    /// One update of the prop while the player lives, as `prop_updated`
    /// states it.
    pub fn update_prop_interaction(&mut self, obs: &PropObservation) -> (r: Vec<PropCommand>)
        requires
            obs.attack_event && old(self)._prop_type == PropDataType::Destruction ==> i32::MIN <= old(
                self,
            )._prop_stats._prop_hp - obs.attack_power <= i32::MAX,
        ensures
            (final(self)._prop_stats, r@) == prop_updated(old(self)._prop_stats, old(self)._prop_type, *obs),
            final(self)._prop_type == old(self)._prop_type,
            final(self)._item_slot_count == old(self)._item_slot_count,
            final(self)._prop_id == old(self)._prop_id,
    {
        let mut r: Vec<PropCommand> = Vec::new();
        let t = self._prop_type;
        let near = obs.in_range;
        let is_obj = obs.is_interaction_object;
        match t {
            PropDataType::Ceiling => {
                r.push(PropCommand::SetRenderCamera(!obs.player_inside));
            },
            PropDataType::Destruction => {
                self._prop_stats._is_in_player_range = near;
                if obs.attack_event && near {
                    self.set_hit_damage(obs.attack_power);
                    r.push(PropCommand::ShowHitEffect);
                    if !self.is_alive() {
                        let all = self._prop_stats._item_count;
                        let (n, first) = self.drop_items(all);
                        r.push(PropCommand::DropItems { count: n, first_slot: first });
                        r.push(PropCommand::RemoveProp);
                    }
                }
                if !is_obj && near && self.is_alive() {
                    r.push(PropCommand::AddInteraction(InteractionKind::PropGathering));
                } else if (is_obj && !near) || !self.is_alive() {
                    r.push(PropCommand::RemoveInteraction(InteractionKind::PropGathering));
                }
            },
            PropDataType::Harvestable => {
                self._prop_stats._is_in_player_range = near;
                let can_drop = self.can_drop_item();
                if can_drop && obs.attack_event && near {
                    r.push(PropCommand::ShowHitEffect);
                    let (n, first) = self.drop_items(1);
                    r.push(PropCommand::DropItems { count: n, first_slot: first });
                }
                if !is_obj && near && can_drop {
                    r.push(PropCommand::AddInteraction(InteractionKind::PropGathering));
                } else if is_obj && (!near || !can_drop) {
                    r.push(PropCommand::RemoveInteraction(InteractionKind::PropGathering));
                }
            },
            PropDataType::Pickup => {
                self._prop_stats._is_in_player_range = near;
                if near && obs.pickup_event {
                    let all = self._prop_stats._item_count;
                    let (n, first) = self.drop_items(all);
                    r.push(PropCommand::DropItems { count: n, first_slot: first });
                    if obs.pickup_succeeded {
                        self._prop_stats._is_in_player_range = false;
                        r.push(PropCommand::RemoveProp);
                    }
                }
                let near_now = self._prop_stats._is_in_player_range;
                if !is_obj && near_now {
                    r.push(PropCommand::AddInteraction(InteractionKind::PropPickup));
                } else if is_obj && !near_now {
                    r.push(PropCommand::RemoveInteraction(InteractionKind::PropPickup));
                }
            },
            PropDataType::Nothing => {},
            _ => {
                self._prop_stats._is_in_player_range = near;
                let kind = match t {
                    PropDataType::Bed => InteractionKind::PropBed,
                    PropDataType::Gate => InteractionKind::PropGate,
                    _ => InteractionKind::PropMonolith,
                };
                if t == PropDataType::Gate && near && obs.enter_gate_event && obs.has_linked_gate {
                    r.push(PropCommand::TeleportThroughGate);
                } else if t == PropDataType::Monolith && near && obs.open_toolbox_event {
                    r.push(PropCommand::SetNeedToolboxMode);
                }
                if !is_obj && near {
                    r.push(PropCommand::AddInteraction(kind));
                } else if is_obj && !near {
                    r.push(PropCommand::RemoveInteraction(kind));
                }
            },
        }
        proof {
            assert(r@ =~= prop_updated(old(self)._prop_stats, old(self)._prop_type, *obs).1);
        }
        r
    }
}

/// A prop's update never makes items appear: the items it holds stay
/// between zero and what it held, and a prop that falls drops them all.
pub proof fn lemma_prop_update_items(p: PropStats, t: PropDataType, obs: PropObservation)
    requires
        0 <= p._item_count,
        t == PropDataType::Destruction && obs.attack_event && obs.in_range ==> i32::MIN <= p._prop_hp
            - obs.attack_power <= i32::MAX,
    ensures
        ({
            let (s, _) = prop_updated(p, t, obs);
            &&& 0 <= s._item_count <= p._item_count
            &&& p._is_alive && !s._is_alive ==> s._item_count == 0
            &&& s._item_count_max == p._item_count_max
        }),
{
}

/// Harvestable props take hits without harm.
pub proof fn lemma_harvestable_never_falls(p: PropStats, damage: i32)
    ensures
        hit_stats(PropDataType::Harvestable, p, damage) == p,
{
}


/// A destructible prop struck in reach loses the blow's power from its
/// health; when that leaves none it falls, drops every item it held and
/// leaves the world, and otherwise it only shows the hit.
pub proof fn lemma_destructible_prop_falls(p: PropStats, obs: PropObservation)
    requires
        obs.attack_event,
        obs.in_range,
        p._is_alive,
        0 <= p._item_count,
        i32::MIN <= p._prop_hp - obs.attack_power <= i32::MAX,
    ensures
        ({
            let (s, cmds) = prop_updated(p, PropDataType::Destruction, obs);
            &&& s._prop_hp == p._prop_hp - obs.attack_power
            &&& s._is_in_player_range
            &&& cmds[0] == PropCommand::ShowHitEffect
            &&& p._prop_hp - obs.attack_power <= 0 ==> !s._is_alive && s._item_count == 0 && cmds[1]
                == PropCommand::DropItems { count: p._item_count, first_slot: 0 } && cmds[2] == PropCommand::RemoveProp
            &&& p._prop_hp - obs.attack_power > 0 ==> s._is_alive && s._item_count == p._item_count
                && !cmds.contains(PropCommand::RemoveProp)
        }),
{
    let (s, cmds) = prop_updated(p, PropDataType::Destruction, obs);
    if p._prop_hp - obs.attack_power > 0 {
        if cmds.contains(PropCommand::RemoveProp) {
            let k = choose|k: int| 0 <= k < cmds.len() && cmds[k] == PropCommand::RemoveProp;
        }
    }
}

/// A harvestable prop struck in reach drops one of its items while it has
/// any; it never drops more, and never without an attack in reach.
pub proof fn lemma_harvest_one_at_a_time(p: PropStats, obs: PropObservation)
    requires
        0 <= p._item_count,
    ensures
        ({
            let (s, _) = prop_updated(p, PropDataType::Harvestable, obs);
            &&& obs.attack_event && obs.in_range && 0 < p._item_count ==> s._item_count == p._item_count - 1
            &&& !(obs.attack_event && obs.in_range) ==> s._item_count == p._item_count
            &&& s._prop_hp == p._prop_hp && s._is_alive == p._is_alive
        }),
{
}

/// Picking up a pickup in reach takes all it holds, and a successful pickup
/// takes the prop out of the world.
pub proof fn lemma_pickup_taken(p: PropStats, obs: PropObservation)
    requires
        obs.in_range,
        obs.pickup_event,
        0 <= p._item_count,
    ensures
        ({
            let (s, cmds) = prop_updated(p, PropDataType::Pickup, obs);
            &&& s._item_count == 0
            &&& cmds[0] == PropCommand::DropItems { count: p._item_count, first_slot: 0 }
            &&& obs.pickup_succeeded ==> cmds[1] == PropCommand::RemoveProp && !s._is_in_player_range
            &&& !obs.pickup_succeeded ==> !cmds.contains(PropCommand::RemoveProp)
        }),
{
    let (s, cmds) = prop_updated(p, PropDataType::Pickup, obs);
    if !obs.pickup_succeeded && cmds.contains(PropCommand::RemoveProp) {
        let k = choose|k: int| 0 <= k < cmds.len() && cmds[k] == PropCommand::RemoveProp;
    }
}

/// Walking through a gate in reach that leads somewhere teleports; opening
/// the monolith in reach asks for the toolbox.
pub proof fn lemma_gate_and_monolith(p: PropStats, obs: PropObservation)
    requires
        obs.in_range,
    ensures
        obs.enter_gate_event && obs.has_linked_gate ==> prop_updated(p, PropDataType::Gate, obs).1[0]
            == PropCommand::TeleportThroughGate,
        obs.open_toolbox_event ==> prop_updated(p, PropDataType::Monolith, obs).1[0] == PropCommand::SetNeedToolboxMode,
{
}

} // verus!
