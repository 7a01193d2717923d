use vstd::prelude::*;
use crate::game_module::save_data::tally::{
    contains_name, count_of, distinct_names, names, tally, tally_add, tally_get, tally_sum, tally_total,
};

verus! {

/// What the player has done over a whole game: counters, the maps visited,
/// and tallies by name of item kinds, monsters killed and other
/// activities.
pub struct PlayerRecords {
    pub _item_count: u32,
    pub _craft_count: u32,
    pub _death_count: u32,
    pub _taming_count: u32,
    pub _friend_count: u32,
    pub _visited_maps: Vec<String>,
    pub _item_type_counts: Vec<(String, u32)>,
    pub _monster_kill_counts: Vec<(String, u32)>,
    pub _energy_balls: u32,
    pub _spirit_balls: u32,
    pub _custom_activity_counts: Vec<(String, u32)>,
}

/// `a + b`, or the largest `u32` when the sum does not fit.
pub open spec fn saturating_sum(a: u32, b: u32) -> u32 {
    if a + b > u32::MAX {
        u32::MAX
    } else {
        (a + b) as u32
    }
}

impl PlayerRecords {
    /// Each map is recorded once and each tally names a thing once.
    pub open spec fn wf(&self) -> bool {
        &&& names(self._visited_maps@).no_duplicates()
        &&& distinct_names(self._item_type_counts@)
        &&& distinct_names(self._monster_kill_counts@)
        &&& distinct_names(self._custom_activity_counts@)
    }

    /// The maps visited.
    pub open spec fn visited_maps(&self) -> Set<Seq<char>> {
        names(self._visited_maps@).to_set()
    }

    pub open spec fn item_type_counts(&self) -> Map<Seq<char>, u32> {
        tally(self._item_type_counts@)
    }

    pub open spec fn monster_kill_counts(&self) -> Map<Seq<char>, u32> {
        tally(self._monster_kill_counts@)
    }

    pub open spec fn activity_counts(&self) -> Map<Seq<char>, u32> {
        tally(self._custom_activity_counts@)
    }

    /// The records of a new game: all counters zero, no map visited,
    /// nothing tallied.
    pub open spec fn is_empty_record(&self) -> bool {
        &&& self._item_count == 0
        &&& self._craft_count == 0
        &&& self._death_count == 0
        &&& self._taming_count == 0
        &&& self._friend_count == 0
        &&& self._energy_balls == 0
        &&& self._spirit_balls == 0
        &&& self._visited_maps@.len() == 0
        &&& self._item_type_counts@.len() == 0
        &&& self._monster_kill_counts@.len() == 0
        &&& self._custom_activity_counts@.len() == 0
    }

    /// The counters that are not tallies, in field order: items, crafts,
    /// deaths, tamings, friends, energy balls, spirit balls.
    pub open spec fn counters(&self) -> (u32, u32, u32, u32, u32, u32, u32) {
        (
            self._item_count,
            self._craft_count,
            self._death_count,
            self._taming_count,
            self._friend_count,
            self._energy_balls,
            self._spirit_balls,
        )
    }

    /// Everything but the custom activities is left as it was.
    pub open spec fn same_but_activities(&self, other: &PlayerRecords) -> bool {
        &&& self.counters() == other.counters()
        &&& self._visited_maps@ == other._visited_maps@
        &&& self._item_type_counts@ == other._item_type_counts@
        &&& self._monster_kill_counts@ == other._monster_kill_counts@
    }

    /// Everything but the counters is left as it was.
    pub open spec fn same_collections(&self, other: &PlayerRecords) -> bool {
        &&& self._visited_maps@ == other._visited_maps@
        &&& self._item_type_counts@ == other._item_type_counts@
        &&& self._monster_kill_counts@ == other._monster_kill_counts@
        &&& self._custom_activity_counts@ == other._custom_activity_counts@
    }
}

impl Default for PlayerRecords {
    fn default() -> (r: Self)
        ensures
            r.is_empty_record(),
            r.wf(),
    {
        PlayerRecords {
            _item_count: 0,
            _craft_count: 0,
            _death_count: 0,
            _taming_count: 0,
            _friend_count: 0,
            _visited_maps: Vec::new(),
            _item_type_counts: Vec::new(),
            _monster_kill_counts: Vec::new(),
            _energy_balls: 0,
            _spirit_balls: 0,
            _custom_activity_counts: Vec::new(),
        }
    }
}

impl PlayerRecords {
    /// Forgets everything recorded.
    pub fn reset(&mut self)
        ensures
            final(self).is_empty_record(),
            final(self).wf(),
    {
        *self = PlayerRecords::default();
    }

    /// Adds to the count of a custom activity.
    pub fn increment_activity_stat(&mut self, key: &str, amount: u32)
        requires
            old(self).wf(),
            count_of(old(self).activity_counts(), key@) + amount <= u32::MAX,
        ensures
            final(self).wf(),
            final(self).activity_counts() == old(self).activity_counts().insert(
                key@,
                (count_of(old(self).activity_counts(), key@) + amount) as u32,
            ),
            final(self).same_but_activities(&*old(self)),
    {
        tally_add(&mut self._custom_activity_counts, key, amount);
    }

    /// The count of a custom activity, zero when it never happened.
    pub fn get_activity_stat(&self, key: &str) -> (r: u32)
        requires
            self.wf(),
        ensures
            r == count_of(self.activity_counts(), key@),
    {
        tally_get(&self._custom_activity_counts, key)
    }

    pub fn add_item_count(&mut self, amount: u32)
        ensures
            final(self)._item_count == saturating_sum(old(self)._item_count, amount),
            final(self).same_collections(&*old(self)),
            final(self).counters() == (
                final(self)._item_count,
                old(self)._craft_count,
                old(self)._death_count,
                old(self)._taming_count,
                old(self)._friend_count,
                old(self)._energy_balls,
                old(self)._spirit_balls,
            ),
    {
        self._item_count = self._item_count.saturating_add(amount);
    }

    /// Adds to the count of an item kind.
    pub fn add_item_type_count(&mut self, item_type_name: &str, amount: u32)
        requires
            old(self).wf(),
            count_of(old(self).item_type_counts(), item_type_name@) + amount <= u32::MAX,
        ensures
            final(self).wf(),
            final(self).item_type_counts() == old(self).item_type_counts().insert(
                item_type_name@,
                (count_of(old(self).item_type_counts(), item_type_name@) + amount) as u32,
            ),
            final(self).counters() == old(self).counters(),
            final(self)._visited_maps@ == old(self)._visited_maps@,
            final(self)._monster_kill_counts@ == old(self)._monster_kill_counts@,
            final(self)._custom_activity_counts@ == old(self)._custom_activity_counts@,
    {
        tally_add(&mut self._item_type_counts, item_type_name, amount);
    }

    pub fn add_craft_count(&mut self, amount: u32)
        ensures
            *final(self) == (PlayerRecords {
                _craft_count: saturating_sum(old(self)._craft_count, amount),
                ..*old(self)
            }),
    {
        self._craft_count = self._craft_count.saturating_add(amount);
    }

    pub fn add_death_count(&mut self, amount: u32)
        ensures
            *final(self) == (PlayerRecords {
                _death_count: saturating_sum(old(self)._death_count, amount),
                ..*old(self)
            }),
    {
        self._death_count = self._death_count.saturating_add(amount);
    }

    pub fn add_taming_count(&mut self, amount: u32)
        ensures
            *final(self) == (PlayerRecords {
                _taming_count: saturating_sum(old(self)._taming_count, amount),
                ..*old(self)
            }),
    {
        self._taming_count = self._taming_count.saturating_add(amount);
    }

    pub fn add_friend_count(&mut self, amount: u32)
        ensures
            *final(self) == (PlayerRecords {
                _friend_count: saturating_sum(old(self)._friend_count, amount),
                ..*old(self)
            }),
    {
        self._friend_count = self._friend_count.saturating_add(amount);
    }

    /// Records a visit to a map; an empty name is no map and is ignored.
    pub fn record_map_visit(&mut self, map_name: &str)
        requires
            old(self).wf(),
        ensures
            final(self).wf(),
            final(self).visited_maps() == (if map_name@.len() == 0 {
                old(self).visited_maps()
            } else {
                old(self).visited_maps().insert(map_name@)
            }),
            final(self).counters() == old(self).counters(),
            final(self)._item_type_counts@ == old(self)._item_type_counts@,
            final(self)._monster_kill_counts@ == old(self)._monster_kill_counts@,
            final(self)._custom_activity_counts@ == old(self)._custom_activity_counts@,
    {
        if !map_name.is_empty() {
            if !contains_name(&self._visited_maps, map_name) {
                let owned = map_name.to_owned();
                self._visited_maps.push(owned);
                proof {
                    assert(names(self._visited_maps@) =~= names(old(self)._visited_maps@).push(map_name@));
                    names(old(self)._visited_maps@).lemma_push_to_set_commute(map_name@);
                }
            } else {
                assert(names(old(self)._visited_maps@).to_set() =~= names(
                    old(self)._visited_maps@,
                ).to_set().insert(map_name@));
            }
        }
    }

    /// How many different maps were visited.
    pub fn get_visited_map_count(&self) -> (r: usize)
        requires
            self.wf(),
        ensures
            r == self.visited_maps().len(),
    {
        proof {
            names(self._visited_maps@).unique_seq_to_set();
        }
        self._visited_maps.len()
    }

    /// Counts one more kill of a monster.
    pub fn add_monster_kill(&mut self, monster_name: &str)
        requires
            old(self).wf(),
            count_of(old(self).monster_kill_counts(), monster_name@) + 1 <= u32::MAX,
        ensures
            final(self).wf(),
            final(self).monster_kill_counts() == old(self).monster_kill_counts().insert(
                monster_name@,
                (count_of(old(self).monster_kill_counts(), monster_name@) + 1) as u32,
            ),
            tally_total(final(self)._monster_kill_counts@) == tally_total(
                old(self)._monster_kill_counts@,
            ) + 1,
            final(self).counters() == old(self).counters(),
            final(self)._visited_maps@ == old(self)._visited_maps@,
            final(self)._item_type_counts@ == old(self)._item_type_counts@,
            final(self)._custom_activity_counts@ == old(self)._custom_activity_counts@,
    {
        tally_add(&mut self._monster_kill_counts, monster_name, 1);
    }

    pub fn add_energy_balls(&mut self, amount: u32)
        ensures
            *final(self) == (PlayerRecords {
                _energy_balls: saturating_sum(old(self)._energy_balls, amount),
                ..*old(self)
            }),
    {
        self._energy_balls = self._energy_balls.saturating_add(amount);
    }

    pub fn add_spirit_balls(&mut self, amount: u32)
        ensures
            *final(self) == (PlayerRecords {
                _spirit_balls: saturating_sum(old(self)._spirit_balls, amount),
                ..*old(self)
            }),
    {
        self._spirit_balls = self._spirit_balls.saturating_add(amount);
    }

    /// All monsters killed, of every kind.
    pub fn get_total_monster_kills(&self) -> (r: u32)
        requires
            tally_total(self._monster_kill_counts@) <= u32::MAX,
        ensures
            r == tally_total(self._monster_kill_counts@),
    {
        tally_sum(&self._monster_kill_counts)
    }
}

/// An increment of a tally is read back by the next read: the count of
/// the name grows by the amount and every other name keeps its count.
pub proof fn lemma_tally_increment_then_get(m: Map<Seq<char>, u32>, name: Seq<char>, other: Seq<char>, amount: u32)
    requires
        count_of(m, name) + amount <= u32::MAX,
    ensures
        ({
            let m2 = m.insert(name, (count_of(m, name) + amount) as u32);
            &&& count_of(m2, name) == count_of(m, name) + amount
            &&& other != name ==> count_of(m2, other) == count_of(m, other)
        }),
{
}

/// Visiting a map again changes nothing: the visited maps stay the same.
pub proof fn lemma_map_visit_idempotent(visited: Set<Seq<char>>, map_name: Seq<char>)
    ensures
        visited.insert(map_name).insert(map_name) == visited.insert(map_name),
{
    assert(visited.insert(map_name).insert(map_name) =~= visited.insert(map_name));
}

/// Counters never go down: a saturating addition is at least what it
/// started from, and exact while the sum fits.
pub proof fn lemma_saturating_sum_grows(a: u32, b: u32)
    ensures
        a <= saturating_sum(a, b),
        a + b <= u32::MAX ==> saturating_sum(a, b) == a + b,
{
}

} // verus!
