use vstd::prelude::*;
use crate::game_module::actors::items::api::{item_type_name, ItemDataType};
use crate::game_module::game_constants::{ITEM_ENERGY_BALL, ITEM_SPIRIT_BALL, RECORD_DEFAULT_INCREMENT};
use crate::game_module::save_data::save_data::{saturating_sum, PlayerRecords};
use crate::game_module::save_data::tally::{count_of, tally_total};
use crate::game_module::text::{contains_seq, str_contains, str_equals};

verus! {

/// The part of the game interface that keeps the player's records.
pub struct GameUIManager {
    pub _player_records: PlayerRecords,
}

/// The item counts toward the energy balls.
pub open spec fn is_energy_ball_name(name: Seq<char>) -> bool {
    contains_seq(name, "energy_ball"@) || name == ITEM_ENERGY_BALL@
}

/// The item counts toward the spirit balls.
pub open spec fn is_spirit_ball_name(name: Seq<char>) -> bool {
    contains_seq(name, "spirit_ball"@) || name == ITEM_SPIRIT_BALL@
}

impl GameUIManager {
    pub fn get_player_records(&self) -> (r: &PlayerRecords)
        ensures
            r == &self._player_records,
    {
        &self._player_records
    }

    /// Forgets all records.
    pub fn clear_player_records(&mut self)
        ensures
            final(self)._player_records.is_empty_record(),
            final(self)._player_records.wf(),
    {
        self._player_records.reset();
    }

    /// Records newly acquired items: they count as items, as items of their
    /// kind when the kind is known, and as energy or spirit balls when their
    /// name says so. Whether a notification shows is the caller's matter.
    pub fn notify_item_acquired(&mut self, item_data_name: &str, amount: u32, item_type: Option<ItemDataType>)
        requires
            old(self)._player_records.wf(),
            item_type matches Some(t) ==> count_of(old(self)._player_records.item_type_counts(), item_type_name(t))
                + amount <= u32::MAX,
        ensures
            final(self)._player_records.wf(),
            final(self)._player_records._item_count == saturating_sum(
                old(self)._player_records._item_count,
                amount,
            ),
            final(self)._player_records.item_type_counts() == (match item_type {
                Some(t) => old(self)._player_records.item_type_counts().insert(
                    item_type_name(t),
                    (count_of(old(self)._player_records.item_type_counts(), item_type_name(t)) + amount) as u32,
                ),
                None => old(self)._player_records.item_type_counts(),
            }),
            final(self)._player_records._energy_balls == (if is_energy_ball_name(item_data_name@) {
                saturating_sum(old(self)._player_records._energy_balls, amount)
            } else {
                old(self)._player_records._energy_balls
            }),
            final(self)._player_records._spirit_balls == (if !is_energy_ball_name(item_data_name@)
                && is_spirit_ball_name(item_data_name@) {
                saturating_sum(old(self)._player_records._spirit_balls, amount)
            } else {
                old(self)._player_records._spirit_balls
            }),
            final(self)._player_records._craft_count == old(self)._player_records._craft_count,
            final(self)._player_records._death_count == old(self)._player_records._death_count,
            final(self)._player_records._taming_count == old(self)._player_records._taming_count,
            final(self)._player_records._friend_count == old(self)._player_records._friend_count,
            final(self)._player_records._visited_maps@ == old(self)._player_records._visited_maps@,
            final(self)._player_records._monster_kill_counts@ == old(self)._player_records._monster_kill_counts@,
            final(self)._player_records._custom_activity_counts@
                == old(self)._player_records._custom_activity_counts@,
    {
        self._player_records.add_item_count(amount);
        match item_type {
            Some(t) => {
                self._player_records.add_item_type_count(t.get_item_type_name(), amount);
            },
            None => {},
        }
        if str_contains(item_data_name, "energy_ball") || str_equals(item_data_name, ITEM_ENERGY_BALL) {
            self._player_records.add_energy_balls(amount);
        } else if str_contains(item_data_name, "spirit_ball") || str_equals(item_data_name, ITEM_SPIRIT_BALL) {
            self._player_records.add_spirit_balls(amount);
        }
    }

    pub fn notify_item_crafted(&mut self)
        ensures
            final(self)._player_records == (PlayerRecords {
                _craft_count: saturating_sum(old(self)._player_records._craft_count, RECORD_DEFAULT_INCREMENT),
                ..old(self)._player_records
            }),
    {
        self._player_records.add_craft_count(RECORD_DEFAULT_INCREMENT);
    }

    pub fn notify_player_died(&mut self)
        ensures
            final(self)._player_records == (PlayerRecords {
                _death_count: saturating_sum(old(self)._player_records._death_count, RECORD_DEFAULT_INCREMENT),
                ..old(self)._player_records
            }),
    {
        self._player_records.add_death_count(RECORD_DEFAULT_INCREMENT);
    }

    pub fn notify_monster_killed(&mut self, monster_data_name: &str)
        requires
            old(self)._player_records.wf(),
            count_of(old(self)._player_records.monster_kill_counts(), monster_data_name@) + 1 <= u32::MAX,
        ensures
            final(self)._player_records.wf(),
            final(self)._player_records.monster_kill_counts() == old(
                self,
            )._player_records.monster_kill_counts().insert(
                monster_data_name@,
                (count_of(old(self)._player_records.monster_kill_counts(), monster_data_name@) + 1) as u32,
            ),
            tally_total(final(self)._player_records._monster_kill_counts@) == tally_total(
                old(self)._player_records._monster_kill_counts@,
            ) + 1,
            final(self)._player_records.counters() == old(self)._player_records.counters(),
    {
        self._player_records.add_monster_kill(monster_data_name);
    }

    pub fn notify_tamed(&mut self)
        ensures
            final(self)._player_records == (PlayerRecords {
                _taming_count: saturating_sum(old(self)._player_records._taming_count, RECORD_DEFAULT_INCREMENT),
                ..old(self)._player_records
            }),
    {
        self._player_records.add_taming_count(RECORD_DEFAULT_INCREMENT);
    }

    pub fn notify_friend_made(&mut self)
        ensures
            final(self)._player_records == (PlayerRecords {
                _friend_count: saturating_sum(old(self)._player_records._friend_count, RECORD_DEFAULT_INCREMENT),
                ..old(self)._player_records
            }),
    {
        self._player_records.add_friend_count(RECORD_DEFAULT_INCREMENT);
    }

    pub fn notify_map_visited(&mut self, map_name: &str)
        requires
            old(self)._player_records.wf(),
        ensures
            final(self)._player_records.wf(),
            final(self)._player_records.visited_maps() == (if map_name@.len() == 0 {
                old(self)._player_records.visited_maps()
            } else {
                old(self)._player_records.visited_maps().insert(map_name@)
            }),
            final(self)._player_records.counters() == old(self)._player_records.counters(),
    {
        self._player_records.record_map_visit(map_name);
    }
}


/// One slot of the inventory, as the item bar holds it.
pub struct InventorySlot {
    pub _item_data_name: String,
    pub _item_count: usize,
    pub _item_type: ItemDataType,
}

/// The slot holds something that can be eaten.
pub open spec fn holds_eatable(slot: InventorySlot) -> bool {
    slot._item_count > 0 && slot._item_type == ItemDataType::Food
}

impl GameUIManager {
    /// The name of the first item in the inventory that can be eaten, the
    /// slots taken row by row.
    pub fn find_eatable_inventory_item_data_name(&self, slots: &Vec<InventorySlot>) -> (r: Option<String>)
        ensures
            match r {
                Some(name) => exists|i: int|
                    0 <= i < slots@.len() && holds_eatable(#[trigger] slots@[i]) && name@
                        == slots@[i]._item_data_name@ && forall|k: int| 0 <= k < i ==> !holds_eatable(#[trigger] slots@[k]),
                None => forall|i: int| 0 <= i < slots@.len() ==> !holds_eatable(#[trigger] slots@[i]),
            },
    {
        let n = slots.len();
        let mut i: usize = 0;
        while i < n
            invariant
                n == slots@.len(),
                i <= n,
                forall|k: int| 0 <= k < i ==> !holds_eatable(#[trigger] slots@[k]),
            decreases n - i,
        {
            let slot = &slots[i];
            if slot._item_count > 0 && slot._item_type.is_eatable() {
                let name = slot._item_data_name.clone();
                assert(holds_eatable(slots@[i as int]));
                return Some(name);
            }
            i = i + 1;
        }
        None
    }
}

} // verus!
