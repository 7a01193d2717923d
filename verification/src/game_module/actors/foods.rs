use vstd::prelude::*;

verus! {

/// The kinds of food lying in the world.
#[derive(Clone, Copy, Debug, PartialEq, Eq, Structural)]
pub enum FoodDataType {
    Meat,
}

/// The data a food is made from.
pub struct FoodData {
    pub _food_type: FoodDataType,
    pub _model_data_name: String,
}

impl Default for FoodData {
    fn default() -> (r: Self)
        ensures
            r._food_type == FoodDataType::Meat,
            r._model_data_name@ == Seq::<char>::empty(),
    {
        FoodData { _food_type: FoodDataType::Meat, _model_data_name: String::new() }
    }
}

/// The foods of a scene, by id. Ids are handed out in increasing order and
/// never twice.
pub struct FoodManager {
    pub _id_generator: u64,
    pub _food_ids: Vec<u64>,
}

impl FoodManager {
    /// Every food has an id below the next one to hand out, and no id is
    /// held twice.
    pub open spec fn wf(&self) -> bool {
        &&& forall|i: int| 0 <= i < self._food_ids@.len() ==> self._food_ids@[i] < self._id_generator
        &&& self._food_ids@.no_duplicates()
    }

    /// The ids of the foods present.
    pub open spec fn ids(&self) -> Set<u64> {
        self._food_ids@.to_set()
    }

    pub fn create_food_manager() -> (r: FoodManager)
        ensures
            r.wf(),
            r._id_generator == 0,
            r.ids() == Set::<u64>::empty(),
    {
        let r = FoodManager { _id_generator: 0, _food_ids: Vec::new() };
        assert(r.ids() =~= Set::<u64>::empty());
        r
    }

    /// Hands out the next id.
    pub fn generate_id(&mut self) -> (r: u64)
        requires
            old(self)._id_generator < u64::MAX,
        ensures
            r == old(self)._id_generator,
            final(self)._id_generator == old(self)._id_generator + 1,
            final(self)._food_ids@ == old(self)._food_ids@,
    {
        let id = self._id_generator;
        self._id_generator = self._id_generator + 1;
        id
    }

    /// Whether a food of the given id is present.
    pub fn get_food(&self, food_id: u64) -> (r: bool)
        ensures
            r == self.ids().contains(food_id),
    {
        let mut i: usize = 0;
        while i < self._food_ids.len()
            invariant
                i <= self._food_ids@.len(),
                forall|j: int| 0 <= j < i ==> self._food_ids@[j] != food_id,
            decreases self._food_ids@.len() - i,
        {
            if self._food_ids[i] == food_id {
                assert(self._food_ids@.contains(food_id));
                return true;
            }
            i = i + 1;
        }
        false
    }

    /// Adds a food under a fresh id, and returns the id.
    pub fn create_food(&mut self) -> (r: u64)
        requires
            old(self).wf(),
            old(self)._id_generator < u64::MAX,
        ensures
            final(self).wf(),
            !old(self).ids().contains(r),
            final(self).ids() == old(self).ids().insert(r),
    {
        let id = self.generate_id();
        self._food_ids.push(id);
        proof {
            old(self)._food_ids@.lemma_push_to_set_commute(id);
        }
        id
    }

    /// Removes the food of the given id, if present.
    pub fn remove_food(&mut self, food_id: u64)
        requires
            old(self).wf(),
        ensures
            final(self).wf(),
            final(self).ids() == old(self).ids().remove(food_id),
            final(self)._id_generator == old(self)._id_generator,
    {
        let mut i: usize = 0;
        while i < self._food_ids.len()
            invariant
                i <= self._food_ids@.len(),
                self._food_ids@ == old(self)._food_ids@,
                self._id_generator == old(self)._id_generator,
                old(self).wf(),
                forall|j: int| 0 <= j < i ==> self._food_ids@[j] != food_id,
            decreases self._food_ids@.len() - i,
        {
            if self._food_ids[i] == food_id {
                let ghost s = self._food_ids@;
                self._food_ids.remove(i);
                proof {
                    assert(self._food_ids@ =~= s.remove(i as int));
                    assert(s[i as int] == food_id);
                    assert forall|a: int, b: int|
                        0 <= a < self._food_ids@.len() && 0 <= b < self._food_ids@.len() && a != b implies
                        self._food_ids@[a] != self._food_ids@[b] by {
                        let a1 = if a < i { a } else { a + 1 };
                        let b1 = if b < i { b } else { b + 1 };
                        assert(s[a1] != s[b1]);
                    }
                    assert forall|x: u64| self.ids().contains(x) <==> (s.to_set().contains(x) && x != food_id) by {
                        if self.ids().contains(x) {
                            let k = choose|k: int| 0 <= k < self._food_ids@.len() && self._food_ids@[k] == x;
                            if k < i {
                                assert(s[k] == x);
                                assert(s[k] != s[i as int]);
                            } else {
                                assert(s[k + 1] == x);
                                assert(s[k + 1] != s[i as int]);
                            }
                        }
                        if s.to_set().contains(x) && x != food_id {
                            let k = choose|k: int| 0 <= k < s.len() && s[k] == x;
                            if k < i {
                                assert(self._food_ids@[k] == x);
                            } else {
                                assert(k != i);
                                assert(self._food_ids@[k - 1] == x);
                            }
                        }
                    }
                    assert(self.ids() =~= s.to_set().remove(food_id));
                }
                return;
            }
            i = i + 1;
        }
        proof {
            assert(!self._food_ids@.contains(food_id));
            assert(self.ids() =~= old(self).ids().remove(food_id));
        }
    }
}

} // verus!
