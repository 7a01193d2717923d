use vstd::prelude::*;
use crate::game_module::text::str_equals;

verus! {

/// A tally is a list of names with a count each; no name occurs twice.
pub open spec fn distinct_names(s: Seq<(String, u32)>) -> bool {
    forall|i: int, j: int| 0 <= i < j < s.len() ==> s[i].0@ != s[j].0@
}

/// The counts of a tally, by name.
pub open spec fn tally(s: Seq<(String, u32)>) -> Map<Seq<char>, u32>
    decreases s.len(),
{
    if s.len() == 0 {
        Map::empty()
    } else {
        tally(s.drop_last()).insert(s.last().0@, s.last().1)
    }
}

/// The sum of all counts of a tally.
pub open spec fn tally_total(s: Seq<(String, u32)>) -> int
    decreases s.len(),
{
    if s.len() == 0 {
        0
    } else {
        tally_total(s.drop_last()) + s.last().1
    }
}

/// The count of a name, zero for a name never counted.
pub open spec fn count_of(m: Map<Seq<char>, u32>, name: Seq<char>) -> int {
    if m.contains_key(name) {
        m[name] as int
    } else {
        0
    }
}

/// The names of a list of strings.
pub open spec fn names(s: Seq<String>) -> Seq<Seq<char>> {
    s.map_values(|x: String| x@)
}

pub proof fn lemma_tally_index(s: Seq<(String, u32)>, i: int)
    requires
        distinct_names(s),
        0 <= i < s.len(),
    ensures
        tally(s).contains_key(s[i].0@),
        tally(s)[s[i].0@] == s[i].1,
    decreases s.len(),
{
    if i < s.len() - 1 {
        lemma_tally_index(s.drop_last(), i);
    }
}

pub proof fn lemma_tally_absent(s: Seq<(String, u32)>, name: Seq<char>)
    requires
        forall|i: int| 0 <= i < s.len() ==> s[i].0@ != name,
    ensures
        !tally(s).contains_key(name),
    decreases s.len(),
{
    if s.len() > 0 {
        lemma_tally_absent(s.drop_last(), name);
    }
}

pub proof fn lemma_tally_update(s: Seq<(String, u32)>, i: int, c: u32)
    requires
        distinct_names(s),
        0 <= i < s.len(),
    ensures
        tally(s.update(i, (s[i].0, c))) == tally(s).insert(s[i].0@, c),
        tally_total(s.update(i, (s[i].0, c))) == tally_total(s) - s[i].1 + c,
    decreases s.len(),
{
    let t = s.update(i, (s[i].0, c));
    if i == s.len() - 1 {
        assert(t.drop_last() =~= s.drop_last());
        assert(tally(t) =~= tally(s).insert(s[i].0@, c));
    } else {
        assert(t.drop_last() =~= s.drop_last().update(i, (s[i].0, c)));
        lemma_tally_update(s.drop_last(), i, c);
        assert(s[i].0@ != s.last().0@);
        assert(tally(t) =~= tally(s).insert(s[i].0@, c));
    }
}

pub proof fn lemma_tally_push(s: Seq<(String, u32)>, name: String, c: u32)
    ensures
        tally(s.push((name, c))) == tally(s).insert(name@, c),
        tally_total(s.push((name, c))) == tally_total(s) + c,
{
    assert(s.push((name, c)).drop_last() =~= s);
}

/// The position of a name in a tally, if it is there.
pub fn find_name(v: &Vec<(String, u32)>, name: &str) -> (r: Option<usize>)
    ensures
        match r {
            Some(i) => i < v.len() && v@[i as int].0@ == name@,
            None => forall|i: int| 0 <= i < v.len() ==> v@[i].0@ != name@,
        },
{
    let mut i: usize = 0;
    while i < v.len()
        invariant
            i <= v.len(),
            forall|j: int| 0 <= j < i ==> v@[j].0@ != name@,
        decreases v.len() - i,
    {
        if str_equals(v[i].0.as_str(), name) {
            return Some(i);
        }
        i = i + 1;
    }
    None
}

/// The count of a name in a tally, zero when it is not there.
pub fn tally_get(v: &Vec<(String, u32)>, name: &str) -> (r: u32)
    requires
        distinct_names(v@),
    ensures
        r == count_of(tally(v@), name@),
{
    match find_name(v, name) {
        Some(i) => {
            proof {
                lemma_tally_index(v@, i as int);
            }
            v[i].1
        },
        None => {
            proof {
                lemma_tally_absent(v@, name@);
            }
            0
        },
    }
}

/// Adds to the count of a name, starting it at zero when the name is new.
pub fn tally_add(v: &mut Vec<(String, u32)>, name: &str, amount: u32)
    requires
        distinct_names(old(v)@),
        count_of(tally(old(v)@), name@) + amount <= u32::MAX,
    ensures
        distinct_names(final(v)@),
        tally(final(v)@) == tally(old(v)@).insert(
            name@,
            (count_of(tally(old(v)@), name@) + amount) as u32,
        ),
        tally_total(final(v)@) == tally_total(old(v)@) + amount,
{
    match find_name(v, name) {
        Some(i) => {
            proof {
                lemma_tally_index(v@, i as int);
                lemma_tally_update(v@, i as int, (v@[i as int].1 + amount) as u32);
            }
            let entry_name = v[i].0.clone();
            let c = v[i].1;
            v.set(i, (entry_name, c + amount));
            proof {
                assert(v@ =~= old(v)@.update(i as int, (old(v)@[i as int].0, (c + amount) as u32)));
            }
        },
        None => {
            proof {
                lemma_tally_absent(v@, name@);
            }
            let owned = name.to_owned();
            proof {
                lemma_tally_push(v@, owned, amount);
            }
            v.push((owned, amount));
        },
    }
}

/// The sum of all counts of a tally.
pub fn tally_sum(v: &Vec<(String, u32)>) -> (r: u32)
    requires
        tally_total(v@) <= u32::MAX,
    ensures
        r == tally_total(v@),
{
    let mut sum: u32 = 0;
    let mut i: usize = 0;
    while i < v.len()
        invariant
            i <= v.len(),
            sum == tally_total(v@.subrange(0, i as int)),
            tally_total(v@) <= u32::MAX,
        decreases v.len() - i,
    {
        proof {
            lemma_tally_total_prefix(v@, (i + 1) as int);
            assert(v@.subrange(0, i + 1).drop_last() =~= v@.subrange(0, i as int));
        }
        sum = sum + v[i].1;
        i = i + 1;
    }
    assert(v@.subrange(0, v.len() as int) =~= v@);
    sum
}

/// A prefix of a tally sums to no more than the whole.
pub proof fn lemma_tally_total_prefix(s: Seq<(String, u32)>, k: int)
    requires
        0 <= k <= s.len(),
    ensures
        tally_total(s.subrange(0, k)) <= tally_total(s),
    decreases s.len() - k,
{
    if k < s.len() {
        lemma_tally_total_prefix(s, k + 1);
        assert(s.subrange(0, k + 1).drop_last() =~= s.subrange(0, k));
    } else {
        assert(s.subrange(0, k) =~= s);
    }
}

/// Whether a list of strings holds a name.
pub fn contains_name(v: &Vec<String>, name: &str) -> (r: bool)
    ensures
        r == names(v@).contains(name@),
{
    let mut i: usize = 0;
    while i < v.len()
        invariant
            i <= v.len(),
            forall|j: int| 0 <= j < i ==> v@[j]@ != name@,
        decreases v.len() - i,
    {
        if str_equals(v[i].as_str(), name) {
            assert(names(v@)[i as int] == name@);
            return true;
        }
        i = i + 1;
    }
    proof {
        if names(v@).contains(name@) {
            let k = choose|k: int| 0 <= k < names(v@).len() && names(v@)[k] == name@;
            assert(v@[k]@ == name@);
        }
    }
    false
}

} // verus!
