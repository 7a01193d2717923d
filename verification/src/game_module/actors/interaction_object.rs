use vstd::prelude::*;

verus! {

/// The kinds of thing the player can interact with.
#[derive(Clone, Copy, Debug, PartialEq, Eq, Structural)]
pub enum InteractionKind {
    Nothing,
    PropBed,
    PropPickup,
    PropGate,
    PropGathering,
    PropMonolith,
    PropTable,
    Npc,
    Taming,
    Farming,
}

/// The word the interface shows for an interaction.
pub open spec fn interaction_name(kind: InteractionKind) -> Seq<char> {
    match kind {
        InteractionKind::Nothing => ""@,
        InteractionKind::PropBed => "Sleep"@,
        InteractionKind::PropPickup => "Pick up"@,
        InteractionKind::PropGate => "Enter Gate"@,
        InteractionKind::PropGathering => "Gathering"@,
        InteractionKind::PropMonolith => "Open Toolbox"@,
        InteractionKind::PropTable => "Sit Down"@,
        InteractionKind::Npc => "Talk"@,
        InteractionKind::Taming => "Taming"@,
        InteractionKind::Farming => "Farming"@,
    }
}

impl InteractionKind {
    pub fn get_interaction_name(&self) -> (r: &'static str)
        ensures
            r@ == interaction_name(*self),
    {
        match *self {
            InteractionKind::Nothing => "",
            InteractionKind::PropBed => "Sleep",
            InteractionKind::PropPickup => "Pick up",
            InteractionKind::PropGate => "Enter Gate",
            InteractionKind::PropGathering => "Gathering",
            InteractionKind::PropMonolith => "Open Toolbox",
            InteractionKind::PropTable => "Sit Down",
            InteractionKind::Npc => "Talk",
            InteractionKind::Taming => "Taming",
            InteractionKind::Farming => "Farming",
        }
    }
}

/// The position of the first taming among the interactions at hand, if any.
pub open spec fn first_taming(held: Seq<InteractionKind>, n: int) -> Option<int>
    decreases n,
{
    if n <= 0 {
        None
    } else {
        match first_taming(held, n - 1) {
            Some(i) => Some(i),
            None => if held[n - 1] == InteractionKind::Taming {
                Some(n - 1)
            } else {
                None
            },
        }
    }
}

/// Taming comes before any other interaction: the first taming at hand is
/// chosen, else the nearest interaction. The result is the position of the
/// chosen one among those at hand, or none for the nearest.
pub fn choose_interaction_target(held: &Vec<InteractionKind>) -> (r: Option<usize>)
    ensures
        r matches Some(i) ==> first_taming(held@, held@.len() as int) == Some(i as int),
        r is None ==> first_taming(held@, held@.len() as int) is None,
{
    let mut i: usize = 0;
    while i < held.len()
        invariant
            i <= held@.len(),
            first_taming(held@, i as int) is None,
        decreases held@.len() - i,
    {
        if held[i] == InteractionKind::Taming {
            proof {
                lemma_first_taming_stays(held@, i as int + 1, held@.len() as int);
            }
            return Some(i);
        }
        i = i + 1;
    }
    None
}

/// Once found, the first taming stays the first one in every longer prefix.
pub proof fn lemma_first_taming_stays(held: Seq<InteractionKind>, m: int, n: int)
    requires
        0 < m <= n <= held.len(),
        first_taming(held, m) is Some,
    ensures
        first_taming(held, n) == first_taming(held, m),
    decreases n - m,
{
    if m < n {
        lemma_first_taming_stays(held, m, n - 1);
    }
}

} // verus!
