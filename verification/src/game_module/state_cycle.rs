use vstd::prelude::*;

verus! {

/// The three stages that every state machine of the game walks through in
/// one update: the old state ends, the new state begins, and the current
/// state is updated. They are visited in this order.
#[derive(Clone, Copy, Debug, PartialEq, Eq, Structural)]
pub enum State {
    End,
    Begin,
    Update,
}

/// The stages visited in one update, each with the state it applies to.
/// When no transition is due only the update of the next state runs;
/// otherwise the previous state ends, the next state begins and is updated.
pub open spec fn schedule<T>(prev: T, next: T, run_transition: bool) -> Seq<(State, T)> {
    if run_transition {
        seq![(State::End, prev), (State::Begin, next), (State::Update, next)]
    } else {
        seq![(State::Update, next)]
    }
}

/// Lists the stages of one update, as `schedule` states them.
pub fn state_schedule<T: Copy>(prev: T, next: T, run_transition: bool) -> (r: Vec<(State, T)>)
    ensures
        r@ == schedule(prev, next, run_transition),
{
    let mut r: Vec<(State, T)> = Vec::new();
    if run_transition {
        r.push((State::End, prev));
        r.push((State::Begin, next));
    }
    r.push((State::Update, next));
    proof {
        if run_transition {
            assert(r@ =~= seq![(State::End, prev), (State::Begin, next), (State::Update, next)]);
        } else {
            assert(r@ =~= seq![(State::Update, next)]);
        }
    }
    r
}

/// Whatever the states, the last stage of an update is the update of the
/// next state, and a stage that begins a state always begins the next one.
pub proof fn lemma_schedule_ends_with_update<T>(prev: T, next: T, run_transition: bool)
    ensures
        schedule(prev, next, run_transition).last() == (State::Update, next),
        forall|i: int|
            0 <= i < schedule(prev, next, run_transition).len() && (#[trigger] schedule(
                prev,
                next,
                run_transition,
            )[i]).0 == State::Begin ==> schedule(prev, next, run_transition)[i].1 == next,
{
}

} // verus!
