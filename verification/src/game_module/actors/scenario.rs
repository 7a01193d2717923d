use vstd::prelude::*;

verus! {

/// The state of a scenario being played. Scenarios keep no state of their
/// own yet.
#[derive(Clone, Copy, Debug, PartialEq, Eq, Structural)]
pub struct ScenarioData {}

impl ScenarioData {
    pub fn create_scenario_data() -> (r: ScenarioData)
        ensures
            r == (ScenarioData {}),
    {
        ScenarioData {}
    }

    /// A scenario's update changes nothing yet.
    pub fn update_scenario_data(&mut self)
        ensures
            *final(self) == *old(self),
    {
    }
}

} // verus!
