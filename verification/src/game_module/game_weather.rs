use vstd::prelude::*;
use crate::game_module::state_cycle::{schedule, state_schedule, State};

verus! {

/// The weathers of the world.
#[derive(Clone, Copy, Debug, PartialEq, Eq, Structural)]
pub enum WeatherType {
    Nothing,
    Rain,
}

/// The weather now, the weather asked for, and whether rain is falling in
/// the scene.
#[derive(Clone, Copy, Debug, PartialEq, Eq, Structural)]
pub struct Weather {
    pub _next_weather_type: WeatherType,
    pub _weather_type: WeatherType,
    pub _has_rain_effect: bool,
}

/// The work a change of weather asks of the scene.
#[derive(Clone, Copy, Debug, PartialEq, Eq, Structural)]
pub enum WeatherCommand {
    /// Remove the rain and give the sun its light back.
    StopRain,
    /// Start the rain, darken the light and set the first thunder's time.
    StartRain,
    /// Keep the rain over the player and run the thunder.
    UpdateRain,
}

/// Clearing the weather stops any rain; the weather is then none.
pub open spec fn cleared(w: Weather) -> (Weather, Seq<WeatherCommand>) {
    if w._has_rain_effect {
        (Weather { _has_rain_effect: false, _weather_type: WeatherType::Nothing, ..w }, seq![WeatherCommand::StopRain])
    } else {
        (w, Seq::empty())
    }
}

/// One stage of the weather: a weather that begins becomes current; clear
/// skies clear the weather as they begin; rain starts as it begins and
/// runs as it updates.
pub open spec fn weather_stage(w: Weather, stage: State, weather: WeatherType) -> (Weather, Seq<WeatherCommand>) {
    let w1 = if stage == State::Begin { Weather { _weather_type: weather, ..w } } else { w };
    match weather {
        WeatherType::Nothing => if stage == State::Begin {
            cleared(w1)
        } else {
            (w1, Seq::empty())
        },
        WeatherType::Rain => match stage {
            State::Begin => (Weather { _has_rain_effect: true, ..w1 }, seq![WeatherCommand::StartRain]),
            State::Update => (w1, seq![WeatherCommand::UpdateRain]),
            State::End => (w1, Seq::empty()),
        },
    }
}

impl Default for Weather {
    fn default() -> (r: Self)
        ensures
            r == (Weather {
                _next_weather_type: WeatherType::Nothing,
                _weather_type: WeatherType::Nothing,
                _has_rain_effect: false,
            }),
    {
        Weather { _next_weather_type: WeatherType::Nothing, _weather_type: WeatherType::Nothing, _has_rain_effect: false }
    }
}

impl Weather {
    pub fn get_weather_type(&self) -> (r: WeatherType)
        ensures
            r == self._weather_type,
    {
        self._weather_type
    }

    pub fn set_next_weather(&mut self, weather_type: WeatherType)
        ensures
            *final(self) == (Weather { _next_weather_type: weather_type, ..*old(self) }),
    {
        self._next_weather_type = weather_type;
    }

    /// Stops any rain.
    pub fn clear_weather(&mut self) -> (r: Vec<WeatherCommand>)
        ensures
            (*final(self), r@) == cleared(*old(self)),
    {
        let mut r: Vec<WeatherCommand> = Vec::new();
        if self._has_rain_effect {
            self._has_rain_effect = false;
            self._weather_type = WeatherType::Nothing;
            r.push(WeatherCommand::StopRain);
        }
        proof {
            assert(r@ =~= cleared(*old(self)).1);
        }
        r
    }

    /// The stages of this weather update: a change of weather ends the old
    /// one and begins the new; the new one is then updated.
    pub fn schedule_weather(&self) -> (r: Vec<(State, WeatherType)>)
        ensures
            r@ == schedule(self._weather_type, self._next_weather_type, self._weather_type != self._next_weather_type),
    {
        state_schedule(self._weather_type, self._next_weather_type, self._weather_type != self._next_weather_type)
    }

    /// Runs one stage of the weather, as `weather_stage` states it.
    pub fn update_weather_stage(&mut self, stage: State, weather: WeatherType) -> (r: Vec<WeatherCommand>)
        ensures
            (*final(self), r@) == weather_stage(*old(self), stage, weather),
    {
        if stage == State::Begin {
            self._weather_type = weather;
        }
        match weather {
            WeatherType::Nothing => {
                if stage == State::Begin {
                    self.clear_weather()
                } else {
                    Vec::new()
                }
            },
            WeatherType::Rain => {
                let mut r: Vec<WeatherCommand> = Vec::new();
                match stage {
                    State::Begin => {
                        self._has_rain_effect = true;
                        r.push(WeatherCommand::StartRain);
                    },
                    State::Update => r.push(WeatherCommand::UpdateRain),
                    State::End => {},
                }
                proof {
                    assert(r@ =~= weather_stage(*old(self), stage, weather).1);
                }
                r
            },
        }
    }
}

/// A change of weather, run stage by stage, leaves the asked weather
/// current, with rain falling exactly when it is rain.
pub proof fn lemma_weather_change_settles(w: Weather)
    requires
        w._weather_type != w._next_weather_type,
    ensures
        ({
            let s1 = weather_stage(w, State::End, w._weather_type);
            let s2 = weather_stage(s1.0, State::Begin, w._next_weather_type);
            let s3 = weather_stage(s2.0, State::Update, w._next_weather_type);
            &&& s3.0._weather_type == w._next_weather_type
            &&& s3.0._has_rain_effect == (w._next_weather_type == WeatherType::Rain)
        }),
{
}

} // verus!
