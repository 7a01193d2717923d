use vstd::prelude::*;
use crate::game_module::game_constants::{AMBIENT_SOUND, AMBIENT_SOUND_NIGHT, AMBIENT_SOUND_RAIN};
use crate::game_module::game_weather::WeatherType;
use crate::game_module::text::str_equals;

verus! {

/// The background sound of the game: the ambient sound playing.
pub struct GameAudioManager {
    pub _ambient_sound_name: String,
    pub _was_play_scenario_mode: bool,
}

/// The work the sound of the game asks of the audio engine.
#[derive(Clone, Copy, Debug, PartialEq, Eq, Structural)]
pub enum AudioCommand {
    /// Stop the ambient sound playing, if any, and loop the one now named.
    PlayAmbientSound,
    StopBgm,
    PlayGameMusic,
}

/// The ambient sound fitting the weather and the hour: rain, the night, or
/// the sounds of the day.
pub open spec fn target_ambient_sound(weather_type: WeatherType, is_night: bool) -> Seq<char> {
    if weather_type == WeatherType::Rain {
        AMBIENT_SOUND_RAIN@
    } else if is_night {
        AMBIENT_SOUND_NIGHT@
    } else {
        AMBIENT_SOUND@
    }
}

/// The work of one sound update: the fitting ambient sound starts when
/// another one plays or none does; the music stops in rain and at night and
/// plays in the day.
pub open spec fn sound_commands(
    current: Seq<char>,
    weather_type: WeatherType,
    is_night: bool,
    is_ambient_playing: bool,
    is_bgm_playing: bool,
) -> Seq<AudioCommand> {
    let target = target_ambient_sound(weather_type, is_night);
    (if current != target || !is_ambient_playing {
        seq![AudioCommand::PlayAmbientSound]
    } else {
        Seq::empty()
    }) + (if target == AMBIENT_SOUND_RAIN@ || target == AMBIENT_SOUND_NIGHT@ {
        if is_bgm_playing {
            seq![AudioCommand::StopBgm]
        } else {
            Seq::empty()
        }
    } else if target == AMBIENT_SOUND@ {
        if !is_bgm_playing {
            seq![AudioCommand::PlayGameMusic]
        } else {
            Seq::empty()
        }
    } else {
        Seq::empty()
    })
}

impl Default for GameAudioManager {
    fn default() -> (r: Self)
        ensures
            r._ambient_sound_name@ == Seq::<char>::empty(),
            !r._was_play_scenario_mode,
    {
        GameAudioManager { _ambient_sound_name: String::new(), _was_play_scenario_mode: false }
    }
}

impl GameAudioManager {
    /// Names the ambient sound now playing.
    pub fn play_ambient_sound(&mut self, audio_name: &str)
        ensures
            final(self)._ambient_sound_name@ == audio_name@,
            final(self)._was_play_scenario_mode == old(self)._was_play_scenario_mode,
    {
        self.stop_ambient_sound();
        self._ambient_sound_name = audio_name.to_owned();
    }

    /// No ambient sound plays any more.
    pub fn stop_ambient_sound(&mut self)
        ensures
            final(self)._ambient_sound_name@ == Seq::<char>::empty(),
            final(self)._was_play_scenario_mode == old(self)._was_play_scenario_mode,
    {
        self._ambient_sound_name = String::new();
    }

    /// One update of the game's sound.
    pub fn update_game_sound(
        &mut self,
        weather_type: WeatherType,
        is_night: bool,
        is_ambient_playing: bool,
        is_bgm_playing: bool,
    ) -> (r: Vec<AudioCommand>)
        ensures
            r@ == sound_commands(
                old(self)._ambient_sound_name@,
                weather_type,
                is_night,
                is_ambient_playing,
                is_bgm_playing,
            ),
            final(self)._ambient_sound_name@ == (if r@.contains(AudioCommand::PlayAmbientSound) {
                target_ambient_sound(weather_type, is_night)
            } else {
                old(self)._ambient_sound_name@
            }),
    {
        let target: &str = if weather_type == WeatherType::Rain {
            AMBIENT_SOUND_RAIN
        } else if is_night {
            AMBIENT_SOUND_NIGHT
        } else {
            AMBIENT_SOUND
        };
        let mut r: Vec<AudioCommand> = Vec::new();
        let ghost old_name = self._ambient_sound_name@;
        if !str_equals(self._ambient_sound_name.as_str(), target) || !is_ambient_playing {
            self.play_ambient_sound(target);
            r.push(AudioCommand::PlayAmbientSound);
        }
        let ghost n_first = r@.len();
        if str_equals(target, AMBIENT_SOUND_RAIN) || str_equals(target, AMBIENT_SOUND_NIGHT) {
            if is_bgm_playing {
                r.push(AudioCommand::StopBgm);
            }
        } else if str_equals(target, AMBIENT_SOUND) {
            if !is_bgm_playing {
                r.push(AudioCommand::PlayGameMusic);
            }
        }
        proof {
            assert(r@ =~= sound_commands(old_name, weather_type, is_night, is_ambient_playing, is_bgm_playing));
            if n_first == 1 {
                assert(r@[0] == AudioCommand::PlayAmbientSound);
            }
            if r@.contains(AudioCommand::PlayAmbientSound) {
                let k = choose|k: int| 0 <= k < r@.len() && r@[k] == AudioCommand::PlayAmbientSound;
                assert(k < n_first);
            }
        }
        r
    }
}


/// The ambient sound follows the weather and the hour: rain, else night,
/// else day; rain and night silence the music and the day plays it; an
/// ambient sound already playing is not started again, and once the sound
/// is right an update asks for nothing.
pub proof fn lemma_sound_follows_weather(
    current: Seq<char>,
    weather_type: WeatherType,
    is_night: bool,
    is_ambient_playing: bool,
    is_bgm_playing: bool,
)
    ensures
        target_ambient_sound(WeatherType::Rain, is_night) == AMBIENT_SOUND_RAIN@,
        weather_type != WeatherType::Rain && is_night ==> target_ambient_sound(weather_type, is_night)
            == AMBIENT_SOUND_NIGHT@,
        weather_type != WeatherType::Rain && !is_night ==> target_ambient_sound(weather_type, is_night)
            == AMBIENT_SOUND@,
        ({
            let cmds = sound_commands(current, weather_type, is_night, is_ambient_playing, is_bgm_playing);
            let quiet = weather_type == WeatherType::Rain || is_night;
            &&& cmds.contains(AudioCommand::PlayAmbientSound) <==> (current != target_ambient_sound(
                weather_type,
                is_night,
            ) || !is_ambient_playing)
            &&& cmds.contains(AudioCommand::StopBgm) <==> quiet && is_bgm_playing
            &&& cmds.contains(AudioCommand::PlayGameMusic) <==> !quiet && !is_bgm_playing
            &&& current == target_ambient_sound(weather_type, is_night) && is_ambient_playing && is_bgm_playing
                != quiet ==> cmds.len() == 0
        }),
{
    reveal_strlit("ambient_sound");
    reveal_strlit("ambient_sound_night");
    reveal_strlit("ambient_sound_rain");
    assert(AMBIENT_SOUND@ != AMBIENT_SOUND_RAIN@) by {
        assert(AMBIENT_SOUND@.len() != AMBIENT_SOUND_RAIN@.len());
    }
    assert(AMBIENT_SOUND@ != AMBIENT_SOUND_NIGHT@) by {
        assert(AMBIENT_SOUND@.len() != AMBIENT_SOUND_NIGHT@.len());
    }
    let cmds = sound_commands(current, weather_type, is_night, is_ambient_playing, is_bgm_playing);
    let first = if current != target_ambient_sound(weather_type, is_night) || !is_ambient_playing {
        seq![AudioCommand::PlayAmbientSound]
    } else {
        Seq::<AudioCommand>::empty()
    };
    let rest = cmds.subrange(first.len() as int, cmds.len() as int);
    assert(cmds =~= first + rest);
    if cmds.contains(AudioCommand::PlayAmbientSound) {
        let k = choose|k: int| 0 <= k < cmds.len() && cmds[k] == AudioCommand::PlayAmbientSound;
        if k >= first.len() {
            assert(rest[k - first.len()] == AudioCommand::PlayAmbientSound);
        }
    }
    if cmds.contains(AudioCommand::StopBgm) {
        let k = choose|k: int| 0 <= k < cmds.len() && cmds[k] == AudioCommand::StopBgm;
        assert(k >= first.len());
        assert(rest[k - first.len()] == AudioCommand::StopBgm);
    }
    if cmds.contains(AudioCommand::PlayGameMusic) {
        let k = choose|k: int| 0 <= k < cmds.len() && cmds[k] == AudioCommand::PlayGameMusic;
        assert(k >= first.len());
        assert(rest[k - first.len()] == AudioCommand::PlayGameMusic);
    }
    if first.len() == 1 {
        assert(cmds[0] == AudioCommand::PlayAmbientSound);
    }
    if rest.len() == 1 {
        assert(cmds[first.len() as int] == rest[0]);
    }
}

} // verus!
