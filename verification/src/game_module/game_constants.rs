use vstd::prelude::*;

verus! {

/// Hits a corpse takes before it is used up.
pub const MAX_CORPSE_HIT_COUNT: i32 = 3;

/// Damage per started unit of height fallen beyond the safe height.
pub const FALLING_DAMAGE_RATIO: i32 = 10;

/// The save slot a new game writes to.
pub const DEFAULT_GAME_SAVE_DATA: &'static str = "default";

/// Where a player arrives when travelling through the world map.
pub const DEFAULT_GATE_NAME: &'static str = "gate";

/// The bed the player wakes up in after dying.
pub const BED_FOR_ARU: &'static str = "bed_for_aru";

/// The items whose names count towards energy and spirit ball records.
pub const ITEM_ENERGY_BALL: &'static str = "items/energy_ball";
pub const ITEM_SPIRIT_BALL: &'static str = "items/spirit_ball";
pub const ITEM_MEAT: &'static str = "items/meat";

/// Pieces of meat a farmed corpse leaves besides its spirit ball.
pub const FARM_MEAT_COUNT: usize = 3;

/// How much one record notification adds.
pub const RECORD_DEFAULT_INCREMENT: u32 = 1;

/// Ambient sound banks.
pub const AMBIENT_SOUND: &'static str = "ambient_sound";
pub const AMBIENT_SOUND_NIGHT: &'static str = "ambient_sound_night";
pub const AMBIENT_SOUND_RAIN: &'static str = "ambient_sound_rain";
pub const GAME_MUSIC: &'static str = "game_music";

/// The first scene of a new game.
pub const GAME_SCENE_INTRO: &'static str = "game_scenes/intro_stage";

} // verus!
