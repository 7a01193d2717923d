pub mod behavior_base;
pub mod behavior_common;
pub mod behavior_default;
pub mod behavior_civilian;
pub mod behavior_roamer;
pub mod behavior_update;
pub mod roamer_behavior;
