pub mod block;
pub mod character;
pub mod character_data;
pub mod foods;
pub mod interaction_object;
pub mod item_updater;
pub mod items;
pub mod props;
pub mod scenario;
pub mod weapons;
