use vstd::prelude::*;
use crate::game_module::actors::items::api::ItemDataType;

verus! {

/// The updater of an ordinary item: it falls to the ground and stays.
#[derive(Clone, Copy, Debug, PartialEq, Eq, Structural, Default)]
pub struct ItemDefaultUpdater {}

/// How an item moves once it is in the world.
#[derive(Clone, Copy, Debug, PartialEq, Eq, Structural)]
pub enum ItemUpdaterKind {
    /// Falls to the ground and stays.
    Default,
    /// Falls to the ground, then floats around where it landed.
    SpiritBall,
}

/// Spirit balls float; every other item just falls.
pub fn create_item_updater(item_type: ItemDataType) -> (r: ItemUpdaterKind)
    ensures
        r == (if item_type == ItemDataType::SpiritBall {
            ItemUpdaterKind::SpiritBall
        } else {
            ItemUpdaterKind::Default
        }),
{
    match item_type {
        ItemDataType::SpiritBall => ItemUpdaterKind::SpiritBall,
        _ => ItemUpdaterKind::Default,
    }
}

} // verus!
