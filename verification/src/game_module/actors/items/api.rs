use vstd::prelude::*;

verus! {

/// The kinds of item a character can pick up, hold and use.
#[derive(Clone, Copy, Debug, PartialEq, Eq, Hash, Structural)]
pub enum ItemDataType {
    Nothing,
    Hand,
    Bow,
    EnergyBall,
    Food,
    Rock,
    SpiritBall,
    MeleeWeapon,
    Spear,
    Wood,
    FishingRod,
}

impl Default for ItemDataType {
    fn default() -> (r: Self)
        ensures
            r == ItemDataType::Nothing,
    {
        ItemDataType::Nothing
    }
}

/// The name of an item kind as the player records count it: the name of
/// its variant, with `None` for no item.
pub open spec fn item_type_name(t: ItemDataType) -> Seq<char> {
    match t {
        ItemDataType::Nothing => "None"@,
        ItemDataType::Hand => "Hand"@,
        ItemDataType::Bow => "Bow"@,
        ItemDataType::EnergyBall => "EnergyBall"@,
        ItemDataType::Food => "Food"@,
        ItemDataType::Rock => "Rock"@,
        ItemDataType::SpiritBall => "SpiritBall"@,
        ItemDataType::MeleeWeapon => "MeleeWeapon"@,
        ItemDataType::Spear => "Spear"@,
        ItemDataType::Wood => "Wood"@,
        ItemDataType::FishingRod => "FishingRod"@,
    }
}

impl ItemDataType {
    /// Only food can be eaten.
    pub fn is_eatable(&self) -> (r: bool)
        ensures
            r == (*self == ItemDataType::Food),
    {
        *self == ItemDataType::Food
    }

    pub fn get_item_type_name(&self) -> (r: &'static str)
        ensures
            r@ == item_type_name(*self),
    {
        match *self {
            ItemDataType::Nothing => "None",
            ItemDataType::Hand => "Hand",
            ItemDataType::Bow => "Bow",
            ItemDataType::EnergyBall => "EnergyBall",
            ItemDataType::Food => "Food",
            ItemDataType::Rock => "Rock",
            ItemDataType::SpiritBall => "SpiritBall",
            ItemDataType::MeleeWeapon => "MeleeWeapon",
            ItemDataType::Spear => "Spear",
            ItemDataType::Wood => "Wood",
            ItemDataType::FishingRod => "FishingRod",
        }
    }
}

} // verus!
