use vstd::prelude::*;

verus! {

/// The weapons a character can hold.
#[derive(Clone, Copy, Debug, PartialEq, Eq, Hash, Structural)]
pub enum WeaponDataType {
    Nothing,
    WoodenClub,
}

impl Default for WeaponDataType {
    fn default() -> (r: Self)
        ensures
            r == WeaponDataType::Nothing,
    {
        WeaponDataType::Nothing
    }
}

/// The icon of a weapon in the interface; none for no weapon.
pub open spec fn weapon_material_instance_name(weapon_data_type: WeaponDataType) -> Seq<char> {
    match weapon_data_type {
        WeaponDataType::WoodenClub => "ui/weapons/wooden_club"@,
        _ => ""@,
    }
}

impl WeaponDataType {
    pub fn get_weapon_material_instance_name(weapon_data_type: &WeaponDataType) -> (r: &'static str)
        ensures
            r@ == weapon_material_instance_name(*weapon_data_type),
    {
        match weapon_data_type {
            WeaponDataType::WoodenClub => "ui/weapons/wooden_club",
            _ => "",
        }
    }
}

} // verus!
