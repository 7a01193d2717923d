use vstd::prelude::*;

verus! {

/// The kinds of character of the dinosaur model.
#[derive(Clone, Copy, Debug, PartialEq, Eq, Structural)]
pub enum CharacterDataType {
    AnkyloSaurus,
}

/// The data a character of the dinosaur model is made from.
pub struct CharacterData {
    pub _character_type: CharacterDataType,
    pub _model_data_name: String,
    pub _max_hp: i32,
}

} // verus!
