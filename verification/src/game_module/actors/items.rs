use vstd::prelude::*;

pub mod api;

verus! {

/// The kinds of item of the first item model.
#[derive(Clone, Copy, Debug, PartialEq, Eq, Structural)]
pub enum ItemDataType {
    Meat,
}

/// The data an item of the first model is made from.
pub struct ItemData {
    pub _item_type: ItemDataType,
    pub _model_data_name: String,
}

impl Default for ItemData {
    fn default() -> (r: Self)
        ensures
            r._item_type == ItemDataType::Meat,
            r._model_data_name@ == Seq::<char>::empty(),
    {
        ItemData { _item_type: ItemDataType::Meat, _model_data_name: String::new() }
    }
}

} // verus!
