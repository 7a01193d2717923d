use vstd::prelude::*;

verus! {

/// The kinds of terrain block.
#[derive(Clone, Copy, Debug, PartialEq, Eq, Structural)]
pub enum BlockDataType {
    Ground,
}

/// The data a terrain block is made from.
pub struct BlockData {
    pub _block_type: BlockDataType,
    pub _model_data_name: String,
    pub _max_hp: i32,
}

impl Default for BlockData {
    fn default() -> (r: Self)
        ensures
            r._block_type == BlockDataType::Ground,
            r._model_data_name@ == Seq::<char>::empty(),
            r._max_hp == 0,
    {
        BlockData { _block_type: BlockDataType::Ground, _model_data_name: String::new(), _max_hp: 0 }
    }
}

} // verus!
