use vstd::prelude::*;

verus! {

/// Header of one bin in the scene encoding.
#[derive(Copy, Clone, Debug, Default)]
pub struct BinHeader {
    pub element_count: u32,
    pub chunk_offset: u32,
}

} // verus!
