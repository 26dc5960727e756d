use vstd::prelude::*;
use crate::util::endian::{be_bytes, encode};

verus! {

/// The position of an allocation within a heap.
#[derive(Debug, PartialEq, Eq, Clone, Copy, Structural)]
pub struct HeapIndex(pub u64);

impl HeapIndex {
    /// The eight bytes of the position, most significant first.
    pub fn be_bytes(&self) -> (r: Vec<u8>)
        ensures
            r@ == be_bytes(self.0 as nat, 8),
    {
        encode(self.0, 8)
    }
}

} // verus!
