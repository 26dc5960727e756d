pub mod common;
pub mod dynamic_mem;
pub mod static_mem;

pub use common::{DynamicMemory, GrowableContiguousMemory, Memory, Pointer, StorageResult};
pub use dynamic_mem::ContextHeap;
pub use static_mem::StaticMemory;
