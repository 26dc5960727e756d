pub mod endian;
pub mod index;
pub mod stack;
pub mod text;
