//! A fixed-size grid of cells that are coloured in, one click at a time, from a small palette.

pub mod color;
pub mod field;
pub mod layout;
pub mod palette;
pub mod random;
pub mod shaders;
