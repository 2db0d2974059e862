//! Prints a summary of the host machine beside an ASCII-art logo: a small
//! layout engine that merges a block of styled art lines with a block of
//! "label: value" info lines into a two-column display.
pub mod art;
pub mod duration;
pub mod gpu;
pub mod info;
pub mod packages;
pub mod render;
pub mod style;
pub mod text;
