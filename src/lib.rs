//! Quantization-grid arithmetic for a bit-depth reducer with fractional depth.
//!
//! The crusher blends two quantizers that sit at the two whole bit depths
//! around the requested (fractional) depth. This crate owns the integer side
//! of that arrangement: how many levels a whole depth gives, the lower clamp
//! that keeps every quantizer at one level or more, and the pair of level
//! counts that a fractional depth selects; and the record of the crusher's two
//! switch controls, which says which of them a host update changed.

mod levels;
mod switches;

pub use levels::{
    clamped_bits, depth_levels, lemma_level_count_monotone, lemma_level_count_positive, level_count,
    levels_for_bits, DepthLevels, DEFAULT_BITS, MAX_BITS, MIN_BITS,
};
pub use switches::{SwitchChanges, Switches};
