//! A small waveform display: a one-dimensional array of sample values, one per
//! pixel column, is drawn into an RGBA frame buffer as a scatter of teal
//! pixels on a black background. Samples come either from the bytes of a file
//! (padded with a mid-range default) or from uniform random draws.

use vstd::prelude::*;

pub mod render;
pub mod samples;

verus! {

/// Number of sample columns, one per horizontal pixel.
pub const WIDTH: usize = 1024;

/// Number of pixel rows in the display.
pub const HEIGHT: usize = 256;

/// Default sample value for columns past the end of a short input file:
/// the mid-range of an unsigned byte.
pub const FILL_VALUE: u8 = 127;

} // verus!
