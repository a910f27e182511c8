//! Builds Elektron Octatrack sample chains: a concatenation of mono 16-bit
//! WAV inputs and the `.ot` metadata record that marks each input as a slice.

pub mod bytes;
pub mod chain;
pub mod metadata;
pub mod slicer;
pub mod wav;


pub use metadata::OTSlice;
pub use slicer::Slicer;
