//! Linear frequency sweeps ("chirps") as 16-bit mono PCM: the rules a
//! generator has to follow, apart from the floating-point arithmetic and the
//! file writing themselves.
//!
//! * [`file_name`] decides whether a candidate output name is portable.
//! * [`sweep`] fixes the waveform format and the length of the sample stream.

pub mod file_name;
pub mod sweep;

pub use file_name::{validate_file_name, ValidationError};
pub use sweep::{output_file_name, sample_count};
