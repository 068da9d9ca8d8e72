//! Index, size and order bookkeeping of a discrete fractional Fourier transform.
//!
//! The numeric work (forward transforms, chirps, sinc samples) is done on
//! complex floating-point samples by the caller; this crate decides which
//! elementary steps run, how buffers are sized, and how samples move between
//! positions, and proves those decisions correct.
pub mod capacity;
pub mod order;
pub mod layout;
pub mod geometry;
pub mod session;
