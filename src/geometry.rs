//! Buffer sizes of one transform instance, fixed by the signal length.
use vstd::prelude::*;
use crate::capacity::{conv_length, is_least_power_of_two_at_least};

verus! {

/// Largest signal length accepted, so that every derived size fits in memory
/// arithmetic.
pub const MAX_SIGNAL_LEN: usize = 0x100_0000;

/// The sizes derived from a signal length `n`, with `2 <= n <= MAX_SIGNAL_LEN`
/// (interpolation needs two samples).
#[derive(Clone, Copy, Debug)]
pub struct Geometry {
    n: usize,
}

impl Geometry {
    #[verifier::type_invariant]
    spec fn valid(self) -> bool {
        2 <= self.n <= MAX_SIGNAL_LEN
    }

    /// The signal length.
    pub closed spec fn samples(self) -> int {
        self.n as int
    }

    /// The geometry for signals of `len` samples; `None` when `len < 2` or
    /// `len > MAX_SIGNAL_LEN`.
    pub fn new(len: usize) -> (r: Option<Geometry>)
        ensures
            r.is_some() == (2 <= len <= MAX_SIGNAL_LEN),
            r.is_some() ==> r.unwrap().samples() == len,
    {
        if 2 <= len && len <= MAX_SIGNAL_LEN {
            Some(Geometry { n: len })
        } else {
            None
        }
    }

    /// The signal length.
    pub fn len(&self) -> (r: usize)
        ensures
            r == self.samples(),
            2 <= r <= MAX_SIGNAL_LEN,
    {
        proof {
            use_type_invariant(self);
        }
        self.n
    }

    /// The rotation that centres the buffer for the ordinary transform.
    pub fn half(&self) -> (r: usize)
        ensures
            r == self.samples() / 2,
    {
        self.n / 2
    }

    /// Length of the signal at double density: `2n - 1`.
    pub fn upsampled_len(&self) -> (r: usize)
        ensures
            r == 2 * self.samples() - 1,
    {
        proof {
            use_type_invariant(self);
        }
        2 * self.n - 1
    }

    /// The sinc kernel of the interpolation is sampled at `x / 2` for the
    /// offsets `x` in `[-w, w]`, with `w = 2n - 3`.
    pub fn sinc_half_width(&self) -> (r: usize)
        ensures
            r == 2 * self.samples() - 3,
    {
        proof {
            use_type_invariant(self);
        }
        2 * self.n - 3
    }

    /// Capacity of the interpolation's convolution: the stuffed signal
    /// (`2n - 1` samples) with the sinc kernel (`4n - 5` samples).
    pub fn interp_capacity(&self) -> (r: usize)
        ensures
            is_least_power_of_two_at_least(r as int, 6 * self.samples() - 7),
    {
        proof {
            use_type_invariant(self);
        }
        conv_length(2 * self.n - 1, 4 * self.n - 5)
    }

    /// Where the interpolated signal starts in the linear convolution: the
    /// kernel's centre, `2n - 3`. It runs for `2n - 1` samples.
    pub fn interp_window_start(&self) -> (r: usize)
        ensures
            r == 2 * self.samples() - 3,
    {
        proof {
            use_type_invariant(self);
        }
        2 * self.n - 3
    }

    /// The pre- and post-multiplying chirp is sampled at the offsets
    /// `[-(n - 1), n - 1]`, one per sample of the upsampled signal.
    pub fn chirp_a_half_width(&self) -> (r: usize)
        ensures
            r == self.samples() - 1,
    {
        proof {
            use_type_invariant(self);
        }
        self.n - 1
    }

    /// The convolving chirp is sampled at the offsets `[-(2n - 1), 2n - 1]`.
    pub fn chirp_b_half_width(&self) -> (r: usize)
        ensures
            r == 2 * self.samples() - 1,
    {
        proof {
            use_type_invariant(self);
        }
        2 * self.n - 1
    }

    /// Capacity of the chirp convolutions: a signal half (at most `n`
    /// samples) with a chirp half (at most `2n` samples).
    pub fn engine_capacity(&self) -> (r: usize)
        ensures
            is_least_power_of_two_at_least(r as int, 3 * self.samples() - 1),
    {
        proof {
            use_type_invariant(self);
        }
        conv_length(self.n, 2 * self.n)
    }
}

} // verus!
