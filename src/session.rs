//! The time, frequency and fractional-order buffers of one session.
use vstd::prelude::*;
use crate::geometry::Geometry;

verus! {

/// Three buffers of one fixed length: the signal in time, its ordinary
/// transform and its transform of some fractional order. A recomputation
/// replaces one buffer whole or leaves it as it was.
pub struct Buffers<T> {
    geometry: Geometry,
    time: Vec<T>,
    freq: Vec<T>,
    frac: Vec<T>,
}

impl<T> Buffers<T> {
    /// All three buffers have the geometry's length.
    pub closed spec fn wf(self) -> bool {
        &&& self.time.len() == self.geometry.samples()
        &&& self.freq.len() == self.geometry.samples()
        &&& self.frac.len() == self.geometry.samples()
    }

    /// The buffers' common length.
    pub closed spec fn samples(self) -> int {
        self.geometry.samples()
    }

    pub closed spec fn time_view(self) -> Seq<T> {
        self.time@
    }

    pub closed spec fn freq_view(self) -> Seq<T> {
        self.freq@
    }

    pub closed spec fn frac_view(self) -> Seq<T> {
        self.frac@
    }
}

impl<T: Copy> Buffers<T> {
    /// Three buffers of `geometry`'s length, every sample `zero`.
    pub fn new(geometry: Geometry, zero: T) -> (r: Buffers<T>)
        ensures
            r.wf(),
            r.samples() == geometry.samples(),
            r.time_view() == Seq::new(geometry.samples() as nat, |i: int| zero),
            r.freq_view() == r.time_view(),
            r.frac_view() == r.time_view(),
    {
        let n = geometry.len();
        let mut time: Vec<T> = Vec::new();
        let mut freq: Vec<T> = Vec::new();
        let mut frac: Vec<T> = Vec::new();
        let mut i: usize = 0;
        while i < n
            invariant
                i <= n,
                time.len() == i,
                forall|j: int| 0 <= j < i ==> time@[j] == zero,
                freq@ == time@,
                frac@ == time@,
            decreases n - i,
        {
            time.push(zero);
            freq.push(zero);
            frac.push(zero);
            i = i + 1;
        }
        assert(time@ =~= Seq::new(geometry.samples() as nat, |i: int| zero));
        Buffers { geometry, time, freq, frac }
    }

    /// The buffers' common length.
    pub fn len(&self) -> (r: usize)
        requires
            self.wf(),
        ensures
            r == self.samples(),
            r >= 2,
    {
        self.geometry.len()
    }

    pub fn geometry(&self) -> (r: Geometry)
        requires
            self.wf(),
        ensures
            r.samples() == self.samples(),
    {
        self.geometry
    }

    pub fn time(&self) -> (r: &Vec<T>)
        requires
            self.wf(),
        ensures
            r@ == self.time_view(),
            r@.len() == self.samples(),
    {
        &self.time
    }

    pub fn freq(&self) -> (r: &Vec<T>)
        requires
            self.wf(),
        ensures
            r@ == self.freq_view(),
            r@.len() == self.samples(),
    {
        &self.freq
    }

    pub fn frac(&self) -> (r: &Vec<T>)
        requires
            self.wf(),
        ensures
            r@ == self.frac_view(),
            r@.len() == self.samples(),
    {
        &self.frac
    }

    /// Writes one sample of the time buffer; `false`, with nothing changed,
    /// when `i` is out of range.
    pub fn set_time_sample(&mut self, i: usize, x: T) -> (ok: bool)
        requires
            old(self).wf(),
        ensures
            final(self).wf(),
            ok == (i < old(self).samples()),
            final(self).samples() == old(self).samples(),
            ok ==> final(self).time_view() == old(self).time_view().update(i as int, x),
            !ok ==> final(self).time_view() == old(self).time_view(),
            final(self).freq_view() == old(self).freq_view(),
            final(self).frac_view() == old(self).frac_view(),
    {
        if i < self.time.len() {
            self.time.set(i, x);
            true
        } else {
            false
        }
    }

    /// Replaces the time buffer with `v`; `false`, with nothing changed,
    /// when `v` has another length.
    pub fn replace_time(&mut self, v: Vec<T>) -> (ok: bool)
        requires
            old(self).wf(),
        ensures
            final(self).wf(),
            ok == (v@.len() == old(self).samples()),
            final(self).samples() == old(self).samples(),
            final(self).time_view() == (if ok { v@ } else { old(self).time_view() }),
            final(self).freq_view() == old(self).freq_view(),
            final(self).frac_view() == old(self).frac_view(),
    {
        if v.len() == self.geometry.len() {
            self.time = v;
            true
        } else {
            false
        }
    }

    /// Replaces the frequency buffer with `v`; `false`, with nothing changed,
    /// when `v` has another length.
    pub fn replace_freq(&mut self, v: Vec<T>) -> (ok: bool)
        requires
            old(self).wf(),
        ensures
            final(self).wf(),
            ok == (v@.len() == old(self).samples()),
            final(self).samples() == old(self).samples(),
            final(self).freq_view() == (if ok { v@ } else { old(self).freq_view() }),
            final(self).time_view() == old(self).time_view(),
            final(self).frac_view() == old(self).frac_view(),
    {
        if v.len() == self.geometry.len() {
            self.freq = v;
            true
        } else {
            false
        }
    }

    /// Replaces the fractional-order buffer with `v`; `false`, with nothing
    /// changed, when `v` has another length.
    pub fn replace_frac(&mut self, v: Vec<T>) -> (ok: bool)
        requires
            old(self).wf(),
        ensures
            final(self).wf(),
            ok == (v@.len() == old(self).samples()),
            final(self).samples() == old(self).samples(),
            final(self).frac_view() == (if ok { v@ } else { old(self).frac_view() }),
            final(self).time_view() == old(self).time_view(),
            final(self).freq_view() == old(self).freq_view(),
    {
        if v.len() == self.geometry.len() {
            self.frac = v;
            true
        } else {
            false
        }
    }
}

} // verus!
