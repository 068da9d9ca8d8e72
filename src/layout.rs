//! How samples move between buffer positions.
//!
//! These functions are generic over the sample type: they only move samples
//! and fill gaps with a given zero sample, so their effect is stated exactly
//! over the buffers' sequences.
use vstd::prelude::*;
use crate::order::{Order, Step, planned_steps, planned_scale, runs_chirp, unit};

verus! {

/// `s` rotated right by `k` positions: the sample at `i` moves to `i + k`,
/// modulo the length.
pub open spec fn rotated_right<T>(s: Seq<T>, k: int) -> Seq<T> {
    Seq::new(s.len(), |i: int| s[(i - k) % (s.len() as int)])
}

/// `s` reversed about position 0: the sample at `i` moves to `-i`, modulo the
/// length, so position 0 keeps its sample.
pub open spec fn reversed_about_origin<T>(s: Seq<T>) -> Seq<T> {
    Seq::new(s.len(), |i: int| s[(s.len() - i) % (s.len() as int)])
}

/// `s` with `zero` placed between each two neighbouring samples: position
/// `2k` holds sample `k`, odd positions hold `zero`.
pub open spec fn zero_stuffed<T>(s: Seq<T>, zero: T) -> Seq<T> {
    Seq::new(
        (2 * s.len() - 1) as nat,
        |i: int|
            if i % 2 == 0 {
                s[i / 2]
            } else {
                zero
            },
    )
}

/// The samples of `s` at even positions.
pub open spec fn evens<T>(s: Seq<T>) -> Seq<T> {
    Seq::new((s.len() + 1) / 2, |i: int| s[2 * i])
}

/// The samples of `s` at odd positions.
pub open spec fn odds<T>(s: Seq<T>) -> Seq<T> {
    Seq::new(s.len() / 2, |i: int| s[2 * i + 1])
}

/// `s` cut or filled with `zero` to `len` samples.
pub open spec fn padded<T>(s: Seq<T>, zero: T, len: nat) -> Seq<T> {
    Seq::new(
        len,
        |i: int|
            if i < s.len() {
                s[i]
            } else {
                zero
            },
    )
}

/// `count` samples of `s` read from position `start` on in reverse index
/// order: item `j` is the sample at `-(start + j)`, modulo the length.
///
/// A forward transform applied twice maps position `j` to `-j` (and scales
/// by the length), so this read completes an inverse transform.
pub open spec fn read_reversed<T>(s: Seq<T>, start: int, count: nat) -> Seq<T> {
    Seq::new(count, |j: int| s[(-(start + j)) % (s.len() as int)])
}

/// The integer offsets `-w, ..., w`.
pub open spec fn symmetric_offsets(w: int) -> Seq<int> {
    Seq::new((2 * w + 1) as nat, |i: int| i - w)
}

proof fn lemma_wrap_index(i: int, k: int, n: int)
    requires
        0 <= i < n,
        0 < n,
    ensures
        (i - k) % n == (if i >= k % n {
            i - k % n
        } else {
            i + n - k % n
        }),
{
    vstd::arithmetic::div_mod::lemma_fundamental_div_mod(k, n);
    vstd::arithmetic::div_mod::lemma_mod_bound(k, n);
    let q = k / n;
    let m = k % n;
    assert(i - k == -q * n + (i - m)) by (nonlinear_arith)
        requires
            k == n * q + m,
    ;
    vstd::arithmetic::div_mod::lemma_mod_multiples_vanish(-q, i - m, n);
    if i >= m {
        vstd::arithmetic::div_mod::lemma_small_mod((i - m) as nat, n as nat);
    } else {
        vstd::arithmetic::div_mod::lemma_mod_multiples_vanish(-1, i + n - m, n);
        vstd::arithmetic::div_mod::lemma_small_mod((i + n - m) as nat, n as nat);
    }
}

/// Rotates `v` right by `k` positions.
pub fn rotate_right<T: Copy>(v: &mut Vec<T>, k: usize)
    ensures
        final(v)@ == rotated_right(old(v)@, k as int),
{
    let n = v.len();
    if n == 0 {
        assert(v@ =~= rotated_right(old(v)@, k as int));
        return;
    }
    let shift: usize = k % n;
    let mut out: Vec<T> = Vec::new();
    let mut i: usize = 0;
    while i < n
        invariant
            n == v.len(),
            0 < n,
            shift == k % n,
            v@ == old(v)@,
            i <= n,
            out.len() == i,
            forall|j: int| 0 <= j < i ==> out@[j] == v@[(j - k) % (n as int)],
        decreases n - i,
    {
        let from: usize = if i >= shift {
            i - shift
        } else {
            n - (shift - i)
        };
        proof {
            lemma_wrap_index(i as int, k as int, n as int);
        }
        out.push(v[from]);
        i = i + 1;
    }
    assert(out@ =~= rotated_right(old(v)@, k as int));
    *v = out;
}

/// Reverses `v` about position 0: the sample at `i` moves to `-i`, modulo the
/// length.
pub fn reverse_about_origin<T: Copy>(v: &mut Vec<T>)
    ensures
        final(v)@ == reversed_about_origin(old(v)@),
{
    let n = v.len();
    let mut out: Vec<T> = Vec::new();
    let mut i: usize = 0;
    while i < n
        invariant
            n == v.len(),
            v@ == old(v)@,
            i <= n,
            out.len() == i,
            forall|j: int| 0 <= j < i ==> out@[j] == v@[(n - j) % (n as int)],
        decreases n - i,
    {
        let from: usize = if i == 0 {
            0
        } else {
            n - i
        };
        proof {
            if i == 0 {
                vstd::arithmetic::div_mod::lemma_mod_self_0(n as int);
            } else {
                vstd::arithmetic::div_mod::lemma_small_mod((n - i) as nat, n as nat);
            }
        }
        out.push(v[from]);
        i = i + 1;
    }
    assert(out@ =~= reversed_about_origin(old(v)@));
    *v = out;
}

/// Applying the reversal about position 0 twice gives back the input
/// samples.
pub proof fn lemma_reversal_is_involution<T>(s: Seq<T>)
    ensures
        reversed_about_origin(reversed_about_origin(s)) == s,
{
    let n = s.len() as int;
    let r = reversed_about_origin(s);
    assert forall|i: int| 0 <= i < n implies reversed_about_origin(r)[i] == s[i] by {
        if i == 0 {
            vstd::arithmetic::div_mod::lemma_mod_self_0(n);
        } else {
            vstd::arithmetic::div_mod::lemma_small_mod((n - i) as nat, n as nat);
            vstd::arithmetic::div_mod::lemma_small_mod(i as nat, n as nat);
        }
    }
    assert(reversed_about_origin(r) =~= s);
}

/// `s` with `zero` placed between each two neighbouring samples.
pub fn zero_stuff<T: Copy>(s: &Vec<T>, zero: T) -> (r: Vec<T>)
    requires
        s.len() >= 1,
        2 * s.len() - 1 <= usize::MAX,
    ensures
        r@ == zero_stuffed(s@, zero),
{
    let n = s.len();
    let mut out: Vec<T> = Vec::new();
    out.push(s[0]);
    let mut k: usize = 1;
    while k < n
        invariant
            n == s.len(),
            1 <= k <= n,
            2 * n - 1 <= usize::MAX,
            out.len() == 2 * k - 1,
            forall|j: int| 0 <= j < 2 * k - 1 ==> out@[j] == zero_stuffed(s@, zero)[j],
        decreases n - k,
    {
        out.push(zero);
        out.push(s[k]);
        proof {
            let j0 = 2 * k - 1;
            let j1 = 2 * k;
            assert(j0 % 2 == 1 && j1 % 2 == 0 && j1 / 2 == k) by (nonlinear_arith)
                requires
                    j0 == 2 * k - 1,
                    j1 == 2 * k,
            ;
        }
        k = k + 1;
    }
    assert(out@ =~= zero_stuffed(s@, zero));
    out
}

/// Splits `s` into its samples at even positions and those at odd positions.
pub fn deinterleave<T: Copy>(s: &Vec<T>) -> (r: (Vec<T>, Vec<T>))
    ensures
        r.0@ == evens(s@),
        r.1@ == odds(s@),
{
    let n = s.len();
    let mut even: Vec<T> = Vec::new();
    let mut odd: Vec<T> = Vec::new();
    let mut i: usize = 0;
    while i < n
        invariant
            n == s.len(),
            i <= n,
            even.len() == (i + 1) / 2,
            odd.len() == i / 2,
            forall|j: int| 0 <= j < even.len() ==> even@[j] == s@[2 * j],
            forall|j: int| 0 <= j < odd.len() ==> odd@[j] == s@[2 * j + 1],
        decreases n - i,
    {
        if i % 2 == 0 {
            even.push(s[i]);
        } else {
            odd.push(s[i]);
        }
        i = i + 1;
    }
    assert(even@ =~= evens(s@));
    assert(odd@ =~= odds(s@));
    (even, odd)
}

/// Fills `pad` with `zero` and then copies the leading samples of `s` into
/// it; samples of `s` beyond the length of `pad` are left out.
pub fn pad_into<T: Copy>(s: &[T], zero: T, pad: &mut Vec<T>)
    ensures
        final(pad)@ == padded(s@, zero, old(pad)@.len()),
{
    let n = pad.len();
    let mut i: usize = 0;
    while i < n
        invariant
            n == pad.len(),
            n == old(pad)@.len(),
            i <= n,
            forall|j: int| 0 <= j < i ==> pad@[j] == padded(s@, zero, n as nat)[j],
        decreases n - i,
    {
        if i < s.len() {
            pad.set(i, s[i]);
        } else {
            pad.set(i, zero);
        }
        i = i + 1;
    }
    assert(pad@ =~= padded(s@, zero, old(pad)@.len()));
}

/// Reads `count` samples of `s` from position `start` on in reverse index
/// order; see `read_reversed`.
pub fn read_back<T: Copy>(s: &Vec<T>, start: usize, count: usize) -> (r: Vec<T>)
    requires
        s.len() > 0,
    ensures
        r@ == read_reversed(s@, start as int, count as nat),
{
    let n = s.len();
    let first: usize = start % n;
    let mut pos: usize = if first == 0 {
        0
    } else {
        n - first
    };
    let mut out: Vec<T> = Vec::new();
    let mut j: usize = 0;
    proof {
        vstd::arithmetic::div_mod::lemma_fundamental_div_mod(start as int, n as int);
        vstd::arithmetic::div_mod::lemma_mod_bound(start as int, n as int);
        let q = start as int / n as int;
        assert(-(start as int) == -(q + 1) * n + (n - first)) by (nonlinear_arith)
            requires
                start as int == n * q + first,
        ;
        vstd::arithmetic::div_mod::lemma_mod_multiples_vanish(
            -(q + 1),
            n - first,
            n as int,
        );
        if first == 0 {
            vstd::arithmetic::div_mod::lemma_mod_self_0(n as int);
        } else {
            vstd::arithmetic::div_mod::lemma_small_mod((n - first) as nat, n as nat);
        }
    }
    while j < count
        invariant
            n == s.len(),
            0 < n,
            j <= count,
            pos < n,
            pos as int == (-(start + j)) % (n as int),
            out.len() == j,
            forall|i: int| 0 <= i < j ==> out@[i] == read_reversed(s@, start as int, count as nat)[i],
        decreases count - j,
    {
        out.push(s[pos]);
        proof {
            let next = if pos == 0 { n - 1 } else { pos - 1 };
            let m = (-(start + j)) as int;
            vstd::arithmetic::div_mod::lemma_fundamental_div_mod(m, n as int);
            let q = m / n as int;
            assert(m - 1 == q * n + (pos - 1)) by (nonlinear_arith)
                requires
                    m == n * q + pos,
            ;
            if pos == 0 {
                vstd::arithmetic::div_mod::lemma_mod_multiples_vanish(q - 1, n - 1, n as int);
                assert(m - 1 == (q - 1) * n + (n - 1)) by (nonlinear_arith)
                    requires
                        m - 1 == q * n + (pos - 1),
                        pos == 0,
                ;
                vstd::arithmetic::div_mod::lemma_small_mod((n - 1) as nat, n as nat);
            } else {
                vstd::arithmetic::div_mod::lemma_mod_multiples_vanish(q, pos - 1, n as int);
                vstd::arithmetic::div_mod::lemma_small_mod((pos - 1) as nat, n as nat);
            }
            assert((-(start + j + 1)) as int == m - 1);
            assert(next as int == (m - 1) % (n as int));
        }
        pos = if pos == 0 {
            n - 1
        } else {
            pos - 1
        };
        j = j + 1;
    }
    assert(out@ =~= read_reversed(s@, start as int, count as nat));
    out
}

/// The integer offsets `-w, ..., w`, at which convolution kernels are
/// sampled.
pub fn offsets(w: usize) -> (r: Vec<i64>)
    requires
        w <= 0x3fff_ffff_ffff_ffff,
    ensures
        r@.len() == 2 * w + 1,
        forall|i: int| 0 <= i < r@.len() ==> r@[i] as int == symmetric_offsets(w as int)[i],
{
    let top: i64 = w as i64;
    let mut x: i64 = -top;
    let mut out: Vec<i64> = Vec::new();
    while x <= top
        invariant
            top == w as int,
            top <= 0x3fff_ffff_ffff_ffff,
            -top <= x <= top + 1,
            out.len() == x + top,
            forall|i: int| 0 <= i < out.len() ==> out@[i] as int == i - top,
        decreases top + 1 - x,
    {
        out.push(x);
        x = x + 1;
    }
    out
}

/// Zero-stuffing and deinterleaving undo each other: the even positions hold
/// the input samples and the odd positions only the zero sample.
pub proof fn lemma_deinterleave_zero_stuffed<T>(s: Seq<T>, zero: T)
    requires
        s.len() >= 1,
    ensures
        evens(zero_stuffed(s, zero)) == s,
        odds(zero_stuffed(s, zero)) == Seq::new((s.len() - 1) as nat, |i: int| zero),
{
    let z = zero_stuffed(s, zero);
    assert forall|i: int| 0 <= i < s.len() implies evens(z)[i] == s[i] by {
        assert((2 * i) % 2 == 0 && (2 * i) / 2 == i) by (nonlinear_arith);
    }
    assert forall|i: int| 0 <= i < s.len() - 1 implies odds(z)[i] == zero by {
        assert((2 * i + 1) % 2 == 1) by (nonlinear_arith);
    }
    assert(evens(z) =~= s);
    assert(odds(z) =~= Seq::new((s.len() - 1) as nat, |i: int| zero));
}

/// Rotating right by half the length twice gives back an even-length buffer:
/// the rotation about the centre that surrounds the centred transform is
/// undone by the same rotation.
pub proof fn lemma_half_rotation_twice<T>(s: Seq<T>)
    requires
        s.len() % 2 == 0,
    ensures
        rotated_right(rotated_right(s, (s.len() / 2) as int), (s.len() / 2) as int) == s,
{
    let n = s.len() as int;
    let h = n / 2;
    let once = rotated_right(s, h);
    if n > 0 {
        assert forall|i: int| 0 <= i < n implies rotated_right(once, h)[i] == s[i] by {
            vstd::arithmetic::div_mod::lemma_mod_bound(i - h, n);
            let a = (i - h) % n;
            vstd::arithmetic::div_mod::lemma_fundamental_div_mod(i - h, n);
            vstd::arithmetic::div_mod::lemma_fundamental_div_mod(a - h, n);
            vstd::arithmetic::div_mod::lemma_mod_bound(a - h, n);
            let q1 = (i - h) / n;
            let q2 = (a - h) / n;
            assert(i == n * (q1 + q2 + 1) + (a - h) % n) by (nonlinear_arith)
                requires
                    i - h == n * q1 + a,
                    a - h == n * q2 + (a - h) % n,
                    n == 2 * h,
            ;
            assert(q1 + q2 + 1 == 0) by (nonlinear_arith)
                requires
                    i == n * (q1 + q2 + 1) + (a - h) % n,
                    0 <= i < n,
                    0 <= (a - h) % n < n,
            ;
        }
    }
    assert(rotated_right(once, h) =~= s);
}

/// Order 2 is the reversal about position 0 alone, and carrying it out twice
/// gives back the input samples.
pub proof fn lemma_order_two_twice_restores<T>(o: Order, s: Seq<T>)
    requires
        o.phase() == 2 * unit(),
    ensures
        planned_steps(o.phase()) == seq![Step::Reversal],
        !runs_chirp(o.phase()),
        planned_scale(o.phase()) == 0,
        reversed_about_origin(reversed_about_origin(s)) == s,
{
    lemma_reversal_is_involution(s);
}

} // verus!
