//! Transform orders and their reduction to elementary steps.
//!
//! An order is a real number held in fixed point (`TICKS_PER_UNIT` ticks per
//! unit). The transform is periodic with period 4, so only the phase of the
//! order modulo 4 matters. Orders 0, 1, 2 and 3 are carried out exactly by
//! elementary steps; every other order is reduced by such steps to a residual
//! order in the interval [1/2, 3/2] (never 1), where the chirp algorithm is
//! well conditioned.
use vstd::prelude::*;

verus! {

/// Ticks per unit of order: orders have a resolution of 2^-32.
pub const TICKS_PER_UNIT: u64 = 4294967296;

/// Ticks in one period of the transform (order 4).
pub const TICKS_PER_PERIOD: u64 = 17179869184;

pub open spec fn unit() -> int {
    TICKS_PER_UNIT as int
}

pub open spec fn period() -> int {
    TICKS_PER_PERIOD as int
}

/// A transform order, `ticks / TICKS_PER_UNIT`.
#[derive(Clone, Copy, Debug, PartialEq, Eq)]
pub struct Order {
    pub ticks: i64,
}

/// An elementary step whose effect is known exactly.
#[derive(Clone, Copy, Debug, PartialEq, Eq, Structural)]
pub enum Step {
    /// The ordinary forward transform taken about the centre of the buffer
    /// (order 1, up to a scale factor).
    CenteredTransform,
    /// Sample `k` moves to position `-k` modulo the length (order 2).
    Reversal,
}

/// What is left to do for an order once it is reduced.
#[derive(Debug)]
pub struct Reduction {
    /// Elementary steps to apply first, in this order.
    pub steps: Vec<Step>,
    /// The residual order in ticks, when the chirp algorithm has to follow;
    /// `None` when the steps alone carry out the order.
    pub residual: Option<u64>,
    /// The steps call for an energy scale correction of `len^scale_exponent`.
    pub scale_exponent: i8,
}

impl Order {
    /// The phase of the order within one period, in ticks: in `[0, period())`.
    pub open spec fn phase(self) -> int {
        self.ticks as int % period()
    }

    pub fn new(ticks: i64) -> (r: Order)
        ensures
            r.ticks == ticks,
    {
        Order { ticks }
    }

    /// The phase of the order within one period, in ticks.
    pub fn phase_ticks(&self) -> (r: u64)
        ensures
            r as int == self.phase(),
            r < TICKS_PER_PERIOD,
    {
        if self.ticks >= 0 {
            (self.ticks as u64) % TICKS_PER_PERIOD
        } else {
            let below: u64 = (-(self.ticks + 1)) as u64;
            let m: u64 = below % TICKS_PER_PERIOD;
            proof {
                let t = self.ticks as int;
                let q = below as int / period();
                vstd::arithmetic::div_mod::lemma_fundamental_div_mod(below as int, period());
                assert(t == (-q - 1) * period() + (period() - 1 - m)) by (nonlinear_arith)
                    requires
                        below as int == period() * q + m,
                        t == -(below as int) - 1,
                ;
                vstd::arithmetic::div_mod::lemma_mod_multiples_vanish(
                    -q - 1,
                    period() - 1 - m,
                    period(),
                );
                vstd::arithmetic::div_mod::lemma_small_mod((period() - 1 - m) as nat, period() as nat);
                assert(t % period() == ((-q - 1) * period() + (period() - 1 - m)) % period());
            }
            TICKS_PER_PERIOD - 1 - m
        }
    }
}

/// The order contributed by one elementary step, in units.
pub open spec fn step_weight(s: Step) -> int {
    match s {
        Step::CenteredTransform => 1,
        Step::Reversal => 2,
    }
}

/// The order contributed by a list of steps, in units.
pub open spec fn steps_weight(s: Seq<Step>) -> int
    decreases s.len(),
{
    if s.len() == 0 {
        0
    } else {
        steps_weight(s.drop_last()) + step_weight(s.last())
    }
}

/// Whether the chirp algorithm runs for phase `r`: every phase but the four
/// whole orders.
pub open spec fn runs_chirp(r: int) -> bool {
    r % unit() != 0
}

/// The elementary steps for phase `r` (in ticks, `0 <= r < period()`).
///
/// Whole orders: 0 is the identity, 1 the centred transform, 2 the reversal,
/// 3 the centred transform and then the reversal. Other orders: above 2 the
/// reversal is pending and 2 is taken off; then above 3/2 one centred
/// transform takes 1 off, and below 1/2 one centred transform adds 1 and
/// toggles the pending reversal, which runs last.
pub open spec fn planned_steps(r: int) -> Seq<Step> {
    let u = unit();
    let c = Step::CenteredTransform;
    let z = Step::Reversal;
    if r == 0 {
        seq![]
    } else if r == u {
        seq![c]
    } else if r == 2 * u {
        seq![z]
    } else if r == 3 * u {
        seq![c, z]
    } else if r < u / 2 {
        seq![c, z]
    } else if r <= 3 * u / 2 {
        seq![]
    } else if r < 2 * u {
        seq![c]
    } else if r < 5 * u / 2 {
        seq![c]
    } else if r <= 7 * u / 2 {
        seq![z]
    } else {
        seq![c, z]
    }
}

/// The residual order for phase `r`, in ticks, where the chirp algorithm runs.
pub open spec fn planned_residual(r: int) -> int {
    let u = unit();
    if r < u / 2 {
        r + u
    } else if r <= 3 * u / 2 {
        r
    } else if r < 5 * u / 2 {
        r - u
    } else if r <= 7 * u / 2 {
        r - 2 * u
    } else {
        r - 3 * u
    }
}

/// The energy scale exponent picked up by the steps for phase `r`: a centred
/// transform for the whole orders 1 and 3, or taken for a phase above 3/2
/// after any reversal, counts -1; one taken for a phase below 1/2 counts +1.
pub open spec fn planned_scale(r: int) -> int {
    let u = unit();
    if r == u || r == 3 * u {
        -1
    } else if !runs_chirp(r) {
        0
    } else if r < u / 2 {
        1
    } else if r <= 3 * u / 2 {
        0
    } else if r < 2 * u {
        -1
    } else if r < 5 * u / 2 {
        1
    } else if r <= 7 * u / 2 {
        0
    } else {
        -1
    }
}

/// Reduces `order` to elementary steps and, unless it is a whole order, a
/// residual order for the chirp algorithm.
pub fn reduce(order: Order) -> (r: Reduction)
    ensures
        r.steps@ == planned_steps(order.phase()),
        r.residual.is_some() == runs_chirp(order.phase()),
        r.residual.is_some() ==> r.residual.unwrap() as int == planned_residual(order.phase()),
        r.scale_exponent as int == planned_scale(order.phase()),
{
    let u: u64 = TICKS_PER_UNIT;
    let mut a: u64 = order.phase_ticks();
    let mut steps: Vec<Step> = Vec::new();
    if a == 0 {
        Reduction { steps, residual: None, scale_exponent: 0 }
    } else if a == u {
        steps.push(Step::CenteredTransform);
        Reduction { steps, residual: None, scale_exponent: -1 }
    } else if a == 2 * u {
        steps.push(Step::Reversal);
        Reduction { steps, residual: None, scale_exponent: 0 }
    } else if a == 3 * u {
        steps.push(Step::CenteredTransform);
        steps.push(Step::Reversal);
        Reduction { steps, residual: None, scale_exponent: -1 }
    } else {
        let mut scale: i8 = 0;
        let mut reverse = false;
        if a > 2 * u {
            a = a - 2 * u;
            reverse = true;
        }
        if a > 3 * u / 2 {
            a = a - u;
            steps.push(Step::CenteredTransform);
            scale = scale - 1;
        }
        if a < u / 2 {
            a = a + u;
            steps.push(Step::CenteredTransform);
            reverse = !reverse;
            scale = scale + 1;
        }
        if reverse {
            steps.push(Step::Reversal);
        }
        assert(steps@ == planned_steps(order.phase()));
        Reduction { steps, residual: Some(a), scale_exponent: scale }
    }
}

/// The reduction accounts for the whole order: the steps' orders plus the
/// residual order (none for a whole order) equal the phase modulo 4, and the
/// residual lies in [1/2, 3/2] but is never 1, where the chirp algorithm has
/// no singularity.
pub proof fn lemma_reduction_accounts_for_order(r: int)
    requires
        0 <= r < period(),
    ensures
        (steps_weight(planned_steps(r)) * unit() + (if runs_chirp(r) {
            planned_residual(r)
        } else {
            0
        })) % period() == r,
        runs_chirp(r) ==> unit() / 2 <= planned_residual(r) <= 3 * unit() / 2,
        runs_chirp(r) ==> planned_residual(r) != unit(),
{
    let c = Step::CenteredTransform;
    let z = Step::Reversal;
    reveal_with_fuel(steps_weight, 3);
    assert(seq![c].drop_last() =~= Seq::<Step>::empty());
    assert(seq![z].drop_last() =~= Seq::<Step>::empty());
    assert(seq![c, z].drop_last() =~= seq![c]);
    assert(steps_weight(seq![c]) == 1);
    assert(steps_weight(seq![z]) == 2);
    assert(steps_weight(seq![c, z]) == 3);
    let s = planned_steps(r);
    let total = steps_weight(s) * unit() + (if runs_chirp(r) { planned_residual(r) } else { 0 });
    if total >= period() {
        vstd::arithmetic::div_mod::lemma_mod_multiples_vanish(1, r, period());
        assert(total == period() + r);
    } else {
        vstd::arithmetic::div_mod::lemma_small_mod(total as nat, period() as nat);
    }
}

/// Order 0 is the identity: no step and no chirp stage.
pub proof fn lemma_zero_order_is_identity(o: Order)
    requires
        o.phase() == 0,
    ensures
        planned_steps(o.phase()) == Seq::<Step>::empty(),
        !runs_chirp(o.phase()),
        planned_scale(o.phase()) == 0,
{
    assert(planned_steps(o.phase()) =~= Seq::<Step>::empty());
}

/// Order 1 is the centred forward transform alone, whose energy scale is
/// `1/len`.
pub proof fn lemma_unit_order_is_centered_transform(o: Order)
    requires
        o.phase() == unit(),
    ensures
        planned_steps(o.phase()) == seq![Step::CenteredTransform],
        !runs_chirp(o.phase()),
        planned_scale(o.phase()) == -1,
{
}

} // verus!
