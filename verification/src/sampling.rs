//! Where a sampling cursor evaluates its curve: the parameters of one walk
//! over the domain `[0, 1]` at a fixed step.
//!
//! A cursor starts at position `0` and moves on by its step after every
//! sample. It gives a sample for as long as its position is not beyond `1`.
//! The sample taken at a position is evaluated at that position, before the
//! move, unless the move reaches or passes `1`: then it is evaluated at
//! exactly `1`. Positions and steps are counted in units.

use vstd::arithmetic::div_mod::{
    lemma_basic_div, lemma_div_minus_one, lemma_div_pos_is_pos, lemma_fundamental_div_mod,
    lemma_mod_pos_bound,
};
use vstd::arithmetic::mul::{lemma_mul_is_distributive_add_other_way, lemma_mul_nonnegative};
use vstd::prelude::*;
use crate::scalar::{Scalar, UNITS_PER_ONE};

verus! {

/// The parameter of the sample taken at `position`: the position itself
/// while one more step stays below `1`, and exactly `1` from then on, so that
/// the walk ends on the curve's last point whatever the step.
pub open spec fn parameter_at(position: int, step: int) -> Scalar {
    if position + step < UNITS_PER_ONE {
        Scalar { units: position as i64 }
    } else {
        Scalar { units: UNITS_PER_ONE }
    }
}

/// How many samples a cursor at `position` still gives: one for each
/// multiple of `step` that fits between `position` and `1`, both included.
pub open spec fn pending_count(position: int, step: int) -> nat {
    if step <= 0 || position > UNITS_PER_ONE {
        0
    } else {
        ((UNITS_PER_ONE - position) / step + 1) as nat
    }
}

/// The parameters of the samples that a cursor at `position` still gives,
/// in the order in which it gives them.
pub open spec fn pending_parameters(position: int, step: int) -> Seq<Scalar> {
    Seq::new(pending_count(position, step), |k: int| parameter_at(position + k * step, step))
}

/// The parameters of a whole walk at `step`, from position `0`.
pub open spec fn sample_parameters(step: int) -> Seq<Scalar> {
    pending_parameters(0, step)
}

/// A cursor beyond `1` gives nothing more.
pub proof fn lemma_pending_exhausted(position: int, step: int)
    requires
        position > UNITS_PER_ONE,
    ensures
        pending_parameters(position, step) == Seq::<Scalar>::empty(),
{
}

/// A cursor that is not beyond `1` gives the sample of its position, and
/// then what a cursor one step further gives.
pub proof fn lemma_pending_step(position: int, step: int)
    requires
        step > 0,
        position <= UNITS_PER_ONE,
    ensures
        pending_parameters(position, step).len() > 0,
        pending_parameters(position, step)[0] == parameter_at(position, step),
        pending_parameters(position, step).drop_first() == pending_parameters(
            position + step,
            step,
        ),
{
    let room = UNITS_PER_ONE - position;
    let here = pending_parameters(position, step);
    let there = pending_parameters(position + step, step);
    lemma_div_pos_is_pos(room, step);
    if room < step {
        lemma_basic_div(room, step);
    } else {
        lemma_div_minus_one(room, step);
        assert(-step + room == room - step);
        lemma_div_pos_is_pos(room - step, step);
    }
    assert(here.len() == there.len() + 1);
    assert(0 * step == 0);
    assert forall|k: int| 0 <= k < there.len() implies here.drop_first()[k] == there[k] by {
        lemma_mul_is_distributive_add_other_way(step, k, 1);
        assert(position + (k + 1) * step == position + step + k * step);
    }
}

/// A walk at a positive step gives one sample for each multiple of the step
/// in `[0, 1]`. Sample `k` lies at `k` steps while the step after it stays
/// below `1`, and exactly at `1` otherwise.
pub proof fn lemma_sample_parameter(step: int, k: int)
    requires
        step > 0,
        0 <= k <= (UNITS_PER_ONE as int) / step,
    ensures
        sample_parameters(step).len() == (UNITS_PER_ONE as int) / step + 1,
        sample_parameters(step)[k]@ == if (k + 1) * step < UNITS_PER_ONE {
            k * step
        } else {
            UNITS_PER_ONE as int
        },
{
    lemma_div_pos_is_pos(UNITS_PER_ONE as int, step);
    lemma_mul_is_distributive_add_other_way(step, k, 1);
    lemma_mul_nonnegative(k, step);
}

/// A walk at a positive step is never empty, stays inside `[0, 1]`, and
/// ends exactly at `1`, whether or not the step divides `1`. It starts at `0`
/// where the step is below `1`.
pub proof fn lemma_walk_covers_domain(step: int)
    requires
        step > 0,
    ensures
        sample_parameters(step).len() >= 1,
        sample_parameters(step).last()@ == UNITS_PER_ONE,
        step < UNITS_PER_ONE ==> sample_parameters(step).first()@ == 0,
        forall|k: int|
            0 <= k < sample_parameters(step).len() ==> 0 <= (#[trigger] sample_parameters(
                step,
            )[k])@ <= UNITS_PER_ONE,
{
    let one = UNITS_PER_ONE as int;
    let count = one / step;
    assert(count >= 0 && one < (count + 1) * step) by {
        lemma_div_pos_is_pos(one, step);
        lemma_fundamental_div_mod(one, step);
        lemma_mod_pos_bound(one, step);
        lemma_mul_is_distributive_add_other_way(step, count, 1);
        assert(count * step == step * count) by (nonlinear_arith);
    }
    lemma_sample_parameter(step, count);
    lemma_sample_parameter(step, 0);
    assert forall|k: int| 0 <= k < sample_parameters(step).len() implies 0 <= (
    #[trigger] sample_parameters(step)[k])@ <= UNITS_PER_ONE by {
        lemma_sample_parameter(step, k);
        lemma_mul_nonnegative(k, step);
    }
}

} // verus!
