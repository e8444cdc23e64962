//! The antiderivative-antialiasing (ADAA) recurrence.
//!
//! One `Processor` lives per audio channel and is fed one sample per call,
//! strictly in time order. Depending on the antialiasing order, a call either
//! returns the direct transfer-curve evaluation, or replaces it with a first-
//! or second-order divided difference over the curve's antiderivatives, which
//! suppresses the aliasing the bare nonlinearity would introduce. The divided
//! differences break down when a denominator vanishes or when the knee shape
//! moved between calls — the two antiderivative samples are then taken under
//! different curves and their difference quotient is meaningless — so every
//! call first selects an evaluation mode from a fixed priority of guards, and
//! then advances the history fields that its order owns.
//!
//! The numeric evaluations (the curve, its antiderivatives, midpoints,
//! difference quotients, and the guard comparisons against the tolerances)
//! are floating-point work done by the caller and handed in as operands; the
//! kernel is generic over the carrier type `T` and never inspects a value of
//! it. What is specified and proved here is the whole of the kernel's exact
//! behaviour: which operand each mode returns, which guards select which
//! mode, and how the history advances.

use vstd::prelude::*;

verus! {

/// Per-channel state of the recurrence. A fresh channel starts with every
/// field holding the zero sample; each call then rewrites exactly the fields
/// its order owns, so the fields always reflect the immediately preceding
/// call of the order that uses them.
#[derive(Clone, Copy, Debug)]
pub struct Processor<T> {
    /// The previous input sample (orders above `Off`).
    pub x1: T,
    /// The input sample two calls back (second order only).
    pub x2: T,
    /// First antiderivative of the previous sample (first order only).
    pub ad1_x1: T,
    /// Second antiderivative of the previous sample (second order only).
    pub ad2_x1: T,
    /// The first-level divided difference of the previous second-order call.
    pub d2: T,
    /// The softness value of the previous call (orders above `Off`).
    pub s: T,
}

/// Operands for one first-order call: the numeric evaluations the mode
/// selection chooses among, and the guard comparisons, all computed by the
/// caller from the new sample `x`, the softness `s` and the current history.
#[derive(Clone, Copy, Debug)]
pub struct FirstDegreeInputs<T> {
    /// `AD1(x, s)`, the first antiderivative at the new sample.
    pub ad1_x: T,
    /// `f(midpoint(x, x1), s)`, the direct evaluation the fallbacks use.
    pub direct_midpoint: T,
    /// `(ad1_x - ad1_x1) / (x - x1)`, the first-order divided difference.
    pub difference_quotient: T,
    /// Whether `|s - s_prev|` exceeds the softness tolerance: the previous
    /// antiderivative sample was taken under a different knee shape.
    pub softness_changed: bool,
    /// Whether `|x - x1|` is below the step tolerance: the difference
    /// quotient's denominator is near zero.
    pub step_small: bool,
}

/// Operands for one second-order call. `x_bar` abbreviates
/// `midpoint(x, x2)` and `delta` abbreviates `x_bar - x1`.
#[derive(Clone, Copy, Debug)]
pub struct SecondDegreeInputs<T> {
    /// `AD2(x, s)`, the second antiderivative at the new sample.
    pub ad2_x0: T,
    /// `AD1(midpoint(x, x1), s)`: the first-level difference when the step
    /// to the previous sample is too small for the quotient below.
    pub d1_midpoint: T,
    /// `(ad2_x0 - ad2_x1) / (x - x1)`: the ordinary first-level difference.
    pub d1_quotient: T,
    /// `f(midpoint(x, x1), s)`, the direct evaluation the softness-change
    /// fallback returns.
    pub direct_midpoint: T,
    /// `2/delta * (AD1(x_bar, s) + (ad2_x1 - AD2(x_bar, s)) / delta)`: the
    /// rearranged closed form that stays well conditioned when the new
    /// sample nearly coincides with the one two calls back.
    pub correction: T,
    /// `f(midpoint(x_bar, x1), s)`, the direct evaluation used when `delta`
    /// vanishes as well.
    pub direct_nested: T,
    /// `2/(x - x2) * (d1_midpoint - d2)`: the second-order difference built
    /// from the midpoint form of the first-level difference.
    pub second_difference_midpoint: T,
    /// `2/(x - x2) * (d1_quotient - d2)`: the second-order difference built
    /// from the quotient form of the first-level difference.
    pub second_difference_quotient: T,
    /// Whether `|s - s_prev|` exceeds the softness tolerance.
    pub softness_changed: bool,
    /// Whether `|x - x1|` is below the step tolerance.
    pub step1_small: bool,
    /// Whether `|x - x2|` is below the step tolerance.
    pub step2_small: bool,
    /// Whether `|delta|` is below the step tolerance.
    pub delta_small: bool,
}

/// One call's worth of operands, tagged with the antialiasing order the call
/// is made at.
#[derive(Clone, Copy, Debug)]
pub enum StepInputs<T> {
    /// Plain evaluation: `direct` is `f(x, s)`.
    Off { direct: T },
    FirstDegree(FirstDegreeInputs<T>),
    SecondDegree(SecondDegreeInputs<T>),
}

/// What a first-order call returns: the divided difference, unless the knee
/// shape moved or the step vanished, in which case the direct midpoint
/// evaluation replaces it.
pub open spec fn first_degree_output<T>(inputs: FirstDegreeInputs<T>) -> T {
    if inputs.softness_changed || inputs.step_small {
        inputs.direct_midpoint
    } else {
        inputs.difference_quotient
    }
}

/// The first-level divided difference a second-order call commits to its
/// history: the midpoint form when the step to the previous sample is below
/// tolerance, the ordinary quotient otherwise.
pub open spec fn second_degree_d1<T>(inputs: SecondDegreeInputs<T>) -> T {
    if inputs.step1_small {
        inputs.d1_midpoint
    } else {
        inputs.d1_quotient
    }
}

/// What a second-order call returns, by the guards' fixed priority: a moved
/// knee shape forces the direct midpoint evaluation; else a sample nearly
/// coinciding with the one two calls back takes the rearranged correction,
/// or the doubly-collapsed direct evaluation if the interior spacing
/// vanished too; else the ordinary second-order divided difference, built
/// from whichever first-level difference applies.
pub open spec fn second_degree_output<T>(inputs: SecondDegreeInputs<T>) -> T {
    if inputs.softness_changed {
        inputs.direct_midpoint
    } else if inputs.step2_small {
        if inputs.delta_small {
            inputs.direct_nested
        } else {
            inputs.correction
        }
    } else if inputs.step1_small {
        inputs.second_difference_midpoint
    } else {
        inputs.second_difference_quotient
    }
}

/// The output of one call at any order.
pub open spec fn step_output<T>(inputs: StepInputs<T>) -> T {
    match inputs {
        StepInputs::Off { direct } => direct,
        StepInputs::FirstDegree(i) => first_degree_output(i),
        StepInputs::SecondDegree(i) => second_degree_output(i),
    }
}

/// The history after one call. `Off` touches nothing. First order rewrites
/// the previous sample, its first antiderivative and the remembered
/// softness. Second order shifts the sample history and stores the new
/// second antiderivative, the first-level difference it selected, and the
/// call's softness — the next call's softness guard must compare against
/// the softness this call actually evaluated under. Each order rewrites a
/// fixed set of fields, so switching orders between calls never reads a
/// field another order left half-updated.
pub open spec fn step_state<T>(state: Processor<T>, x: T, s: T, inputs: StepInputs<T>) -> Processor<T> {
    match inputs {
        StepInputs::Off { .. } => state,
        StepInputs::FirstDegree(i) => Processor {
            x1: x,
            x2: state.x2,
            ad1_x1: i.ad1_x,
            ad2_x1: state.ad2_x1,
            d2: state.d2,
            s: s,
        },
        StepInputs::SecondDegree(i) => Processor {
            x1: x,
            x2: state.x1,
            ad1_x1: state.ad1_x1,
            ad2_x1: i.ad2_x0,
            d2: second_degree_d1(i),
            s: s,
        },
    }
}

impl<T: Copy> Processor<T> {
    /// A fresh kernel whose whole history is the given zero sample, as at
    /// stream start or after a channel-count change.
    pub fn new(zero: T) -> (kernel: Processor<T>)
        ensures
            kernel == (Processor { x1: zero, x2: zero, ad1_x1: zero, ad2_x1: zero, d2: zero, s: zero }),
    {
        Processor { x1: zero, x2: zero, ad1_x1: zero, ad2_x1: zero, d2: zero, s: zero }
    }

    /// One call of the recurrence: selects the evaluation mode for this
    /// call's order from the guards, advances the history fields that order
    /// owns, and returns the selected evaluation.
    pub fn process(&mut self, x: T, s: T, inputs: StepInputs<T>) -> (output: T)
        ensures
            output == step_output(inputs),
            *final(self) == step_state(*old(self), x, s, inputs),
    {
        match inputs {
            StepInputs::Off { direct } => direct,
            StepInputs::FirstDegree(i) => {
                let output = if i.softness_changed || i.step_small {
                    i.direct_midpoint
                } else {
                    i.difference_quotient
                };
                self.ad1_x1 = i.ad1_x;
                self.x1 = x;
                self.s = s;
                output
            }
            StepInputs::SecondDegree(i) => {
                let d1 = if i.step1_small {
                    i.d1_midpoint
                } else {
                    i.d1_quotient
                };
                let output = if i.softness_changed {
                    i.direct_midpoint
                } else if i.step2_small {
                    if i.delta_small {
                        i.direct_nested
                    } else {
                        i.correction
                    }
                } else if i.step1_small {
                    i.second_difference_midpoint
                } else {
                    i.second_difference_quotient
                };
                self.d2 = d1;
                self.x2 = self.x1;
                self.x1 = x;
                self.ad2_x1 = i.ad2_x0;
                self.s = s;
                output
            }
        }
    }
}

/// One call of a run: the new sample, the softness, and the operands
/// computed for the call.
#[derive(Clone, Copy, Debug)]
pub struct KernelStep<T> {
    pub x: T,
    pub s: T,
    pub inputs: StepInputs<T>,
}

/// The history after feeding a whole run of calls, first call first.
pub open spec fn run_state<T>(state: Processor<T>, steps: Seq<KernelStep<T>>) -> Processor<T>
    decreases steps.len(),
{
    if steps.len() == 0 {
        state
    } else {
        run_state(
            step_state(state, steps[0].x, steps[0].s, steps[0].inputs),
            steps.drop_first(),
        )
    }
}

/// The outputs of a whole run of calls, in call order.
pub open spec fn run_outputs<T>(state: Processor<T>, steps: Seq<KernelStep<T>>) -> Seq<T>
    decreases steps.len(),
{
    if steps.len() == 0 {
        Seq::empty()
    } else {
        seq![step_output(steps[0].inputs)] + run_outputs(
            step_state(state, steps[0].x, steps[0].s, steps[0].inputs),
            steps.drop_first(),
        )
    }
}

/// With antialiasing off the kernel is transparent: over a run in which
/// every call is made at order `Off`, each output is exactly the direct
/// transfer-curve evaluation supplied for that call, and the history comes
/// out of the run as it went in.
pub proof fn lemma_off_run_is_direct<T>(state: Processor<T>, steps: Seq<KernelStep<T>>)
    requires
        forall|i: int| 0 <= i < steps.len() ==> steps[i].inputs is Off,
    ensures
        run_state(state, steps) == state,
        run_outputs(state, steps).len() == steps.len(),
        forall|i: int| 0 <= i < steps.len()
            ==> run_outputs(state, steps)[i] == steps[i].inputs->direct,
    decreases steps.len(),
{
    if steps.len() > 0 {
        let rest = steps.drop_first();
        assert(forall|i: int| 0 <= i < rest.len() ==> rest[i].inputs is Off) by {
            assert(forall|i: int| 0 <= i < rest.len() ==> rest[i] == steps[i + 1]);
        }
        assert(step_state(state, steps[0].x, steps[0].s, steps[0].inputs) == state);
        lemma_off_run_is_direct(state, rest);
        assert forall|i: int| 0 <= i < steps.len()
            implies run_outputs(state, steps)[i] == steps[i].inputs->direct by {
            if i > 0 {
                assert(run_outputs(state, steps)[i] == run_outputs(state, rest)[i - 1]);
                assert(rest[i - 1] == steps[i]);
            }
        }
    }
}

/// The previous-sample and remembered-softness fields mean what their names
/// say: after any call at an order above `Off`, they hold exactly the sample
/// and the softness that call was fed, so the next call's divided
/// differences span the step from the immediately preceding sample and its
/// softness guard compares against the immediately preceding softness.
pub proof fn lemma_tracked_call_records_previous_sample<T>(
    state: Processor<T>,
    x: T,
    s: T,
    inputs: StepInputs<T>,
)
    requires
        !(inputs is Off),
    ensures
        step_state(state, x, s, inputs).x1 == x,
        step_state(state, x, s, inputs).s == s,
{
}

/// A second-order call keeps the two-call window honest: it shifts the
/// previous sample into the two-back field and stores the first-level
/// difference it selected, which the next call's second-order difference
/// reads as its `d2`.
pub proof fn lemma_second_degree_shifts_two_back<T>(
    state: Processor<T>,
    x: T,
    s: T,
    second: SecondDegreeInputs<T>,
)
    ensures
        step_state(state, x, s, StepInputs::SecondDegree(second)).x2 == state.x1,
        step_state(state, x, s, StepInputs::SecondDegree(second)).d2 == second_degree_d1(second),
{
}

/// A vanishing first-order step falls back: when the new sample is within
/// the step tolerance of the previous one, the divided difference's
/// denominator is near zero and the call returns the direct midpoint
/// evaluation instead.
pub proof fn lemma_first_degree_small_step_is_direct<T>(inputs: FirstDegreeInputs<T>)
    requires
        inputs.step_small,
    ensures
        first_degree_output(inputs) == inputs.direct_midpoint,
{
}

/// A second-order call whose sample nearly coincides with the one two calls
/// back, with the interior spacing collapsed as well, falls back to a direct
/// evaluation: the direct midpoint form if the knee also moved, otherwise
/// the doubly-collapsed direct form.
pub proof fn lemma_second_degree_coincident_is_direct<T>(inputs: SecondDegreeInputs<T>)
    requires
        inputs.step2_small,
        inputs.delta_small,
    ensures
        second_degree_output(inputs) == (if inputs.softness_changed {
            inputs.direct_midpoint
        } else {
            inputs.direct_nested
        }),
{
}

/// A softness change beyond tolerance invalidates the stored antiderivative
/// history at first order — the two samples of the antiderivative were taken
/// under different knee shapes — so the call returns the direct midpoint
/// evaluation, whatever the other guards say.
pub proof fn lemma_first_degree_softness_change_is_direct<T>(inputs: FirstDegreeInputs<T>)
    requires
        inputs.softness_changed,
    ensures
        first_degree_output(inputs) == inputs.direct_midpoint,
{
}

/// The same invalidation at second order: a softness change beyond tolerance
/// takes priority over every other guard and the call returns the direct
/// midpoint evaluation.
pub proof fn lemma_second_degree_softness_change_is_direct<T>(inputs: SecondDegreeInputs<T>)
    requires
        inputs.softness_changed,
    ensures
        second_degree_output(inputs) == inputs.direct_midpoint,
{
}

} // verus!

