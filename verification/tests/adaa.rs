use klyp::antialiasing::{FirstDegreeInputs, Processor, SecondDegreeInputs, StepInputs};

fn first_inputs(
    ad1_x: f64,
    direct_midpoint: f64,
    difference_quotient: f64,
    softness_changed: bool,
    step_small: bool,
) -> StepInputs<f64> {
    StepInputs::FirstDegree(FirstDegreeInputs {
        ad1_x,
        direct_midpoint,
        difference_quotient,
        softness_changed,
        step_small,
    })
}

fn second_inputs(
    softness_changed: bool,
    step1_small: bool,
    step2_small: bool,
    delta_small: bool,
) -> SecondDegreeInputs<f64> {
    SecondDegreeInputs {
        ad2_x0: 10.0,
        d1_midpoint: 11.0,
        d1_quotient: 12.0,
        direct_midpoint: 13.0,
        correction: 14.0,
        direct_nested: 15.0,
        second_difference_midpoint: 16.0,
        second_difference_quotient: 17.0,
        softness_changed,
        step1_small,
        step2_small,
        delta_small,
    }
}

#[test]
fn fresh_kernel_history_is_zero() {
    let kernel = Processor::new(0.0f64);
    assert_eq!(kernel.x1, 0.0);
    assert_eq!(kernel.x2, 0.0);
    assert_eq!(kernel.ad1_x1, 0.0);
    assert_eq!(kernel.ad2_x1, 0.0);
    assert_eq!(kernel.d2, 0.0);
    assert_eq!(kernel.s, 0.0);
}

#[test]
fn off_order_returns_direct_and_keeps_state() {
    let mut kernel = Processor::new(0.0f64);
    let samples = [-2.0, -1.0, 0.0, 1.0, 2.0];
    for &x in &samples {
        let direct = 0.25 * x;
        let out = kernel.process(x, 0.3, StepInputs::Off { direct });
        assert_eq!(out, direct);
    }
    assert_eq!(kernel.x1, 0.0);
    assert_eq!(kernel.x2, 0.0);
    assert_eq!(kernel.ad1_x1, 0.0);
    assert_eq!(kernel.ad2_x1, 0.0);
    assert_eq!(kernel.d2, 0.0);
    assert_eq!(kernel.s, 0.0);
}

#[test]
fn first_degree_uses_divided_difference_on_plain_step() {
    // In the linear region f(x) = x and AD1(x) = x^2 / 2, so the divided
    // difference over a step is exactly the midpoint of the two samples.
    let mut kernel = Processor::new(0.0f64);
    let s = 0.3;
    let x_prev = 0.2f64;
    let ad1 = |x: f64| x * x / 2.0;
    let out_prev = kernel.process(
        x_prev,
        s,
        first_inputs(ad1(x_prev), 0.1, (ad1(x_prev) - 0.0) / (x_prev - 0.0), false, false),
    );
    assert_eq!(out_prev, ad1(x_prev) / x_prev);
    let x = 0.4f64;
    let quotient = (ad1(x) - kernel.ad1_x1) / (x - kernel.x1);
    let out = kernel.process(x, s, first_inputs(ad1(x), 0.3, quotient, false, false));
    assert_eq!(out, quotient);
    assert!((out - 0.3).abs() < 1e-12);
}

#[test]
fn first_degree_zero_step_falls_back_to_direct() {
    // Feeding the same sample twice gives a zero step: the quotient is a
    // 0/0 form (NaN here), and the kernel must return the direct midpoint
    // evaluation untouched by it.
    let mut kernel = Processor::new(0.0f64);
    let x = 0.5f64;
    let s = 0.3;
    kernel.process(x, s, first_inputs(0.125, x, 0.25, false, false));
    let quotient = (0.125 - kernel.ad1_x1) / (x - kernel.x1);
    assert!(quotient.is_nan());
    let out = kernel.process(x, s, first_inputs(0.125, x, quotient, false, true));
    assert_eq!(out, x);
    assert!(!out.is_nan());
}

#[test]
fn first_degree_softness_change_falls_back_to_direct() {
    let mut kernel = Processor::new(0.0f64);
    let x = 0.5f64;
    kernel.process(x, 0.3, first_inputs(0.125, 0.25, 0.25, false, false));
    // Softness moves by far more than the tolerance: the kernel must return
    // the direct evaluation even though the step is a healthy size.
    let out = kernel.process(0.9, 0.6, first_inputs(0.4, 0.7, 0.69, true, false));
    assert_eq!(out, 0.7);
}

#[test]
fn first_degree_advances_only_its_history() {
    let mut kernel = Processor::new(0.0f64);
    let out = kernel.process(0.5, 0.3, first_inputs(0.125, 0.25, 0.26, false, false));
    assert_eq!(out, 0.26);
    assert_eq!(kernel.x1, 0.5);
    assert_eq!(kernel.ad1_x1, 0.125);
    assert_eq!(kernel.s, 0.3);
    // The second-order fields are not touched by a first-order call.
    assert_eq!(kernel.x2, 0.0);
    assert_eq!(kernel.ad2_x1, 0.0);
    assert_eq!(kernel.d2, 0.0);
}

#[test]
fn second_degree_uses_second_difference_on_plain_step() {
    let mut kernel = Processor::new(0.0f64);
    let inputs = second_inputs(false, false, false, false);
    let out = kernel.process(0.5, 0.3, StepInputs::SecondDegree(inputs));
    assert_eq!(out, inputs.second_difference_quotient);
}

#[test]
fn second_degree_small_first_step_selects_midpoint_difference() {
    let mut kernel = Processor::new(0.0f64);
    let inputs = second_inputs(false, true, false, false);
    let out = kernel.process(0.5, 0.3, StepInputs::SecondDegree(inputs));
    assert_eq!(out, inputs.second_difference_midpoint);
    // The history keeps the midpoint form of the first-level difference.
    assert_eq!(kernel.d2, inputs.d1_midpoint);
}

#[test]
fn second_degree_coincident_sample_falls_back() {
    // x == x1 == x2 collapses both denominators and the interior spacing:
    // the call must land on the doubly-collapsed direct evaluation.
    let mut kernel = Processor::new(0.0f64);
    let inputs = second_inputs(false, true, true, true);
    let out = kernel.process(0.0, 0.3, StepInputs::SecondDegree(inputs));
    assert_eq!(out, inputs.direct_nested);
    assert!(!out.is_nan());
}

#[test]
fn second_degree_near_coincident_uses_correction() {
    let mut kernel = Processor::new(0.0f64);
    let inputs = second_inputs(false, false, true, false);
    let out = kernel.process(0.5, 0.3, StepInputs::SecondDegree(inputs));
    assert_eq!(out, inputs.correction);
}

#[test]
fn second_degree_softness_change_falls_back() {
    let mut kernel = Processor::new(0.0f64);
    // The softness guard outranks every other guard, including the
    // near-coincident ones.
    let inputs = second_inputs(true, true, true, true);
    let out = kernel.process(0.5, 0.9, StepInputs::SecondDegree(inputs));
    assert_eq!(out, inputs.direct_midpoint);
}

#[test]
fn second_degree_shifts_history() {
    let mut kernel = Processor::new(0.0f64);
    kernel.process(0.25, 0.3, first_inputs(0.03125, 0.1, 0.125, false, false));
    let inputs = second_inputs(true, false, false, false);
    kernel.process(0.5, 0.4, StepInputs::SecondDegree(inputs));
    assert_eq!(kernel.x1, 0.5);
    assert_eq!(kernel.x2, 0.25);
    assert_eq!(kernel.ad2_x1, inputs.ad2_x0);
    assert_eq!(kernel.d2, inputs.d1_quotient);
    // A second-order call records the softness it evaluated under and
    // leaves the first-order antiderivative alone.
    assert_eq!(kernel.s, 0.4);
    assert_eq!(kernel.ad1_x1, 0.03125);
}
