use fsdr_blocks::math::arithmetic::Arithmetic;
use fsdr_blocks::math::single::Single;
use fsdr_blocks::synchronizers::clock_tracking_loop::{ClockTrackingLoop, WrapStage};

fn s(x: f32) -> Single {
    Single::from_bits(x.to_bits())
}

fn f(x: Single) -> f32 {
    f32::from_bits(x.to_bits())
}

/// The arithmetic of the machine.
struct Ieee;

impl Arithmetic for Ieee {
    fn sum(a: Single, b: Single) -> Single {
        s(f(a) + f(b))
    }
    fn difference(a: Single, b: Single) -> Single {
        s(f(a) - f(b))
    }
    fn product(a: Single, b: Single) -> Single {
        s(f(a) * f(b))
    }
    fn quotient(a: Single, b: Single) -> Single {
        s(f(a) / f(b))
    }
    fn exp(a: Single) -> Single {
        s(f(a).exp())
    }
    fn sinh(a: Single) -> Single {
        s(f(a).sinh())
    }
    fn cosh(a: Single) -> Single {
        s(f(a).cosh())
    }
    fn cos(a: Single) -> Single {
        s(f(a).cos())
    }
    fn sqrt(a: Single) -> Single {
        s(f(a).sqrt())
    }
    fn powi(a: Single, n: i32) -> Single {
        s(f(a).powi(n))
    }
    fn from_count(n: usize) -> Single {
        s(n as f32)
    }
}

/// A loop around a nominal period of 10 with limits 9 and 11.
fn make(alpha: f32, beta: f32) -> ClockTrackingLoop<Ieee> {
    ClockTrackingLoop::new(
        s(10.0),
        s(11.0),
        s(9.0),
        s(10.0),
        s(10.0),
        s(0.0),
        s(1.0),
        s(0.01),
        s(1.0),
        s(alpha),
        s(beta),
        s(10.0),
        s(10.0),
        s(0.0),
    )
}

fn wrap(lp: &mut ClockTrackingLoop<Ieee>) {
    assert_eq!(lp.phase_wrap(1000), WrapStage::Done);
}

#[test]
fn new_stores_every_field() {
    let lp = ClockTrackingLoop::<Ieee>::new(
        s(1.0),
        s(2.0),
        s(3.0),
        s(4.0),
        s(5.0),
        s(6.0),
        s(7.0),
        s(8.0),
        s(9.0),
        s(10.0),
        s(11.0),
        s(12.0),
        s(13.0),
        s(14.0),
    );
    assert_eq!(f(lp.avg_period()), 1.0);
    assert_eq!(f(lp.nom_avg_period()), 4.0);
    assert_eq!(f(lp.inst_period()), 5.0);
    assert_eq!(f(lp.phase()), 6.0);
    assert_eq!(f(lp.damping_factor()), 7.0);
    assert_eq!(f(lp.loop_bandwidth()), 8.0);
    assert_eq!(f(lp.ted_gain()), 9.0);
    assert_eq!(f(lp.alpha()), 10.0);
    assert_eq!(f(lp.beta()), 11.0);
    // The earlier state is the one given.
    let mut lp = lp;
    lp.revert_loop();
    assert_eq!(f(lp.avg_period()), 12.0);
    assert_eq!(f(lp.inst_period()), 13.0);
    assert_eq!(f(lp.phase()), 14.0);
}

#[test]
fn advance_applies_both_arms() {
    let mut lp = make(0.25, 0.5);
    lp.set_phase(s(1.0));
    lp.advance_loop(s(1.0));
    assert_eq!(f(lp.avg_period()), 10.5);
    assert_eq!(f(lp.inst_period()), 10.75);
    assert_eq!(f(lp.phase()), 11.75);
    lp.advance_loop(s(-2.0));
    assert_eq!(f(lp.avg_period()), 9.5);
    assert_eq!(f(lp.inst_period()), 9.0);
    assert_eq!(f(lp.phase()), 20.75);
}

#[test]
fn advance_clamps_the_average_period() {
    let mut lp = make(0.25, 0.5);
    lp.advance_loop(s(100.0));
    assert_eq!(f(lp.avg_period()), 11.0);
    assert_eq!(f(lp.inst_period()), 36.0);
    assert_eq!(f(lp.phase()), 36.0);
    lp.advance_loop(s(-8.0));
    assert_eq!(f(lp.avg_period()), 9.0);
    assert_eq!(f(lp.inst_period()), 7.0);
}

#[test]
fn advance_replaces_a_period_that_is_not_positive() {
    let mut lp = make(0.25, 0.5);
    // 9 - 0.25 * 36 = 0: zero is replaced too.
    lp.advance_loop(s(-36.0));
    assert_eq!(f(lp.avg_period()), 9.0);
    assert_eq!(f(lp.inst_period()), 9.0);
    assert_eq!(f(lp.phase()), 9.0);
    lp.advance_loop(s(-1000.0));
    assert_eq!(f(lp.inst_period()), 9.0);
    assert_eq!(f(lp.phase()), 18.0);
}

#[test]
fn period_stays_within_limits_over_many_steps() {
    let mut lp = make(0.25, 0.5);
    let mut state: u32 = 1;
    for _ in 0..5000 {
        state = state.wrapping_mul(1664525).wrapping_add(1013904223);
        let error = ((state >> 8) as f32 / (1u32 << 24) as f32 - 0.5) * 200.0;
        lp.advance_loop(s(error));
        assert!(f(lp.avg_period()) >= 9.0);
        assert!(f(lp.avg_period()) <= 11.0);
        assert!(f(lp.inst_period()) > 0.0);
    }
    for error in [f32::MAX, f32::MIN, f32::INFINITY, f32::NEG_INFINITY, 1.0e30, -1.0e30] {
        let mut lp = make(0.25, 0.5);
        lp.advance_loop(s(error));
        assert!(f(lp.avg_period()) >= 9.0 && f(lp.avg_period()) <= 11.0);
        assert!(f(lp.inst_period()) > 0.0);
    }
}

#[test]
fn advance_brings_an_average_from_outside_back_between_the_limits() {
    for start in [20.0f32, -20.0, 0.0, 1.0e30, -1.0e30, f32::MAX, f32::MIN] {
        for error in [0.0f32, 1.0, -1.0, 1.0e30, -1.0e30, f32::MAX, f32::MIN] {
            let mut lp = make(0.25, 0.5);
            lp.set_avg_period(s(start));
            lp.advance_loop(s(error));
            assert!(f(lp.avg_period()) >= 9.0, "{start} {error}");
            assert!(f(lp.avg_period()) <= 11.0, "{start} {error}");
            assert!(f(lp.inst_period()) > 0.0, "{start} {error}");
        }
    }
}

#[test]
fn machine_arithmetic_gives_numbers_on_finite_operands() {
    let values = [
        0.0f32,
        -0.0,
        1.0,
        -1.0,
        0.5,
        1.0e-45,
        f32::MIN_POSITIVE,
        f32::MAX,
        f32::MIN,
        3.0e38,
        -3.0e38,
        1.0e20,
        -1.0e20,
    ];
    for a in values {
        for b in values {
            let p = Ieee::product(s(a), s(b));
            assert!(!p.is_nan(), "{a} * {b}");
            for c in [f(p), f32::INFINITY, f32::NEG_INFINITY, b] {
                assert!(!Ieee::sum(s(a), s(c)).is_nan(), "{a} + {c}");
            }
        }
    }
}

#[test]
fn an_error_that_is_not_a_number_is_stored() {
    let mut lp = make(0.25, 0.5);
    lp.advance_loop(s(f32::NAN));
    assert!(f(lp.avg_period()).is_nan());
    assert!(f(lp.inst_period()).is_nan());
}

#[test]
fn revert_undoes_one_advance() {
    for error in [0.0f32, 1.0, -3.5, 1.0e9, -1.0e9, f32::INFINITY, f32::NAN] {
        let mut lp = make(0.3, 0.7);
        lp.set_avg_period(s(10.25));
        lp.set_inst_period(s(9.75));
        lp.set_phase(s(3.125));
        lp.advance_loop(s(error));
        lp.revert_loop();
        assert_eq!(lp.avg_period().to_bits(), 10.25f32.to_bits());
        assert_eq!(lp.inst_period().to_bits(), 9.75f32.to_bits());
        assert_eq!(lp.phase().to_bits(), 3.125f32.to_bits());
    }
}

#[test]
fn revert_twice_restores_the_same_state() {
    let mut lp = make(0.25, 0.5);
    lp.advance_loop(s(1.0));
    lp.advance_loop(s(1.0));
    lp.revert_loop();
    let once = (f(lp.avg_period()), f(lp.inst_period()), f(lp.phase()));
    assert_eq!(once, (10.5, 10.75, 10.75));
    lp.revert_loop();
    assert_eq!((f(lp.avg_period()), f(lp.inst_period()), f(lp.phase())), once);
}

#[test]
fn setters_also_set_what_revert_restores() {
    let mut lp = make(0.25, 0.5);
    lp.advance_loop(s(1.0));
    lp.set_phase(s(2.0));
    lp.set_avg_period(s(9.5));
    lp.set_inst_period(s(9.25));
    lp.revert_loop();
    assert_eq!(f(lp.phase()), 2.0);
    assert_eq!(f(lp.avg_period()), 9.5);
    assert_eq!(f(lp.inst_period()), 9.25);
}

#[test]
fn period_limit_holds_the_average_between_its_limits() {
    let mut lp = make(0.25, 0.5);
    lp.set_avg_period(s(12.0));
    lp.period_limit();
    assert_eq!(f(lp.avg_period()), 11.0);
    lp.set_avg_period(s(-3.0));
    lp.period_limit();
    assert_eq!(f(lp.avg_period()), 9.0);
    lp.set_avg_period(s(9.0));
    lp.period_limit();
    assert_eq!(f(lp.avg_period()), 9.0);
    lp.set_avg_period(s(10.5));
    lp.period_limit();
    assert_eq!(f(lp.avg_period()), 10.5);
}

#[test]
fn nominal_period_outside_the_limits_becomes_their_middle() {
    let mut lp = make(0.25, 0.5);
    lp.set_nom_avg_period(s(10.5));
    assert_eq!(f(lp.nom_avg_period()), 10.5);
    lp.set_nom_avg_period(s(11.5));
    assert_eq!(f(lp.nom_avg_period()), 10.0);
    lp.set_nom_avg_period(s(9.0));
    assert_eq!(f(lp.nom_avg_period()), 9.0);
    lp.set_nom_avg_period(s(8.0));
    assert_eq!(f(lp.nom_avg_period()), 10.0);
    lp.set_nom_avg_period(s(11.0));
    assert_eq!(f(lp.nom_avg_period()), 11.0);
}

#[test]
fn phase_wrap_boundaries() {
    // The range is open below and closed above: half a period stays, minus
    // half a period moves up by one period.
    let mut lp = make(0.25, 0.5);
    lp.set_phase(s(5.0));
    wrap(&mut lp);
    assert_eq!(f(lp.phase()), 5.0);
    lp.set_phase(s(-5.0));
    wrap(&mut lp);
    assert_eq!(f(lp.phase()), 5.0);
}

#[test]
fn phase_wrap_brings_the_phase_into_range() {
    let mut lp = make(0.25, 0.5);
    for (phase, wrapped) in [
        (0.0f32, 0.0f32),
        (4.0, 4.0),
        (5.5, -4.5),
        (14.0, 4.0),
        (15.0, 5.0),
        (37.0, -3.0),
        (-4.5, -4.5),
        (-5.5, 4.5),
        (-36.0, 4.0),
        (-15.0, 5.0),
    ] {
        lp.set_phase(s(phase));
        wrap(&mut lp);
        assert_eq!(f(lp.phase()), wrapped, "{phase}");
        // Only the phase moves.
        assert_eq!(f(lp.avg_period()), 10.0);
    }
}

#[test]
fn phase_wrap_stops_when_its_steps_run_out() {
    let mut lp = make(0.25, 0.5);
    lp.set_phase(s(47.0));
    // Two steps down, neither of them the last.
    assert_eq!(lp.phase_wrap(2), WrapStage::Lowering);
    assert_eq!(f(lp.phase()), 27.0);
    assert_eq!(lp.phase_wrap(0), WrapStage::Lowering);
    assert_eq!(f(lp.phase()), 27.0);
    // Three down, then the hand-over; the step that ends the wrap is missing.
    assert_eq!(lp.phase_wrap(4), WrapStage::Raising);
    assert_eq!(f(lp.phase()), -3.0);
    assert_eq!(lp.phase_wrap_step(WrapStage::Raising), WrapStage::Done);
    lp.set_phase(s(47.0));
    assert_eq!(lp.phase_wrap(7), WrapStage::Done);
    assert_eq!(f(lp.phase()), -3.0);
}

#[test]
fn phase_wrap_without_a_period_does_not_end() {
    let mut lp = make(0.25, 0.5);
    lp.set_avg_period(s(0.0));
    lp.set_phase(s(1.0));
    assert_eq!(lp.phase_wrap(500), WrapStage::Lowering);
    assert_eq!(f(lp.phase()), 1.0);
    lp.set_avg_period(s(f32::NAN));
    // Nothing compares with a limit that is not a number.
    assert_eq!(lp.phase_wrap(500), WrapStage::Done);
    assert_eq!(f(lp.phase()), 1.0);
}

#[test]
fn phase_wrap_steps_move_one_period_at_a_time() {
    let mut lp = make(0.25, 0.5);
    lp.set_phase(s(26.0));
    assert_eq!(lp.phase_wrap_step(WrapStage::Lowering), WrapStage::Lowering);
    assert_eq!(f(lp.phase()), 16.0);
    assert_eq!(lp.phase_wrap_step(WrapStage::Lowering), WrapStage::Lowering);
    assert_eq!(f(lp.phase()), 6.0);
    assert_eq!(lp.phase_wrap_step(WrapStage::Lowering), WrapStage::Lowering);
    assert_eq!(f(lp.phase()), -4.0);
    assert_eq!(lp.phase_wrap_step(WrapStage::Lowering), WrapStage::Raising);
    assert_eq!(lp.phase_wrap_step(WrapStage::Raising), WrapStage::Done);
    assert_eq!(lp.phase_wrap_step(WrapStage::Done), WrapStage::Done);
    assert_eq!(f(lp.phase()), -4.0);
    // A stage does only its own work.
    lp.set_phase(s(26.0));
    assert_eq!(lp.phase_wrap_step(WrapStage::Raising), WrapStage::Done);
    assert_eq!(f(lp.phase()), 26.0);
}

fn expected_gains(zeta: f64, omega: f64, gain: f64) -> (f64, f64) {
    let k0 = 2.0 / gain;
    let k1 = (-zeta * omega).exp();
    let sinh = (zeta * omega).sinh();
    let cross = if zeta > 1.0 {
        (omega * (zeta * zeta - 1.0).sqrt()).cosh()
    } else if zeta == 1.0 {
        1.0
    } else {
        (omega * (1.0 - zeta * zeta).sqrt()).cos()
    };
    (k0 * k1 * sinh, k0 * (1.0 - k1 * (sinh + cross)))
}

#[test]
fn gains_at_critical_damping_are_exact() {
    for (omega, gain) in [(0.01f32, 1.0f32), (0.1, 0.5), (0.045, 2.0), (0.0, 1.0), (1.0, 3.0)] {
        let mut lp = make(0.0, 0.0);
        lp.set_ted_gain(s(gain));
        lp.set_damping_factor(s(1.0));
        lp.set_loop_bandwidth(s(omega));

        let zw = 1.0f32 * omega;
        let k0 = 2.0f32 / gain;
        let k1 = (-zw).exp();
        let sinh = zw.sinh();
        let alpha = k0 * k1 * sinh;
        let beta = k0 * (1.0 - k1 * (sinh + 1.0));
        assert_eq!(lp.alpha().to_bits(), alpha.to_bits());
        assert_eq!(lp.beta().to_bits(), beta.to_bits());
    }
}

#[test]
fn gains_under_and_over_damped_match_the_formulas() {
    for zeta in [0.5f32, 2.0, 0.707, 1.5, 0.0] {
        for (omega, gain) in [(0.01f32, 1.0f32), (0.1, 0.5), (0.3, 2.0)] {
            let mut lp = make(0.0, 0.0);
            lp.set_ted_gain(s(gain));
            lp.set_damping_factor(s(zeta));
            lp.set_loop_bandwidth(s(omega));
            let (alpha, beta) = expected_gains(zeta as f64, omega as f64, gain as f64);
            assert!((f(lp.alpha()) as f64 - alpha).abs() < 1.0e-6, "{zeta} {omega} {gain}");
            assert!((f(lp.beta()) as f64 - beta).abs() < 1.0e-6, "{zeta} {omega} {gain}");
        }
    }
}

#[test]
fn gains_take_the_regime_from_the_damping_factor() {
    // Known values for a detector gain of one and a natural frequency of 0.1.
    let mut lp = make(0.0, 0.0);
    lp.set_loop_bandwidth(s(0.1));
    lp.set_damping_factor(s(0.5));
    assert!((f(lp.alpha()) - 0.095162582).abs() < 1.0e-6);
    assert!((f(lp.beta()) - 0.009508332).abs() < 1.0e-6);
    lp.set_damping_factor(s(1.0));
    assert!((f(lp.alpha()) - 0.181269247).abs() < 1.0e-6);
    assert!((f(lp.beta()) - 0.009055917).abs() < 1.0e-6);
    lp.set_damping_factor(s(2.0));
    assert!((f(lp.alpha()) - 0.329679954).abs() < 1.0e-6);
    assert!((f(lp.beta()) - 0.008235151).abs() < 1.0e-6);
}

#[test]
fn each_parameter_setter_updates_the_gains() {
    let mut lp = make(0.0, 0.0);
    lp.update_gains();
    let first = (f(lp.alpha()), f(lp.beta()));
    assert!(first.0 > 0.0 && first.1 > 0.0);
    lp.set_ted_gain(s(2.0));
    assert_eq!(f(lp.ted_gain()), 2.0);
    assert_eq!(f(lp.alpha()), first.0 / 2.0);
    lp.set_loop_bandwidth(s(0.02));
    assert_eq!(f(lp.loop_bandwidth()), 0.02);
    assert!(f(lp.alpha()) > first.0 / 2.0);
    let second = f(lp.alpha());
    lp.set_damping_factor(s(0.5));
    assert_eq!(f(lp.damping_factor()), 0.5);
    assert!(f(lp.alpha()) < second);
    // The state of the loop is left alone.
    assert_eq!(f(lp.avg_period()), 10.0);
    assert_eq!(f(lp.phase()), 0.0);
}
