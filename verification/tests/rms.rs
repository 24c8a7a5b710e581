use fsdr_blocks::math::arithmetic::Arithmetic;
use fsdr_blocks::math::complex::Complex;
use fsdr_blocks::math::root_mean_square::RootMeanSquareBuilder;
use fsdr_blocks::math::single::Single;
use fsdr_blocks::recursive_block::RecursiveBlock;
use futuresdr::blocks::signal_source::NCO;
use futuresdr::num_complex::Complex32;
use std::cell::RefCell;

fn s(x: f32) -> Single {
    Single::from_bits(x.to_bits())
}

fn f(x: Single) -> f32 {
    f32::from_bits(x.to_bits())
}

/// The arithmetic of the machine.
struct Ieee;

impl Arithmetic for Ieee {
    fn sum(a: Single, b: Single) -> Single {
        s(f(a) + f(b))
    }
    fn difference(a: Single, b: Single) -> Single {
        s(f(a) - f(b))
    }
    fn product(a: Single, b: Single) -> Single {
        s(f(a) * f(b))
    }
    fn quotient(a: Single, b: Single) -> Single {
        s(f(a) / f(b))
    }
    fn exp(a: Single) -> Single {
        s(f(a).exp())
    }
    fn sinh(a: Single) -> Single {
        s(f(a).sinh())
    }
    fn cosh(a: Single) -> Single {
        s(f(a).cosh())
    }
    fn cos(a: Single) -> Single {
        s(f(a).cos())
    }
    fn sqrt(a: Single) -> Single {
        s(f(a).sqrt())
    }
    fn powi(a: Single, n: i32) -> Single {
        s(f(a).powi(n))
    }
    fn from_count(n: usize) -> Single {
        s(n as f32)
    }
}

/// Runs real items through the recursion, as the block does, and hands each
/// output to `sink`.
fn run_real<const L: usize>(input: &[f32], mut sink: impl FnMut(&f32)) {
    let rms = RefCell::new(RootMeanSquareBuilder::<Single, L>::new().build::<Ieee>());
    let mut block = RecursiveBlock::<Single, Single, _, L>::new(|x: &Single, x_l: &Single| {
        rms.borrow_mut().next(x, x_l)
    });
    let input: Vec<Single> = input.iter().map(|x| s(*x)).collect();
    let mut output = vec![Single::zero(); input.len()];
    let mut done = 0;
    while done < input.len() {
        let report = block.work(&input[done..], &mut output[done..], false);
        assert!(report.consumed > 0);
        assert_eq!(report.produced, report.consumed);
        done += report.consumed;
    }
    for y in output {
        sink(&f(y));
    }
}

/// As [`run_real`], for complex items.
fn run_complex<const L: usize>(input: &[Complex32], mut sink: impl FnMut(&f32)) {
    let rms = RefCell::new(RootMeanSquareBuilder::<Complex, L>::new().build::<Ieee>());
    let mut block = RecursiveBlock::<Complex, Single, _, L>::new(|x: &Complex, x_l: &Single| {
        rms.borrow_mut().next(x, x_l)
    });
    let input: Vec<Complex> = input.iter().map(|x| Complex::new(s(x.re), s(x.im))).collect();
    let mut output = vec![Single::zero(); input.len()];
    let mut done = 0;
    while done < input.len() {
        let report = block.work(&input[done..], &mut output[done..], false);
        assert!(report.consumed > 0);
        done += report.consumed;
    }
    for y in output {
        sink(&f(y));
    }
}

/// One second of a signal from an oscillator at `frequency`.
fn signal<A>(
    frequency: f32,
    sample_rate: f32,
    amplitude: A,
    offset: A,
    mut phase_to_amplitude: impl FnMut(&NCO) -> A,
) -> Vec<A>
where
    A: Copy + std::ops::Mul<Output = A> + std::ops::Add<Output = A>,
{
    let mut nco = NCO::new(0.0, 2.0 * core::f32::consts::PI * frequency / sample_rate);
    let mut out = Vec::new();
    for _ in 0..sample_rate as usize {
        let a = phase_to_amplitude(&nco);
        let a = a * amplitude;
        let a = a + offset;
        out.push(a);
        nco.step();
    }
    out
}

#[test]
fn rms_dc_f32() {
    const A: f32 = 4.0f32;

    let fours = vec![A; 100];

    // After a while, x should be equal to A
    let mut counter: usize = 0;
    run_real::<10>(&fours, |x: &f32| {
        counter += 1;
        if counter > 10 {
            assert!((x - A).abs() < 0.0000001);
        }
    });
    assert_eq!(counter, 100);
}

#[test]
fn rms_sine_f32() {
    const A: f32 = 4.0f32;

    const FREQ: f32 = 50.0;
    const SAMPLE_RATE: f32 = 48_000.0;
    const WINDOW_SIZE: usize = (SAMPLE_RATE / FREQ) as usize;
    let src = signal(FREQ, SAMPLE_RATE, A, 0.0, |nco| nco.phase.sin());

    // After a while, x should be equal to A / sqrt(2)
    let expected = A / 2.0f32.sqrt();
    let mut counter: usize = 0;
    let mut tested = false;
    run_real::<WINDOW_SIZE>(&src, |x: &f32| {
        counter += 1;
        if counter > WINDOW_SIZE {
            tested = true;
            assert!((x - expected).abs() < 0.01);
        }
    });
    assert_eq!(true, tested); // Ensure we run sufficiently enough to do some actual test
}

#[test]
fn rms_square_f32() {
    const A: f32 = 4.0f32;

    const FREQ: f32 = 50.0;
    const SAMPLE_RATE: f32 = 48_000.0;
    const WINDOW_SIZE: usize = (SAMPLE_RATE / FREQ) as usize;
    let src = signal(FREQ, SAMPLE_RATE, 2.0 * A, -A, |nco| {
        if nco.phase.value < 0 {
            1.0
        } else {
            0.0
        }
    });

    // After a while, x should be equal to A
    let expected = A;
    let mut counter: usize = 0;
    let mut tested = false;
    run_real::<WINDOW_SIZE>(&src, |x: &f32| {
        counter += 1;
        if counter > 3 * WINDOW_SIZE {
            tested = true;
            assert!((x - expected).abs() < 0.01);
        }
    });
    assert_eq!(true, tested); // Ensure we run sufficiently enough to do some actual test
}

#[test]
fn rms_sine_c32() {
    const A: f32 = 4.0f32;

    const FREQ: f32 = 50.0;
    const SAMPLE_RATE: f32 = 48_000.0;
    const WINDOW_SIZE: usize = (SAMPLE_RATE / FREQ) as usize;
    let src = signal(
        FREQ,
        SAMPLE_RATE,
        Complex32::new(A, 0.0),
        Complex32::new(0.0, 0.0),
        |nco| Complex32::new(nco.phase.cos(), nco.phase.sin()),
    );

    // After a while, x should be equal to A
    let expected = A;
    let mut counter: usize = 0;
    let mut tested = false;
    run_complex::<WINDOW_SIZE>(&src, |x: &f32| {
        counter += 1;
        if counter > WINDOW_SIZE {
            tested = true;
            assert!((x - expected).abs() < 0.01);
        }
    });
    assert_eq!(true, tested); // Ensure we run sufficiently enough to do some actual test
}

#[test]
fn one_step_on_a_real_item() {
    let mut rms = RootMeanSquareBuilder::<Single, 4>::new().build::<Ieee>();
    // sqrt(0 + (3^2 - 1) / 4)
    let (y, square) = rms.next(&s(3.0), &s(1.0));
    assert_eq!(f(square), 9.0);
    assert_eq!(f(y), 2.0f32.sqrt());
    // sqrt(2 + (5^2 - 9) / 4)
    let (y, square) = rms.next(&s(-5.0), &s(9.0));
    assert_eq!(f(square), 25.0);
    assert_eq!(f(y), 6.0f32.sqrt());
}

#[test]
fn one_step_on_a_complex_item() {
    let mut rms = RootMeanSquareBuilder::<Complex, 2>::new().build::<Ieee>();
    // sqrt(0 + (3^2 + 4^2 - 7) / 2)
    let (y, square) = rms.next(&Complex::new(s(3.0), s(-4.0)), &s(7.0));
    assert_eq!(f(square), 25.0);
    assert_eq!(f(y), 3.0);
}

#[test]
fn default_builder_builds_the_same() {
    let mut a = RootMeanSquareBuilder::<Single, 4>::default().build::<Ieee>();
    let mut b = RootMeanSquareBuilder::<Single, 4>::new().build::<Ieee>();
    let ya = a.next(&s(2.0), &s(0.0));
    let yb = b.next(&s(2.0), &s(0.0));
    assert_eq!(ya.0.to_bits(), yb.0.to_bits());
    assert_eq!(f(ya.0), 1.0);
}
