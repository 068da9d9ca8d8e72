use frft::capacity::conv_length;
use frft::geometry::Geometry;
use frft::layout::{offsets, pad_into, read_back, zero_stuff};
use rustfft::num_complex::Complex;
use rustfft::FftPlanner;

fn c(re: f32) -> Complex<f32> {
    Complex::new(re, 0.0)
}

/// Linear convolution through forward transforms only: pad both operands,
/// transform, multiply, transform again and read back in reverse order.
fn convolve(a: &[Complex<f32>], b: &[Complex<f32>], start: usize, count: usize) -> Vec<Complex<f32>> {
    let cap = conv_length(a.len(), b.len());
    let fft = FftPlanner::new().plan_fft_forward(cap);
    let mut pa = vec![Complex::default(); cap];
    let mut pb = vec![Complex::default(); cap];
    pad_into(a, Complex::default(), &mut pa);
    pad_into(b, Complex::default(), &mut pb);
    fft.process(&mut pa);
    fft.process(&mut pb);
    let mut prod: Vec<Complex<f32>> = pa.iter().zip(pb.iter()).map(|(x, y)| x * y).collect();
    fft.process(&mut prod);
    read_back(&prod, start, count).into_iter().map(|z| z / cap as f32).collect()
}

fn sinc_half(x: i64) -> Complex<f32> {
    if x == 0 {
        c(1.0)
    } else {
        let t = std::f32::consts::PI * x as f32 / 2.0;
        c(t.sin() / t)
    }
}

/// Doubles the sample density of `signal` with the library's sizes.
fn interpolate(signal: &[Complex<f32>]) -> Vec<Complex<f32>> {
    let g = Geometry::new(signal.len()).unwrap();
    let stuffed = zero_stuff(&signal.to_vec(), Complex::default());
    let kernel: Vec<Complex<f32>> = offsets(g.sinc_half_width()).into_iter().map(sinc_half).collect();
    assert_eq!(conv_length(stuffed.len(), kernel.len()), g.interp_capacity());
    convolve(&stuffed, &kernel, g.interp_window_start(), g.upsampled_len())
}

fn assert_close(expected: &[Complex<f32>], got: &[Complex<f32>], tol: f32) {
    assert_eq!(expected.len(), got.len());
    for (e, r) in expected.iter().zip(got.iter()) {
        assert!((e.re - r.re).abs() <= tol, "{} vs {}", e.re, r.re);
        assert!((e.im - r.im).abs() <= tol, "{} vs {}", e.im, r.im);
    }
}

#[test]
fn convolution_of_two_boxes() {
    let got = convolve(&[c(1.0), c(1.0)], &[c(1.0), c(1.0)], 0, 3);
    assert_close(&[c(1.0), c(2.0), c(1.0)], &got, 1e-5);
}

#[test]
fn convolution_of_unequal_lengths() {
    let got = convolve(&[c(1.0), c(2.0), c(3.0)], &[c(0.0), c(1.0), c(0.5), c(-1.0)], 0, 6);
    assert_close(&[c(0.0), c(1.0), c(2.5), c(3.0), c(-0.5), c(-3.0)], &got, 1e-5);
}

#[test]
fn test_interp() {
    let got = interpolate(&[c(1.0), c(2.0), c(3.0)]);
    let expected = [c(1.0), c(1.27323954), c(2.0), c(2.97089227), c(3.0)];
    assert_eq!(5, got.len());
    assert_close(&expected, &got, 1e-4);
}

#[test]
fn interpolation_of_zeros() {
    let got = interpolate(&[c(0.0), c(0.0)]);
    assert_close(&[c(0.0), c(0.0), c(0.0)], &got, 1e-6);
}

#[test]
fn interpolation_of_two_samples() {
    let got = interpolate(&[c(1.0), c(2.0)]);
    assert_close(&[c(1.0), c(1.90985932), c(2.0)], &got, 1e-4);
    let got = interpolate(&[c(1.0), c(1.0), c(1.0)]);
    assert_close(&[c(1.0), c(1.06103295), c(1.0), c(1.06103295), c(1.0)], &got, 1e-4);
}

#[test]
fn frft_interp() {
    let mut signal = vec![c(0.0); 16];
    signal[0] = c(1.0);
    let expected = [
        c(1.00000000),
        c(6.366_197_5e-1),
        c(2.867_917_2e-17),
        c(-2.122_065_9e-1),
        c(7.617_711_4e-17),
        c(1.273_239_6e-1),
        c(1.222_953e-16),
        c(-9.094_568e-2),
        c(-8.340_492e-17),
        c(7.073_553e-2),
        c(6.906_047e-18),
        c(-5.787_452_3e-2),
        c(-1.092_892_7e-16),
        c(4.897_075e-2),
        c(3.905_563e-17),
        c(-4.244_132e-2),
        c(-6.206_417_6e-18),
        c(3.744_822_4e-2),
        c(-3.947_459_7e-17),
        c(-3.350_630_4e-2),
        c(-6.249_739e-17),
        c(3.031_522_8e-2),
        c(1.147_813_2e-16),
        c(-2.767_912_1e-2),
        c(-1.706_778e-18),
        c(2.546_479_2e-2),
        c(-4.586_234_7e-17),
        c(-2.357_851e-2),
        c(-1.490_011_2e-17),
        c(2.195_240_6e-2),
        c(-3.863_543e-17),
    ];
    let got = interpolate(&signal);
    assert_eq!(31, got.len());
    assert_close(&expected, &got, 1e-4);
}

fn centered_transform(buf: &mut Vec<Complex<f32>>) {
    let half = Geometry::new(buf.len()).unwrap().half();
    let fft = FftPlanner::new().plan_fft_forward(buf.len());
    frft::layout::rotate_right(buf, half);
    fft.process(buf);
    frft::layout::rotate_right(buf, half);
}

#[test]
fn two_centered_transforms_and_reversal_restore_signal() {
    let orig: Vec<Complex<f32>> = (0..16)
        .map(|i| Complex::new((i as f32 * 0.7).sin() + 0.1 * i as f32, (i as f32 * 0.3).cos()))
        .collect();
    let mut buf = orig.clone();
    centered_transform(&mut buf);
    centered_transform(&mut buf);
    frft::layout::reverse_about_origin(&mut buf);
    let scaled: Vec<Complex<f32>> = buf.iter().map(|z| z / 16.0).collect();
    assert_close(&orig, &scaled, 1e-4);
}

#[test]
fn centered_transform_of_centered_impulse_is_flat() {
    let mut buf = vec![c(0.0); 8];
    buf[4] = c(1.0);
    centered_transform(&mut buf);
    assert_close(&vec![c(1.0); 8], &buf, 1e-6);
}
