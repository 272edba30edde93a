use binning_analysis::accumulator::{binned_error, limit, report_count};
use binning_analysis::analyzed::quadrature;
use binning_analysis::blocks::bin_means;
use binning_analysis::series::{mean, pairs, spread, square_deviation, total, variance_of_mean};
use binning_analysis::text::{compose, decimal_text};
use binning_analysis::{Accumulator, Analyzed, Scalar};
use mersenne_twister::MersenneTwister;
use rand::{Rng, SeedableRng};

/// Double precision behind the library's number interface.
#[derive(Clone, Copy, Debug, PartialEq)]
struct Real(f64);

impl Scalar for Real {
    fn zero() -> Self {
        Real(0.0)
    }

    fn from_count(count: usize) -> Self {
        Real(count as f64)
    }

    fn plus(self, rhs: Self) -> Self {
        Real(self.0 + rhs.0)
    }

    fn minus(self, rhs: Self) -> Self {
        Real(self.0 - rhs.0)
    }

    fn times(self, rhs: Self) -> Self {
        Real(self.0 * rhs.0)
    }

    fn over(self, rhs: Self) -> Self {
        Real(self.0 / rhs.0)
    }

    fn root(self) -> Self {
        Real(self.0.sqrt())
    }

    fn exceeds(self, rhs: Self) -> bool {
        self.0 > rhs.0
    }

    fn larger(self, rhs: Self) -> Self {
        Real(self.0.max(rhs.0))
    }

    fn text(self) -> String {
        format!("{}", self.0)
    }
}

fn reals(values: &[f64]) -> Vec<Real> {
    values.iter().map(|&x| Real(x)).collect()
}

fn accumulate(values: &[f64]) -> Accumulator<Real> {
    let mut acc = Accumulator::<Real>::new();
    for &x in values {
        acc.push(Real(x));
    }
    acc
}

fn analyzed(mean: f64, error: f64, tau: f64, n: u32, converged: bool) -> Analyzed<Real> {
    Analyzed {
        mean: Real(mean),
        error: Real(error),
        correlation_time: Real(tau),
        number_of_inputs: n,
        converged,
    }
}

#[test]
fn test_binning() {
    let mut an = Accumulator::<Real>::new();
    an.push(Real(1.0));
    an.push(Real(0.0));
    an.push(Real(-1.0));
    an.push(Real(3.0));
    an.push(Real(-3.0));
    let result = an.binning();
    let correct = Analyzed::<Real> {
        mean: Real(0.0),
        error: Real(1.0),
        correlation_time: Real(0.0),
        number_of_inputs: 5,
        converged: false,
    };
    assert_eq!(&result.unwrap(), &correct);

    let er = Accumulator::<Real>::new();
    let result_er = er.binning();
    assert_eq!(result_er.err(), Some("Dataset has no data".to_string()));
}

#[test]
fn test_push() {
    let mut measurement = Accumulator::<Real>::new();
    measurement.push(Real(1.0));
    measurement.push(Real(2.0));

    let mut raw_vector = Vec::<Real>::new();
    raw_vector.push(Real(1.0));
    raw_vector.push(Real(2.0));

    assert_eq!(measurement.samples(), &raw_vector[..]);
    assert_eq!(measurement, accumulate(&[1.0, 2.0]));
}

#[test]
fn test_format() {
    let an = Analyzed::<Real> {
        mean: Real(12.1),
        error: Real(0.3),
        correlation_time: Real(1.1),
        number_of_inputs: 1024,
        converged: true,
    };
    assert_eq!(an.render(), "12.1 +- 0.3, tau: 1.1 ......converged for 1024 entries");
}

#[test]
fn test_operation() {
    let an1 = Analyzed::<Real> {
        mean: Real(1.0),
        error: Real(0.1),
        number_of_inputs: 1000,
        correlation_time: Real(1.0),
        converged: true,
    };
    let an2 = Analyzed::<Real> {
        mean: Real(2.0),
        error: Real(0.2),
        number_of_inputs: 1200,
        correlation_time: Real(2.0),
        converged: true,
    };
    let an3 = Analyzed::<Real> {
        mean: Real(3.0),
        error: Real((0.1_f64 * 0.1 + 0.2 * 0.2).sqrt()),
        correlation_time: Real(2.0),
        number_of_inputs: 1000,
        converged: true,
    };
    let an4 = Analyzed::<Real> {
        mean: Real(2.0),
        error: Real((2.0_f64 * 0.1 * 2.0 * 0.1 + 1.0 * 0.2 * 1.0 * 0.2).sqrt()),
        correlation_time: Real(2.0),
        number_of_inputs: 1000,
        converged: true,
    };
    let an5 = Analyzed::<Real> {
        mean: Real(-1.0),
        error: Real((0.1_f64 * 0.1 + 0.2 * 0.2).sqrt()),
        correlation_time: Real(2.0),
        number_of_inputs: 1000,
        converged: true,
    };
    let an6 = Analyzed::<Real> {
        mean: Real(0.5),
        error: Real((0.1_f64 * 0.1 / 2.0 / 2.0 + 1.0 * 0.2 * 0.2 / 2.0 / 2.0 / 2.0 / 2.0).sqrt()),
        correlation_time: Real(2.0),
        number_of_inputs: 1000,
        converged: true,
    };
    assert_eq!(an3, an1 + an2);
    assert_eq!(an4, an1 * an2);
    assert_eq!(an5, an1 - an2);
    assert_eq!(an6, an1 / an2);
}

#[test]
fn random_test() {
    let seed: u64 = 22919;
    let mut rng: MersenneTwister = SeedableRng::from_seed(seed);
    let mut data = Accumulator::<Real>::new();
    let mut sum: f64 = 0.0;
    let mut x: f64 = 0.0;
    for _ in 0..65536 * 128 {
        let next = x + rng.next_f64() - 0.5;
        if x.abs() < next.abs() {
            let probability = ((x * x - next * next) * 0.125).exp();
            let random = rng.next_f64();
            if probability > random {
                x = next;
            }
        } else {
            x = next;
        }
        data.push(Real(x));
        sum = sum + x;
    }
    let result = data.binning().unwrap();
    assert_eq!(result.number_of_inputs, 65536 * 128);
    assert_eq!(result.mean, Real(sum / (65536.0 * 128.0)));
    assert!(result.mean.0.abs() < 0.1);
    assert!(result.error.0 > 0.0 && result.error.0 < 0.1);
    assert!(result.correlation_time.0 > 1.0);
    let res = analyzed(0.0, 0.0, 1.0, 1000, false);
    assert_ne!(result, res);
}

#[test]
fn small_sample_error_is_root_of_variance_of_mean() {
    let values = [2.0, 4.0, 4.0, 4.0, 5.0, 5.0, 7.0, 9.0];
    let result = accumulate(&values).binning().unwrap();
    assert_eq!(result.mean, Real(5.0));
    assert_eq!(result.error, Real((32.0_f64 / 56.0).sqrt()));
    assert_eq!(result.error.0 * result.error.0, (32.0_f64 / 56.0).sqrt() * (32.0_f64 / 56.0).sqrt());
    assert_eq!(result.correlation_time, Real(0.0));
    assert_eq!(result.number_of_inputs, 8);
    assert!(!result.converged);
}

#[test]
fn small_sample_path_reaches_thirty_one() {
    let values: Vec<f64> = (0..31).map(|i| i as f64).collect();
    let result = accumulate(&values).binning().unwrap();
    assert_eq!(result.mean, Real(15.0));
    assert_eq!(result.error, Real((2480.0_f64 / (31.0 * 30.0)).sqrt()));
    assert_eq!(result.correlation_time, Real(0.0));
    assert_eq!(result.number_of_inputs, 31);
    assert!(!result.converged);
}

#[test]
fn two_samples() {
    let result = accumulate(&[1.0, 3.0]).binning().unwrap();
    assert_eq!(result, analyzed(2.0, 1.0, 0.0, 2, false));
}

#[test]
fn single_sample_has_no_finite_error() {
    let result = accumulate(&[4.0]).binning().unwrap();
    assert_eq!(result.mean, Real(4.0));
    assert!(result.error.0.is_nan());
    assert_eq!(result.correlation_time, Real(0.0));
    assert_eq!(result.number_of_inputs, 1);
    assert!(!result.converged);
}

#[test]
fn empty_dataset_is_the_only_error() {
    let empty = Accumulator::<Real>::new();
    assert_eq!(empty.binning(), Err("Dataset has no data".to_string()));
    assert!(accumulate(&[0.0]).binning().is_ok());
}

#[test]
fn binned_path_starts_at_thirty_two() {
    let values: Vec<f64> = (0..32).map(|i| if i % 2 == 0 { 1.0 } else { -1.0 }).collect();
    let result = accumulate(&values).binning().unwrap();
    // One sample per fine block, two per coarse block: the coarse means are
    // all zero, the fine means are not.
    assert_eq!(result.mean, Real(0.0));
    assert_eq!(result.error, Real(0.0));
    assert_eq!(result.correlation_time, Real(0.0));
    assert_eq!(result.number_of_inputs, 32);
    assert!(!result.converged);
}

#[test]
fn ramp_of_sixty_four() {
    let values: Vec<f64> = (0..64).map(|i| i as f64).collect();
    let result = accumulate(&values).binning().unwrap();
    let naive = 21840.0_f64 / (64.0 * 63.0);
    let coarse = 5440.0_f64 / (16.0 * 15.0);
    assert_eq!(result.mean, Real(31.5));
    assert_eq!(result.error, Real(coarse.sqrt()));
    assert_eq!(result.correlation_time, Real(coarse / naive));
    assert_eq!(result.number_of_inputs, 64);
    assert!(result.converged);
}

#[test]
fn fine_error_within_tolerance_converges() {
    // Fine blocks of one sample, coarse blocks of two equal samples: both
    // cuts see the same means.
    let mut values = Vec::new();
    for i in 0..16 {
        let v = if i % 2 == 0 { 2.0 } else { -2.0 };
        values.push(v);
        values.push(v);
    }
    let result = accumulate(&values).binning().unwrap();
    let fine = (128.0_f64 / (32.0 * 31.0)).sqrt();
    let coarse = (64.0_f64 / (16.0 * 15.0)).sqrt();
    assert!(fine <= coarse * 1.05);
    assert_eq!(result.error, Real(coarse));
    assert!(result.converged);
}

#[test]
fn trailing_samples_are_left_out_of_the_blocks() {
    let mut values = Vec::new();
    for i in 0..16 {
        let v = if i % 2 == 0 { 2.0 } else { -2.0 };
        values.push(v);
        values.push(v);
    }
    values.push(6.0);
    values.push(-6.0);
    values.push(0.0);
    let result = accumulate(&values).binning().unwrap();
    let naive = (128.0_f64 + 72.0) / (35.0 * 34.0);
    let coarse = 64.0_f64 / (16.0 * 15.0);
    assert_eq!(result.mean, Real(0.0));
    assert_eq!(result.error, Real(coarse.sqrt()));
    assert_eq!(result.correlation_time, Real(coarse / naive));
    assert_eq!(result.number_of_inputs, 35);
    assert!(result.converged);
}

#[test]
fn order_of_samples_matters() {
    let ramp: Vec<f64> = (0..64).map(|i| i as f64).collect();
    let mut shuffled = ramp.clone();
    shuffled.swap(0, 63);
    shuffled.swap(5, 40);
    let a = accumulate(&ramp).binning().unwrap();
    let b = accumulate(&shuffled).binning().unwrap();
    assert_eq!(a.mean, b.mean);
    assert_ne!(a.error, b.error);
    assert_ne!(a, b);
}

#[test]
fn same_samples_same_result() {
    let values: Vec<f64> = (0..100).map(|i| ((i * 37) % 11) as f64 * 0.1 - 0.3).collect();
    let a = accumulate(&values).binning().unwrap();
    let b = accumulate(&values).binning().unwrap();
    assert_eq!(a.mean.0.to_bits(), b.mean.0.to_bits());
    assert_eq!(a.error.0.to_bits(), b.error.0.to_bits());
    assert_eq!(a.correlation_time.0.to_bits(), b.correlation_time.0.to_bits());
    assert_eq!(a.number_of_inputs, b.number_of_inputs);
    assert_eq!(a.converged, b.converged);
}

#[test]
fn block_means_follow_the_order() {
    let values: Vec<f64> = (0..10).map(|i| i as f64).collect();
    let data = reals(&values);
    assert_eq!(bin_means(&data, 2), reals(&[2.0, 7.0]));
    assert_eq!(bin_means(&data, 3), reals(&[1.0, 4.0, 7.0]));
    assert_eq!(bin_means(&data, 5), reals(&[0.5, 2.5, 4.5, 6.5, 8.5]));
    assert_eq!(bin_means(&data, 10), reals(&values));
}

#[test]
fn more_blocks_than_samples_gives_empty_blocks() {
    let data = reals(&[1.0, 2.0]);
    let means = bin_means(&data, 3);
    assert_eq!(means.len(), 3);
    assert!(means.iter().all(|m| m.0.is_nan()));
}

#[test]
fn binned_error_of_a_ramp() {
    let values: Vec<f64> = (0..64).map(|i| i as f64).collect();
    let data = reals(&values);
    let (variance, error) = binned_error(&data, Real(31.5), 32);
    assert_eq!(variance, Real(10912.0 / (32.0 * 31.0)));
    assert_eq!(variance, Real(11.0));
    assert_eq!(error, Real(11.0_f64.sqrt()));
}

#[test]
fn series_statistics() {
    let data = reals(&[1.0, 2.0, 6.0]);
    assert_eq!(total(&data), Real(9.0));
    assert_eq!(mean(&data), Real(3.0));
    assert_eq!(square_deviation(Real(6.0), Real(3.0)), Real(9.0));
    assert_eq!(spread(&data, Real(3.0)), Real(14.0));
    assert_eq!(pairs::<Real>(3), Real(6.0));
    assert_eq!(pairs::<Real>(1), Real(0.0));
    assert_eq!(variance_of_mean(&data, Real(3.0)), Real(14.0 / 6.0));
    assert_eq!(total(&reals(&[])), Real(0.0));
    assert_eq!(spread(&reals(&[]), Real(1.0)), Real(0.0));
}

#[test]
fn tolerance_is_five_percent() {
    assert_eq!(limit(Real(2.0)), Real(2.0 * 1.05));
    assert_eq!(limit(Real(1.0)), Real(1.05));
}

#[test]
fn quadrature_of_three_and_four() {
    assert_eq!(quadrature(Real(3.0), Real(4.0)), Real(5.0));
}

#[test]
fn reported_count_keeps_what_fits() {
    assert_eq!(report_count(0), 0);
    assert_eq!(report_count(5), 5);
    assert_eq!(report_count(4294967295), 4294967295);
}

#[test]
fn reported_count_drops_the_high_bits() {
    assert_eq!(report_count(4294967296), 0);
    assert_eq!(report_count(4294967301), 5);
}

#[test]
fn sum_takes_fewer_inputs_larger_tau_and_both_converged() {
    let a = analyzed(1.0, 0.1, 1.0, 1000, true);
    let b = analyzed(2.0, 0.2, 2.0, 1200, true);
    let r = a + b;
    assert_eq!(r.mean, Real(3.0));
    assert_eq!(r.error, Real((0.1_f64 * 0.1 + 0.2 * 0.2).sqrt()));
    assert!((r.error.0 - 0.2236).abs() < 1e-4);
    assert_eq!(r.number_of_inputs, 1000);
    assert_eq!(r.correlation_time, Real(2.0));
    assert!(r.converged);
    let s = b + a;
    assert_eq!(s.number_of_inputs, 1000);
    assert_eq!(s.correlation_time, Real(2.0));
}

#[test]
fn one_side_not_converged() {
    let a = analyzed(1.0, 0.1, 1.0, 10, true);
    let b = analyzed(2.0, 0.2, 2.0, 20, false);
    let c = analyzed(2.0, 0.2, 2.0, 20, false);
    assert!(!(a + b).converged);
    assert!(!(b - a).converged);
    assert!(!(a * b).converged);
    assert!(!(b / a).converged);
    assert!(!(b + c).converged);
}

#[test]
fn product_and_quotient_errors() {
    let a = analyzed(3.0, 0.5, 1.0, 7, true);
    let b = analyzed(4.0, 0.25, 0.5, 9, true);
    let p = a * b;
    assert_eq!(p.mean, Real(12.0));
    assert_eq!(p.error, Real((2.0_f64 * 2.0 + 0.75 * 0.75).sqrt()));
    assert_eq!(p.number_of_inputs, 7);
    assert_eq!(p.correlation_time, Real(1.0));
    let q = a / b;
    assert_eq!(q.mean, Real(0.75));
    assert_eq!(q.error, Real((0.125_f64 * 0.125 + 0.046875 * 0.046875).sqrt()));
    assert_eq!(q.number_of_inputs, 7);
    assert_eq!(q.correlation_time, Real(1.0));
}

#[test]
fn division_by_zero_mean_is_not_an_error() {
    let a = analyzed(3.0, 0.5, 1.0, 7, true);
    let z = analyzed(0.0, 0.25, 0.5, 9, true);
    let q = a / z;
    assert!(!q.mean.0.is_finite());
    assert!(!q.error.0.is_finite());
    assert_eq!(q.number_of_inputs, 7);
    assert!(q.converged);
}

#[test]
fn rendering_says_when_not_converged() {
    let an = analyzed(-0.5, 2.0, 0.0, 5, false);
    assert_eq!(an.render(), "-0.5 +- 2, tau: 0 ......NOT CONVERGED!!! for 5 entries");
}

#[test]
fn compose_puts_the_texts_in_place() {
    assert_eq!(compose("a", "b", "c", true, 0), "a +- b, tau: c ......converged for 0 entries");
    assert_eq!(
        compose("", "", "", false, 4294967295),
        " +- , tau:  ......NOT CONVERGED!!! for 4294967295 entries"
    );
}

#[test]
fn decimal_text_of_counts() {
    assert_eq!(decimal_text(0), "0");
    assert_eq!(decimal_text(7), "7");
    assert_eq!(decimal_text(10), "10");
    assert_eq!(decimal_text(1024), "1024");
    assert_eq!(decimal_text(1234567890), "1234567890");
    assert_eq!(decimal_text(4294967295), "4294967295");
}
