use vmc::hermite::{Hermite, MAX_ORDER};
use vmc::error::VmcError;

fn evaluate(x: f64, n: usize) -> Result<f64, VmcError> {
    let c = Hermite::coefficients(n)?;
    Ok(c.iter().enumerate().map(|(i, ci)| *ci as f64 * x.powi(i as i32)).sum())
}

#[test]
fn test_evaluate() {
    let tol = 0.000000000000001;
    let want = -1.64;
    let got = evaluate(0.3, 2).expect("Hermite::evalute returned an error.");
    assert!((want - got).abs() < tol);

    let want = -2.37618e7;
    let got = evaluate(-15., 5).expect("Hermite::evalute returned an error.");
    assert_eq!(want, got);
    assert!((want - got).abs() < tol);
}

#[test]
fn test_returns_error() {
    match evaluate(1., 8) {
        Ok(_) => {
            panic!("Hermite::evalute did not error correctly when the order was too high.")
        }
        Err(_) => {}
    }
}

#[test]
fn coefficients_of_every_supported_order() {
    let want: Vec<Vec<i64>> = vec![
        vec![1],
        vec![0, 2],
        vec![-2, 0, 4],
        vec![0, -12, 0, 8],
        vec![12, 0, -48, 0, 16],
        vec![0, 120, 0, -160, 0, 32],
        vec![-120, 0, 720, 0, -480, 0, 64],
        vec![0, -1680, 0, 3360, 0, -1344, 0, 128],
    ];
    for n in 0..=MAX_ORDER {
        assert_eq!(Hermite::coefficients(n).unwrap(), want[n]);
    }
}

#[test]
fn order_above_bound_is_rejected() {
    assert_eq!(Hermite::coefficients(8), Err(VmcError::UnsupportedOrbitalOrder));
    assert_eq!(Hermite::derivative_coefficients(9), Err(VmcError::UnsupportedOrbitalOrder));
    assert_eq!(Hermite::second_derivative_coefficients(100), Err(VmcError::UnsupportedOrbitalOrder));
}

#[test]
fn derivative_coefficients_of_low_orders() {
    assert_eq!(Hermite::derivative_coefficients(0).unwrap(), Vec::<i64>::new());
    assert_eq!(Hermite::derivative_coefficients(1).unwrap(), vec![2]);
    assert_eq!(Hermite::derivative_coefficients(2).unwrap(), vec![0, 8]);
    assert_eq!(Hermite::derivative_coefficients(3).unwrap(), vec![-12, 0, 24]);
    assert_eq!(Hermite::derivative_coefficients(7).unwrap(), vec![-1680, 0, 10080, 0, -6720, 0, 896]);
}

#[test]
fn second_derivative_coefficients_of_low_orders() {
    assert_eq!(Hermite::second_derivative_coefficients(0).unwrap(), Vec::<i64>::new());
    assert_eq!(Hermite::second_derivative_coefficients(1).unwrap(), Vec::<i64>::new());
    assert_eq!(Hermite::second_derivative_coefficients(2).unwrap(), vec![8]);
    assert_eq!(Hermite::second_derivative_coefficients(3).unwrap(), vec![0, 48]);
    assert_eq!(Hermite::second_derivative_coefficients(4).unwrap(), vec![-96, 0, 192]);
}

#[test]
fn derivative_matches_identity_two_n_h_n_minus_one() {
    for n in 1..=MAX_ORDER {
        let d = Hermite::derivative_coefficients(n).unwrap();
        let lower = Hermite::coefficients(n - 1).unwrap();
        let scaled: Vec<i64> = lower.iter().map(|c| 2 * n as i64 * c).collect();
        assert_eq!(d, scaled);
    }
}
