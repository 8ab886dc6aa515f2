use solar_simulation::fixed::FX_MAX;
use solar_simulation::fixed::FX_ONE;
use solar_simulation::fixed::FX_PI;
use solar_simulation::fixed::FX_TWO_PI;
use solar_simulation::fixed::fx_add;
use solar_simulation::fixed::fx_div;
use solar_simulation::fixed::fx_from_int;
use solar_simulation::fixed::fx_mul;
use solar_simulation::fixed::fx_sin;
use solar_simulation::fixed::fx_sqrt;
use solar_simulation::fixed::fx_sub;
use solar_simulation::fixed::fx_trunc;
use solar_simulation::fixed::isqrt;

#[test]
fn fixed_products_and_quotients_are_exact_on_whole_numbers() {
    let three = fx_from_int(3);
    let two = fx_from_int(2);
    assert_eq!(fx_mul(three, two), fx_from_int(6));
    assert_eq!(fx_div(three, two), FX_ONE + FX_ONE / 2);
    assert_eq!(fx_add(three, two), fx_from_int(5));
    assert_eq!(fx_sub(two, three), fx_from_int(-1));
}

#[test]
fn saturation_never_wraps() {
    assert_eq!(fx_mul(FX_MAX, FX_MAX), FX_MAX);
    assert_eq!(fx_add(FX_MAX, FX_MAX), FX_MAX);
    assert_eq!(fx_mul(-FX_MAX, FX_MAX), -FX_MAX);
    assert_eq!(fx_from_int(1_000_000), FX_MAX);
}

#[test]
fn truncation_rounds_toward_zero() {
    assert_eq!(fx_trunc(3 * FX_ONE / 2), 1);
    assert_eq!(fx_trunc(-(3 * FX_ONE) / 2), -1);
    assert_eq!(fx_trunc(0), 0);
}

#[test]
fn integer_square_roots() {
    assert_eq!(isqrt(0), 0);
    assert_eq!(isqrt(10), 3);
    assert_eq!(isqrt(16), 4);
    assert_eq!(isqrt(u64::MAX), 0xFFFF_FFFF);
    assert_eq!(fx_sqrt(fx_from_int(4)), fx_from_int(2));
    assert_eq!(fx_sqrt(-FX_ONE), 0);
}

#[test]
fn sine_of_the_reference_angles() {
    assert_eq!(fx_sin(0), 0);
    assert_eq!(fx_sin(FX_PI), 0);
    // one unit below full amplitude at the quarter turn
    assert_eq!(fx_sin(FX_PI / 2), 65535);
    assert_eq!(fx_sin(FX_PI + FX_PI / 2), -65535);
}

#[test]
fn sine_reduces_negative_and_wrapped_angles() {
    assert_eq!(fx_sin(-(FX_PI / 2)), -65535);
    assert_eq!(fx_sin(FX_TWO_PI), 0);
    assert_eq!(fx_sin(FX_PI / 2 + FX_TWO_PI), 65535);
}
