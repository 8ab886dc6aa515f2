use solar_simulation::color::Color;
use solar_simulation::fixed::FX_HALF;
use solar_simulation::fixed::FX_ONE;

#[test]
fn scale_by_half_truncates_each_channel() {
    let c = Color::new(100, 200, 10);
    let d = c.scale(FX_HALF);
    assert_eq!(d, Color { r: 50, g: 100, b: 5 });
}

#[test]
fn scale_clamps_high_and_low() {
    let c = Color::new(200, 3, 255);
    // factor 2.0: channels clamp at 255 instead of wrapping
    let up = c.scale(2 * FX_ONE);
    assert_eq!(up, Color { r: 255, g: 6, b: 255 });
    // a negative factor clamps at 0
    let down = c.scale(-FX_ONE);
    assert_eq!(down, Color { r: 0, g: 0, b: 0 });
}

#[test]
fn scale_is_monotonic_in_the_factor() {
    let c = Color::new(37, 141, 254);
    let mut prev = c.scale(0);
    let mut s: i64 = 0;
    while s <= 3 * FX_ONE {
        let cur = c.scale(s);
        assert!(prev.r <= cur.r && prev.g <= cur.g && prev.b <= cur.b);
        prev = cur;
        s += 1234;
    }
}

#[test]
fn lerp_hits_both_endpoints() {
    let a = Color::new(10, 20, 30);
    let b = Color::new(255, 255, 255);
    assert_eq!(a.lerp(&b, 0), Color { r: 10, g: 20, b: 30 });
    assert_eq!(a.lerp(&b, FX_ONE), Color { r: 255, g: 255, b: 255 });
    // the factor is clamped to [0, 1]
    assert_eq!(a.lerp(&b, -5 * FX_ONE), Color { r: 10, g: 20, b: 30 });
    assert_eq!(a.lerp(&b, 5 * FX_ONE), Color { r: 255, g: 255, b: 255 });
}

#[test]
fn lerp_midpoint() {
    let a = Color::new(0, 100, 200);
    let b = Color::new(100, 200, 100);
    assert_eq!(a.lerp(&b, FX_HALF), Color { r: 50, g: 150, b: 150 });
}

#[test]
fn to_hex_packs_channels() {
    assert_eq!(Color::new(1, 2, 3).to_hex(), 0x010203);
    assert_eq!(Color::new(255, 255, 255).to_hex(), 0xFFFFFF);
    assert_eq!(Color::black().to_hex(), 0x000000);
    assert_eq!(Color::new(0xAB, 0xCD, 0xEF).to_hex(), 0xABCDEF);
}
