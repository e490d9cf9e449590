//! Tests of the scalar units: elevation bands, saturating steps, and
//! the fixed-point vector helpers.

use plenty_logic::units::BiPolarFraction;
use plenty_logic::units::Distance;
use plenty_logic::units::Elevation;
use plenty_logic::units::Fraction;
use plenty_logic::units::Location;
use plenty_logic::units::Tick;
use plenty_logic::units::TileType;
use plenty_logic::units::Wind;
use plenty_logic::units::isqrt;

#[test]
fn classify_covers_the_bands_in_order() {
    assert_eq!(Elevation(i16::MIN).classify(), TileType::DeepWater);
    assert_eq!(Elevation(-18).classify(), TileType::DeepWater);
    assert_eq!(Elevation(-6).classify(), TileType::DeepWater);
    assert_eq!(Elevation(-5).classify(), TileType::ShallowWater);
    assert_eq!(Elevation(-1).classify(), TileType::ShallowWater);
    assert_eq!(Elevation(0).classify(), TileType::Beach);
    assert_eq!(Elevation(1).classify(), TileType::Grass);
    assert_eq!(Elevation(2).classify(), TileType::Grass);
    assert_eq!(Elevation(i16::MAX).classify(), TileType::Grass);
}

#[test]
fn passable_is_under_water() {
    assert!(Elevation(-1).is_passable());
    assert!(Elevation(-18).is_passable());
    assert!(!Elevation(0).is_passable());
    assert!(!Elevation(2).is_passable());
}

#[test]
fn band_bounds_are_contiguous() {
    assert_eq!(TileType::DeepWater.lowest(), Elevation(-18));
    assert_eq!(TileType::DeepWater.highest(), Elevation(-6));
    assert_eq!(TileType::ShallowWater.lowest(), Elevation(-5));
    assert_eq!(TileType::ShallowWater.highest(), Elevation(-1));
    assert_eq!(TileType::Beach.lowest(), Elevation(0));
    assert_eq!(TileType::Beach.highest(), Elevation(0));
    assert_eq!(TileType::Grass.lowest(), Elevation(1));
    assert_eq!(TileType::Grass.highest(), Elevation(2));
}

#[test]
fn lower_and_higher_saturate() {
    assert_eq!(Elevation(0).lower(), Elevation(-1));
    assert_eq!(Elevation(0).higher(), Elevation(1));
    assert_eq!(Elevation(i16::MIN).lower(), Elevation(i16::MIN));
    assert_eq!(Elevation(i16::MAX).higher(), Elevation(i16::MAX));
}

#[test]
fn tick_only_moves_forward() {
    assert_eq!(Tick(0).next(), Tick(1));
    assert_eq!(Tick(41).next(), Tick(42));
}

#[test]
fn isqrt_rounds_down() {
    assert_eq!(isqrt(0), 0);
    assert_eq!(isqrt(1), 1);
    assert_eq!(isqrt(15), 3);
    assert_eq!(isqrt(16), 4);
    assert_eq!(isqrt(1_000_000), 1000);
    assert_eq!(isqrt(999_999), 999);
    assert_eq!(isqrt(u64::MAX as u128), u32::MAX as u64);
}

#[test]
fn magnitude_of_a_pythagorean_pair() {
    let d = Distance::new(3000, 4000);
    assert_eq!(d.magnitude_sq(), 25_000_000);
    assert_eq!(d.magnitude(), 5000);
    let w = Wind { x: -3000, y: 4000 };
    assert_eq!(w.magnitude(), 5000);
}

#[test]
fn distance_arithmetic_is_componentwise() {
    let a = Distance::new(10, -20);
    let b = Distance::new(-4, 6);
    assert_eq!(a.plus(b), Distance::new(6, -14));
    assert_eq!(a.minus(b), Distance::new(14, -26));
    assert_eq!(a.neg(), Distance::new(-10, 20));
}

#[test]
fn locations_and_distances_form_an_affine_pair() {
    let a = Location::new(5000, 7000);
    let b = Location::new(2000, 9000);
    let d = a.minus(b);
    assert_eq!(d, Distance::new(3000, -2000));
    assert_eq!(b.offset(d), a);
}

#[test]
fn location_min_max_clamp() {
    let a = Location::new(1, 8);
    let b = Location::new(5, 2);
    assert_eq!(a.min(b), Location::new(1, 2));
    assert_eq!(a.max(b), Location::new(5, 8));
    let lo = Location::new(0, 0);
    let hi = Location::new(4, 4);
    assert_eq!(Location::new(-3, 9).clamp(lo, hi), Location::new(0, 4));
    assert_eq!(Location::new(2, 3).clamp(lo, hi), Location::new(2, 3));
}

#[test]
fn quantized_fractions_hold_their_raw_values() {
    assert_eq!(Fraction(255).0, 255);
    assert_eq!(BiPolarFraction(-127).0, -127);
    assert_eq!(Fraction::default(), Fraction(0));
    assert_eq!(BiPolarFraction::default(), BiPolarFraction(0));
}
