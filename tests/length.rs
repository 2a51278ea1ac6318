use quantities::length::{
    walking, IntoLength, Length, LengthError, LengthUnit, Meters, Miles, Millimeters,
};

fn value_of(length: &Length) -> f64 {
    let (nanometers, scale) = length.value_fraction();
    nanometers as f64 / scale as f64
}

#[test]
fn units_per_nanometer_table() {
    assert_eq!(LengthUnit::Meters.units_per_nanometer(), 1_000_000_000);
    assert_eq!(LengthUnit::Millimeters.units_per_nanometer(), 1_000_000);
    assert_eq!(LengthUnit::Miles.units_per_nanometer(), 1_609_344_000_000);
}

#[test]
fn meters_to_millimeters() {
    let meters = Length::from(LengthUnit::Meters, 100).unwrap();
    assert_eq!(value_of(&meters), 100.0);
    assert_eq!(meters.nanometers(), 100_000_000_000);
    let mm = meters.to(LengthUnit::Millimeters);
    assert_eq!(mm.unit(), LengthUnit::Millimeters);
    assert_eq!(value_of(&mm), 100000.0);
    assert_eq!(mm.whole_value(), Some(100000));
}

#[test]
fn miles_round_trip_and_meters_in_miles() {
    let miles = Length::from(LengthUnit::Miles, 500).unwrap();
    assert_eq!(value_of(&miles.to(LengthUnit::Miles)), 500.0);
    assert_eq!(miles.to(LengthUnit::Miles).whole_value(), Some(500));
    let meters = Length::from(LengthUnit::Meters, 500).unwrap().to(LengthUnit::Miles);
    assert_eq!(meters.value_fraction(), (500_000_000_000, 1_609_344_000_000));
    assert_eq!(meters.whole_value(), None);
    assert!((value_of(&meters) - 500.0 / 1609.344).abs() < 1e-12);
    assert!((value_of(&meters) - 0.31068).abs() < 1e-5);
}

#[test]
fn round_trip_is_exact_in_every_unit() {
    for unit in [LengthUnit::Meters, LengthUnit::Millimeters, LengthUnit::Miles] {
        for v in [0i64, 1, -1, 7, -12345, 5_000_000] {
            let l = Length::from(unit, v).unwrap();
            assert_eq!(l.to(unit).whole_value(), Some(v));
            assert_eq!(value_of(&l.to(unit)), v as f64);
        }
    }
}

#[test]
fn overflow_is_reported() {
    assert_eq!(
        Length::from(LengthUnit::Miles, 10_000_000_000).err(),
        Some(LengthError::Overflow)
    );
    assert_eq!(Length::from(LengthUnit::Meters, i64::MAX).err(), Some(LengthError::Overflow));
    assert_eq!(Length::from(LengthUnit::Miles, i64::MIN).err(), Some(LengthError::Overflow));
    // the largest whole number of miles that fits
    let largest = i64::MAX / 1_609_344_000_000;
    assert!(Length::from(LengthUnit::Miles, largest).is_ok());
    assert!(Length::from(LengthUnit::Miles, largest + 1).is_err());
    assert!(Length::from(LengthUnit::Millimeters, i64::MAX / 1_000_000).is_ok());
}

#[test]
fn representations_convert_into_lengths() {
    let m = Meters(3).into_length().unwrap();
    assert_eq!((m.nanometers(), m.unit()), (3_000_000_000, LengthUnit::Meters));
    let mm = Millimeters(-4).into_length().unwrap();
    assert_eq!((mm.nanometers(), mm.unit()), (-4_000_000, LengthUnit::Millimeters));
    let mi = Miles(2).into_length().unwrap();
    assert_eq!((mi.nanometers(), mi.unit()), (3_218_688_000_000, LengthUnit::Miles));
    assert_eq!(Miles(10_000_000_000).into_length().err(), Some(LengthError::Overflow));
}

#[test]
fn walking_expresses_any_representation_in_miles() {
    let a = walking(Length::from(LengthUnit::Miles, 500).unwrap()).unwrap();
    assert_eq!(a.unit(), LengthUnit::Miles);
    assert_eq!(a.whole_value(), Some(500));
    let b = walking(Meters(500)).unwrap();
    assert_eq!(b.unit(), LengthUnit::Miles);
    assert_eq!(b.nanometers(), 500_000_000_000);
    let c = walking(Millimeters(1_609_344)).unwrap();
    assert_eq!(c.whole_value(), Some(1));
    assert_eq!(walking(Miles(i64::MAX)).err(), Some(LengthError::Overflow));
}
