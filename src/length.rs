use vstd::prelude::*;

verus! {

/// The closed set of named length units.
#[derive(Clone, Copy, Debug, PartialEq, Eq, Structural)]
pub enum LengthUnit {
    Meters,
    Millimeters,
    Miles,
}

/// Largest value of the canonical nanometer count.
pub open spec fn nanos_max() -> int {
    i64::MAX as int
}

/// Smallest value of the canonical nanometer count.
pub open spec fn nanos_min() -> int {
    i64::MIN as int
}

/// Whether a nanometer count can be held by a `Length`.
pub open spec fn fits_nanos(n: int) -> bool {
    nanos_min() <= n <= nanos_max()
}

impl LengthUnit {
    /// Number of nanometers in one of this unit.
    pub open spec fn scale(self) -> int {
        match self {
            LengthUnit::Meters => 1_000_000_000,
            LengthUnit::Millimeters => 1_000_000,
            LengthUnit::Miles => 1_609_344_000_000,
        }
    }

    /// Returns the number of nanometers in one of this unit.
    pub fn units_per_nanometer(&self) -> (r: i64)
        ensures
            r as int == self.scale(),
            r > 0,
    {
        match self {
            LengthUnit::Meters => 1_000_000_000,
            LengthUnit::Millimeters => 1_000_000,
            LengthUnit::Miles => 1_609_344_000_000,
        }
    }
}

/// Nanometer count of `value` whole units of `unit`.
pub open spec fn scaled(unit: LengthUnit, value: int) -> int {
    value * unit.scale()
}

/// The value of `nanometers` read in `unit`, when it is a whole number of
/// that unit.
pub open spec fn whole_units(nanometers: int, unit: LengthUnit) -> Option<int> {
    if nanometers % unit.scale() == 0 {
        Some(nanometers / unit.scale())
    } else {
        None
    }
}

/// Why a length could not be built.
#[derive(Clone, Copy, Debug, PartialEq, Eq, Structural)]
pub enum LengthError {
    /// The nanometer count does not fit in a signed 64-bit integer.
    Overflow,
}

/// A length, held as an exact count of nanometers and tagged with the unit it
/// was last expressed in.
#[derive(Clone, Copy, Debug)]
pub struct Length {
    nanometers: i64,
    unit: LengthUnit,
}

impl Length {
    /// The canonical magnitude, in nanometers.
    pub closed spec fn nanos(&self) -> int {
        self.nanometers as int
    }

    /// Every length's nanometer count is in range.
    pub proof fn lemma_nanos_fit(&self)
        ensures
            fits_nanos(self.nanos()),
    {
    }

    /// The unit the length is displayed in.
    pub closed spec fn display_unit(&self) -> LengthUnit {
        self.unit
    }

    /// Builds `value` units of `unit`, or reports that the nanometer count
    /// overflows.
    pub fn from(unit: LengthUnit, value: i64) -> (r: Result<Length, LengthError>)
        ensures
            r is Ok <==> fits_nanos(scaled(unit, value as int)),
            r is Ok ==> r->Ok_0.nanos() == scaled(unit, value as int)
                && r->Ok_0.display_unit() == unit,
            r is Err ==> r == Err::<Length, LengthError>(LengthError::Overflow),
    {
        let scale = unit.units_per_nanometer();
        match value.checked_mul(scale) {
            Some(nanometers) => Ok(Length { nanometers, unit }),
            None => Err(LengthError::Overflow),
        }
    }

    /// The same length, displayed in `unit`.
    pub fn to(&self, unit: LengthUnit) -> (r: Length)
        ensures
            r.nanos() == self.nanos(),
            r.display_unit() == unit,
    {
        Length { nanometers: self.nanometers, unit }
    }

    /// The unit the length is displayed in.
    pub fn unit(&self) -> (r: LengthUnit)
        ensures
            r == self.display_unit(),
    {
        self.unit
    }

    /// The canonical magnitude, in nanometers.
    pub fn nanometers(&self) -> (r: i64)
        ensures
            r as int == self.nanos(),
    {
        self.nanometers
    }

    /// The value in the display unit as an exact fraction: the nanometer
    /// count over the unit's size in nanometers.
    pub fn value_fraction(&self) -> (r: (i64, i64))
        ensures
            r.0 as int == self.nanos(),
            r.1 as int == self.display_unit().scale(),
    {
        (self.nanometers, self.unit.units_per_nanometer())
    }

    /// The value in the display unit, when it is a whole number of that unit.
    pub fn whole_value(&self) -> (r: Option<i64>)
        ensures
            match whole_units(self.nanos(), self.display_unit()) {
                Some(v) => r == Some(v as i64) && v == r->Some_0 as int,
                None => r is None,
            },
    {
        let scale = self.unit.units_per_nanometer();
        if self.nanometers % scale == 0 {
            Some(self.nanometers / scale)
        } else {
            None
        }
    }
}

/// A representation that can be turned into a `Length`.
///
/// The conversion may fail with `LengthError::Overflow` when the nanometer
/// count does not fit; consumers call it once and then work on the `Length`.
pub trait IntoLength: Sized {
    /// The nanometer count this value stands for.
    spec fn nanos_of(self) -> int;

    /// The unit this value is expressed in.
    spec fn unit_of(self) -> LengthUnit;

    fn into_length(self) -> (r: Result<Length, LengthError>)
        ensures
            r is Ok <==> fits_nanos(self.nanos_of()),
            r is Ok ==> r->Ok_0.nanos() == self.nanos_of() && r->Ok_0.display_unit()
                == self.unit_of(),
            r is Err ==> r == Err::<Length, LengthError>(LengthError::Overflow),
    ;
}

/// A whole number of meters.
#[derive(Clone, Copy, Debug, PartialEq, Eq, Structural)]
pub struct Meters(pub i64);

/// A whole number of millimeters.
#[derive(Clone, Copy, Debug, PartialEq, Eq, Structural)]
pub struct Millimeters(pub i64);

/// A whole number of miles.
#[derive(Clone, Copy, Debug, PartialEq, Eq, Structural)]
pub struct Miles(pub i64);

impl IntoLength for Length {
    open spec fn nanos_of(self) -> int {
        self.nanos()
    }

    open spec fn unit_of(self) -> LengthUnit {
        self.display_unit()
    }

    fn into_length(self) -> (r: Result<Length, LengthError>) {
        Ok(self)
    }
}

impl IntoLength for Meters {
    open spec fn nanos_of(self) -> int {
        scaled(LengthUnit::Meters, self.0 as int)
    }

    open spec fn unit_of(self) -> LengthUnit {
        LengthUnit::Meters
    }

    fn into_length(self) -> (r: Result<Length, LengthError>) {
        Length::from(LengthUnit::Meters, self.0)
    }
}

impl IntoLength for Millimeters {
    open spec fn nanos_of(self) -> int {
        scaled(LengthUnit::Millimeters, self.0 as int)
    }

    open spec fn unit_of(self) -> LengthUnit {
        LengthUnit::Millimeters
    }

    fn into_length(self) -> (r: Result<Length, LengthError>) {
        Length::from(LengthUnit::Millimeters, self.0)
    }
}

impl IntoLength for Miles {
    open spec fn nanos_of(self) -> int {
        scaled(LengthUnit::Miles, self.0 as int)
    }

    open spec fn unit_of(self) -> LengthUnit {
        LengthUnit::Miles
    }

    fn into_length(self) -> (r: Result<Length, LengthError>) {
        Length::from(LengthUnit::Miles, self.0)
    }
}

/// A walking distance, given in any length representation, expressed in
/// miles; a failed conversion is passed on.
pub fn walking<D: IntoLength>(distance: D) -> (r: Result<Length, LengthError>)
    ensures
        r is Ok <==> fits_nanos(distance.nanos_of()),
        r is Ok ==> r->Ok_0.nanos() == distance.nanos_of() && r->Ok_0.display_unit()
            == LengthUnit::Miles,
        r is Err ==> r == Err::<Length, LengthError>(LengthError::Overflow),
{
    match distance.into_length() {
        Ok(length) => Ok(length.to(LengthUnit::Miles)),
        Err(e) => Err(e),
    }
}

/// Round trip: `value` units of `unit`, read back in `unit`, is exactly
/// `value`, with no remainder.
pub proof fn lemma_round_trip_exact(unit: LengthUnit, value: int)
    requires
        fits_nanos(scaled(unit, value)),
    ensures
        whole_units(scaled(unit, value), unit) == Some(value),
{
    let s = unit.scale();
    vstd::arithmetic::div_mod::lemma_mod_multiples_basic(value, s);
    vstd::arithmetic::div_mod::lemma_div_multiples_vanish(value, s);
}

/// Cross-unit equivalence: `value` meters read in millimeters is exactly
/// `1000 * value` millimeters.
pub proof fn lemma_meters_in_millimeters(value: int)
    requires
        fits_nanos(scaled(LengthUnit::Meters, value)),
    ensures
        whole_units(scaled(LengthUnit::Meters, value), LengthUnit::Millimeters)
            == Some(1000 * value),
{
    assert(scaled(LengthUnit::Meters, value) == scaled(LengthUnit::Millimeters, 1000 * value))
        by (nonlinear_arith);
    lemma_round_trip_exact(LengthUnit::Millimeters, 1000 * value);
}

} // verus!
