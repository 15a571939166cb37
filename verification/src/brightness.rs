//! The brightness value object.
//!
//! The external tools speak in "points": the backlight tool in percent
//! points, the daemon in a blend factor of one. The stored brightness value
//! ranges over 10 to 200 points and carries five decimal places, so it is
//! held here in units of one hundred-thousandth of a point. Every mutation
//! clamps back into range.

use vstd::prelude::*;

verus! {

/// One brightness point, in stored units (five decimal places).
pub const POINT_UNITS: i64 = 100_000;

/// Lowest storable value: 10 points.
pub const MIN_UNITS: i64 = 1_000_000;

/// Highest storable value: 200 points.
pub const MAX_UNITS: i64 = 20_000_000;

/// Offset between the stored value and the backlight level: 100 points.
pub const BASE_UNITS: i64 = 10_000_000;

/// Smallest backlight level ever emitted: 0.10673 points.
pub const LIGHT_FLOOR_UNITS: i64 = 10_673;

/// Below this stored value the backlight level stays at its floor.
pub const LIGHT_KNEE_UNITS: i64 = BASE_UNITS + LIGHT_FLOOR_UNITS;

/// A blend factor of 1.0, in ten-millionths.
pub const BLEND_ONE: i64 = 10_000_000;

/// The stored value clamped into the admissible range.
pub open spec fn clamped(v: int) -> int {
    if v < MIN_UNITS as int {
        MIN_UNITS as int
    } else if v > MAX_UNITS as int {
        MAX_UNITS as int
    } else {
        v
    }
}

/// Backlight level derived from a stored value `v`, in the same units:
/// a fixed floor below the knee, otherwise the value less the offset.
pub open spec fn light_level(v: int) -> int {
    if v < LIGHT_KNEE_UNITS as int {
        LIGHT_FLOOR_UNITS as int
    } else {
        v - BASE_UNITS as int
    }
}

/// Color-temperature blend factor derived from a stored value `v`, in
/// ten-millionths of one: capped at one, otherwise the value over 100.
pub open spec fn blend_factor(v: int) -> int {
    if v > BASE_UNITS as int {
        BLEND_ONE as int
    } else {
        v
    }
}

/// The clamped brightness value, in hundred-thousandths of a point.
pub struct Brightness {
    units: i64,
}

impl Brightness {
    /// The stored value.
    pub closed spec fn units_spec(&self) -> int {
        self.units as int
    }

    /// The invariant every constructor establishes and every mutation
    /// preserves: the stored value lies in the admissible range.
    pub open spec fn wf(&self) -> bool {
        MIN_UNITS as int <= self.units_spec() <= MAX_UNITS as int
    }

    /// Builds a brightness from any requested value, clamping it.
    pub fn new(units: i64) -> (b: Brightness)
        ensures
            b.units_spec() == clamped(units as int),
            b.wf(),
    {
        let mut b = Brightness { units: MIN_UNITS };
        b.set(units);
        b
    }

    /// Builds the startup brightness from the backlight tool's reading,
    /// offset upward by 100 points and clamped.
    pub fn from_reading(reading: i64) -> (b: Brightness)
        ensures
            b.units_spec() == clamped(reading as int + BASE_UNITS as int),
            b.wf(),
    {
        if reading >= MAX_UNITS {
            Brightness { units: MAX_UNITS }
        } else {
            Brightness::new(reading + BASE_UNITS)
        }
    }

    /// The stored value, for reading out over the wire.
    pub fn value_units(&self) -> (u: i64)
        ensures
            u as int == self.units_spec(),
    {
        self.units
    }

    /// Stores the requested value, clamped into range.
    pub fn set(&mut self, value: i64)
        ensures
            final(self).units_spec() == clamped(value as int),
            final(self).wf(),
    {
        if value < MIN_UNITS {
            self.units = MIN_UNITS;
        } else if value > MAX_UNITS {
            self.units = MAX_UNITS;
        } else {
            self.units = value;
        }
    }

    /// Moves the stored value by `delta`, clamping the sum into range.
    pub fn change(&mut self, delta: i64)
        requires
            old(self).wf(),
        ensures
            final(self).units_spec() == clamped(old(self).units_spec() + delta as int),
            final(self).wf(),
    {
        if delta >= 0 {
            if delta >= MAX_UNITS - self.units {
                self.units = MAX_UNITS;
            } else {
                self.set(self.units + delta);
            }
        } else {
            if delta <= MIN_UNITS - self.units {
                self.units = MIN_UNITS;
            } else {
                self.set(self.units + delta);
            }
        }
    }

    /// The backlight level to hand the backlight tool, in stored units.
    pub fn to_light(&self) -> (l: i64)
        ensures
            l as int == light_level(self.units_spec()),
    {
        if self.units < LIGHT_KNEE_UNITS {
            LIGHT_FLOOR_UNITS
        } else {
            self.units - BASE_UNITS
        }
    }

    /// The blend factor to hand the daemon, in ten-millionths of one.
    pub fn to_redshift(&self) -> (r: i64)
        ensures
            r as int == blend_factor(self.units_spec()),
    {
        if self.units > BASE_UNITS {
            BLEND_ONE
        } else {
            self.units
        }
    }
}

/// Moving the value by `d` and then by `-d` restores it, as long as both the
/// value and the moved value lie within the clamping range.
pub proof fn lemma_change_round_trip(v: int, d: int)
    requires
        MIN_UNITS as int <= v <= MAX_UNITS as int,
        MIN_UNITS as int <= v + d <= MAX_UNITS as int,
    ensures
        clamped(clamped(v + d) + (-d)) == v,
{
}

} // verus!
