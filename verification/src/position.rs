use vstd::prelude::*;

verus! {

/// A single position sample from the telemetry feed.
///
/// Latitude and longitude are carried as the IEEE 754 bit patterns of the
/// 64-bit values the feed reports. The core never interprets the
/// coordinates numerically — it stores them and reproduces them verbatim —
/// so the bit pattern is a faithful representation; the surrounding binary
/// converts with `f64::to_bits` / `f64::from_bits` at the boundary.
#[derive(Clone, Copy, PartialEq, Eq, Structural, Debug)]
pub struct Position {
    /// Bit pattern of the latitude in degrees.
    pub latitude_bits: u64,
    /// Bit pattern of the longitude in degrees.
    pub longitude_bits: u64,
}

impl Position {
    /// The snapshot value before any telemetry has arrived: both
    /// coordinates zero (`0.0` has bit pattern `0`).
    pub open spec fn spec_default() -> Position {
        Position { latitude_bits: 0, longitude_bits: 0 }
    }

    pub fn new(latitude_bits: u64, longitude_bits: u64) -> (p: Position)
        ensures
            p == (Position { latitude_bits, longitude_bits }),
    {
        Position { latitude_bits, longitude_bits }
    }
}

impl Default for Position {
    /// The initial snapshot `(0.0, 0.0)`.
    fn default() -> (p: Position)
        ensures
            p == Position::spec_default(),
    {
        Position { latitude_bits: 0, longitude_bits: 0 }
    }
}

} // verus!
