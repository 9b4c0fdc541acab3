//! The numbers that gauges are set to.

use vstd::prelude::*;

verus! {

/// A double-precision number, carried by its IEEE 754 bit pattern. Nothing
/// here computes with it: a reading of the engine is handed through to the
/// gauge as it came.
#[derive(Clone, Copy, Debug, PartialEq, Eq, Hash, Structural)]
pub struct Double {
    pub bits: u64,
}

impl Double {
    /// Positive zero, whose bit pattern is all zeros.
    pub open spec fn spec_zero() -> Double {
        Double { bits: 0 }
    }

    /// Positive zero.
    pub fn zero() -> (d: Double)
        ensures
            d == Double::spec_zero(),
    {
        Double { bits: 0 }
    }
}

/// The value of one gauge write, in the number type it was read in.
#[derive(Clone, Copy, Debug, PartialEq, Eq, Structural)]
pub enum GaugeValue {
    /// A count or an unsigned reading.
    Unsigned(u64),
    /// A signed reading.
    Signed(i64),
    /// A fractional reading.
    Double(Double),
}

/// What a gauge value says, apart from the width it is stored in.
pub enum Reading {
    Integer(int),
    Double(Double),
}

impl Reading {
    /// Holds of the integer zero and of the double positive zero.
    pub open spec fn is_zero(self) -> bool {
        match self {
            Reading::Integer(n) => n == 0,
            Reading::Double(d) => d == Double::spec_zero(),
        }
    }
}

impl View for GaugeValue {
    type V = Reading;

    open spec fn view(&self) -> Reading {
        match *self {
            GaugeValue::Unsigned(n) => Reading::Integer(n as int),
            GaugeValue::Signed(n) => Reading::Integer(n as int),
            GaugeValue::Double(d) => Reading::Double(d),
        }
    }
}

impl DeepView for GaugeValue {
    type V = Reading;

    open spec fn deep_view(&self) -> Reading {
        self@
    }
}

/// The number that a missing reading is exported as.
pub open spec fn unsigned_or_zero(reading: Option<u64>) -> int {
    match reading {
        Some(n) => n as int,
        None => 0,
    }
}

/// The number that a missing signed reading is exported as.
pub open spec fn signed_or_zero(reading: Option<i64>) -> int {
    match reading {
        Some(n) => n as int,
        None => 0,
    }
}

/// The number that a missing fractional reading is exported as.
pub open spec fn double_or_zero(reading: Option<Double>) -> Double {
    match reading {
        Some(d) => d,
        None => Double::spec_zero(),
    }
}

impl GaugeValue {
    /// An unsigned reading, zero where the engine sent none.
    pub fn of_unsigned(reading: Option<u64>) -> (value: GaugeValue)
        ensures
            value@ == Reading::Integer(unsigned_or_zero(reading)),
    {
        match reading {
            Some(n) => GaugeValue::Unsigned(n),
            None => GaugeValue::Unsigned(0),
        }
    }

    /// A signed reading, zero where the engine sent none.
    pub fn of_signed(reading: Option<i64>) -> (value: GaugeValue)
        ensures
            value@ == Reading::Integer(signed_or_zero(reading)),
    {
        match reading {
            Some(n) => GaugeValue::Signed(n),
            None => GaugeValue::Signed(0),
        }
    }

    /// A fractional reading, positive zero where the engine sent none.
    pub fn of_double(reading: Option<Double>) -> (value: GaugeValue)
        ensures
            value@ == Reading::Double(double_or_zero(reading)),
    {
        match reading {
            Some(d) => GaugeValue::Double(d),
            None => GaugeValue::Double(Double::zero()),
        }
    }

    /// The number of items in a collection.
    pub fn of_count(n: usize) -> (value: GaugeValue)
        ensures
            value@ == Reading::Integer(n as int),
    {
        GaugeValue::Unsigned(n as u64)
    }
}

} // verus!
