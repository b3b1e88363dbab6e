use vstd::prelude::*;
use vstd::arithmetic::power2::lemma2_to64;
use crate::twos::{sign_extend, get_twos_complement};

verus! {

/// An exact rational value `numerator / denominator`, with a positive denominator.
#[derive(Clone, Copy, Debug, PartialEq, Eq, Structural)]
pub struct Ratio {
    pub numerator: i64,
    pub denominator: i64,
}

/// A compensated temperature reading, held exactly.
#[derive(Clone, Copy, Debug, PartialEq, Eq, Structural)]
pub struct Temperature {
    /// The raw 24-bit reading the value was computed from.
    pub raw: i32,
    pub celsius: Ratio,
    pub fahrenheit: Ratio,
}

/// The raw reading held in three big-endian result bytes.
pub open spec fn raw_reading_of(bytes: Seq<u8>) -> int {
    sign_extend(bytes[0] * 65536 + bytes[1] * 256 + bytes[2], 24)
}

/// Degrees Celsius as `c0 / 2 + c1 * raw / scale_factor`, over the common
/// denominator `2 * scale_factor`.
pub open spec fn celsius_of(c0: int, c1: int, raw: int, scale_factor: int) -> (int, int) {
    (c0 * scale_factor + 2 * (c1 * raw), 2 * scale_factor)
}

/// Degrees Fahrenheit `celsius * 9 / 5 + 32` for a Celsius value `n / d`.
pub open spec fn fahrenheit_of(n: int, d: int) -> (int, int) {
    (9 * n + 160 * d, 5 * d)
}

/// Whether `r` holds exactly `(n, d)`.
pub open spec fn holds(r: Ratio, v: (int, int)) -> bool {
    r.numerator == v.0 && r.denominator == v.1
}

/// Decodes the three temperature result bytes into a signed 24-bit reading.
pub fn raw_temperature(bytes: &[u8]) -> (r: i32)
    requires
        bytes@.len() == 3,
    ensures
        r == raw_reading_of(bytes@),
        -8388608 <= r < 8388608,
{
    let v: u32 = (bytes[0] as u32) * 65536 + (bytes[1] as u32) * 256 + bytes[2] as u32;
    proof {
        lemma2_to64();
    }
    get_twos_complement(v, 24)
}

/// Applies the temperature formula to a raw reading.
pub fn compensate_temperature(c0: i32, c1: i32, raw: i32, scale_factor: i32) -> (t: Temperature)
    requires
        -2048 <= c0 < 2048,
        -2048 <= c1 < 2048,
        -8388608 <= raw < 8388608,
        0 < scale_factor <= 8388608,
    ensures
        t.raw == raw,
        holds(t.celsius, celsius_of(c0 as int, c1 as int, raw as int, scale_factor as int)),
        holds(t.fahrenheit, fahrenheit_of(t.celsius.numerator as int, t.celsius.denominator as int)),
        t.celsius.denominator > 0,
        t.fahrenheit.denominator > 0,
{
    let sf: i64 = scale_factor as i64;
    proof {
        assert(-2048 * 8388608 <= c0 * sf <= 2048 * 8388608) by (nonlinear_arith)
            requires -2048 <= c0 < 2048, 0 < sf <= 8388608;
        assert(-2048 * 8388608 <= c1 * raw <= 2048 * 8388608) by (nonlinear_arith)
            requires -2048 <= c1 < 2048, -8388608 <= raw < 8388608;
    }
    let n: i64 = (c0 as i64) * sf + 2 * ((c1 as i64) * (raw as i64));
    let d: i64 = 2 * sf;
    let celsius = Ratio { numerator: n, denominator: d };
    let fahrenheit = Ratio { numerator: 9 * n + 160 * d, denominator: 5 * d };
    Temperature { raw, celsius, fahrenheit }
}

} // verus!
