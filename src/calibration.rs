use vstd::prelude::*;
use vstd::arithmetic::power2::{pow2, lemma_pow2_unfold, lemma_pow2_strictly_increases, lemma2_to64, lemma2_to64_rest};
use crate::twos::{sign_extend, get_twos_complement};

verus! {

/// The nine factory calibration coefficients of the sensor.
#[derive(Clone, Copy, Debug, PartialEq, Eq, Structural)]
pub struct Coefficients {
    pub c0: i32,
    pub c1: i32,
    pub c00: i32,
    pub c10: i32,
    pub c01: i32,
    pub c11: i32,
    pub c20: i32,
    pub c21: i32,
    pub c30: i32,
}

/// Bit `i` of `raw`, counting from the most significant bit of the first byte.
pub open spec fn bit_at(raw: Seq<u8>, i: int) -> int {
    ((raw[i / 8] >> ((7 - i % 8) as u8)) & 1u8) as int
}

/// The unsigned value of the `width` bits of `raw` that start at bit
/// `offset`, read most significant bit first.
pub open spec fn field_value(raw: Seq<u8>, offset: int, width: nat) -> int
    decreases width,
{
    if width == 0 {
        0
    } else {
        2 * field_value(raw, offset, (width - 1) as nat) + bit_at(raw, offset + width - 1)
    }
}

/// The signed coefficient stored in the `width` bits of `raw` from bit `offset`.
pub open spec fn coefficient(raw: Seq<u8>, offset: int, width: nat) -> int {
    sign_extend(field_value(raw, offset, width), width)
}

/// Where each coefficient lies in the calibration block, as (first bit, width):
/// c0 (0, 12), c1 (12, 12), c00 (24, 20), c10 (44, 20), c01 (64, 16),
/// c11 (80, 16), c20 (96, 16), c21 (112, 16), c30 (128, 16).
pub open spec fn decodes_to(raw: Seq<u8>, c: Coefficients) -> bool {
    &&& c.c0 == coefficient(raw, 0, 12)
    &&& c.c1 == coefficient(raw, 12, 12)
    &&& c.c00 == coefficient(raw, 24, 20)
    &&& c.c10 == coefficient(raw, 44, 20)
    &&& c.c01 == coefficient(raw, 64, 16)
    &&& c.c11 == coefficient(raw, 80, 16)
    &&& c.c20 == coefficient(raw, 96, 16)
    &&& c.c21 == coefficient(raw, 112, 16)
    &&& c.c30 == coefficient(raw, 128, 16)
}

/// The coefficients the calibration block `raw` holds, laid out as `decodes_to` says.
pub open spec fn decoded(raw: Seq<u8>) -> Coefficients {
    Coefficients {
        c0: coefficient(raw, 0, 12) as i32,
        c1: coefficient(raw, 12, 12) as i32,
        c00: coefficient(raw, 24, 20) as i32,
        c10: coefficient(raw, 44, 20) as i32,
        c01: coefficient(raw, 64, 16) as i32,
        c11: coefficient(raw, 80, 16) as i32,
        c20: coefficient(raw, 96, 16) as i32,
        c21: coefficient(raw, 112, 16) as i32,
        c30: coefficient(raw, 128, 16) as i32,
    }
}

proof fn lemma_bit_at_bound(raw: Seq<u8>, i: int)
    requires
        0 <= i,
        i / 8 < raw.len(),
    ensures
        0 <= bit_at(raw, i) <= 1,
{
    let b = raw[i / 8];
    let s = (7 - i % 8) as u8;
    assert((b >> s) & 1u8 <= 1u8) by (bit_vector);
}

proof fn lemma_field_bound(raw: Seq<u8>, offset: int, width: nat)
    requires
        0 <= offset,
        (offset + width) <= 8 * raw.len(),
    ensures
        0 <= field_value(raw, offset, width) < pow2(width),
    decreases width,
{
    if width > 0 {
        lemma_field_bound(raw, offset, (width - 1) as nat);
        lemma_bit_at_bound(raw, offset + width - 1);
        lemma_pow2_unfold(width);
    } else {
        lemma2_to64();
    }
}

/// Reads the `width` bits of `raw` that start at bit `offset` as an unsigned number.
fn read_field(raw: &[u8], offset: usize, width: usize) -> (r: u32)
    requires
        raw@.len() == 18,
        offset + width <= 144,
        width <= 32,
    ensures
        r == field_value(raw@, offset as int, width as nat),
{
    let mut acc: u32 = 0;
    let mut k: usize = 0;
    while k < width
        invariant
            k <= width <= 32,
            offset + width <= 144,
            raw@.len() == 18,
            acc == field_value(raw@, offset as int, k as nat),
        decreases width - k,
    {
        let i: usize = offset + k;
        let b: u8 = (raw[i / 8] >> ((7 - i % 8) as u8)) & 1u8;
        proof {
            lemma_field_bound(raw@, offset as int, k as nat);
            lemma_bit_at_bound(raw@, i as int);
            lemma2_to64();
            lemma2_to64_rest();
            if k < 31 {
                lemma_pow2_strictly_increases(k as nat, 31);
            }
        }
        acc = acc * 2 + b as u32;
        k = k + 1;
    }
    acc
}

/// Decodes one signed coefficient from the calibration block.
fn read_coefficient(raw: &[u8], offset: usize, width: usize) -> (r: i32)
    requires
        raw@.len() == 18,
        offset + width <= 144,
        1 <= width <= 32,
    ensures
        r == coefficient(raw@, offset as int, width as nat),
        -pow2((width - 1) as nat) <= r < pow2((width - 1) as nat),
{
    let v = read_field(raw, offset, width);
    proof {
        lemma_field_bound(raw@, offset as int, width as nat);
    }
    get_twos_complement(v, width as i32)
}

/// Decodes the eighteen calibration bytes into the nine coefficients.
pub fn decode_coefficients(raw: &[u8]) -> (c: Coefficients)
    requires
        raw@.len() == 18,
    ensures
        decodes_to(raw@, c),
        c == decoded(raw@),
        -2048 <= c.c0 < 2048,
        -2048 <= c.c1 < 2048,
{
    proof {
        lemma2_to64();
    }
    Coefficients {
        c0: read_coefficient(raw, 0, 12),
        c1: read_coefficient(raw, 12, 12),
        c00: read_coefficient(raw, 24, 20),
        c10: read_coefficient(raw, 44, 20),
        c01: read_coefficient(raw, 64, 16),
        c11: read_coefficient(raw, 80, 16),
        c20: read_coefficient(raw, 96, 16),
        c21: read_coefficient(raw, 112, 16),
        c30: read_coefficient(raw, 128, 16),
    }
}

} // verus!
