use vstd::prelude::*;

verus! {

/// Quotient rounded towards zero, as machine division of signed integers gives it.
pub open spec fn div_toward_zero(a: int, b: int) -> int
    recommends
        b > 0,
{
    if a >= 0 {
        a / b
    } else {
        -((-a) / b)
    }
}

/// Remainder that goes with `div_toward_zero`: it has the sign of the dividend.
pub open spec fn rem_toward_zero(a: int, b: int) -> int
    recommends
        b > 0,
{
    a - b * div_toward_zero(a, b)
}

/// Largest magnitude of the tick counter for which no intermediate product
/// leaves the range of `i32`.
pub const MAX_TICK: i32 = 214_748_364;

/// Pitch factor of each of the eight steps of the melody: the low four bits
/// of the characters of "36364689".
pub open spec fn melody_factor(step: int) -> int {
    if step == 0 {
        3
    } else if step == 1 {
        6
    } else if step == 2 {
        3
    } else if step == 3 {
        6
    } else if step == 4 {
        4
    } else if step == 5 {
        6
    } else if step == 6 {
        8
    } else {
        9
    }
}

/// The melody voice: bit 7 of the tick scaled by the current step's pitch factor.
pub open spec fn melody_voice(t: i32) -> int {
    let step = (t >> 13) & 7;
    (div_toward_zero(t * melody_factor(step as int), 12) as i32 & 128) as int
}

/// The rhythm voice: seven bits mixed from the tick's upper part.
pub open spec fn rhythm_voice(t: i32) -> int {
    let a = t >> 12;
    let x = a ^ ((a - 2) as i32);
    let mixed = div_toward_zero(rem_toward_zero(x as int, 11) * t, 4) as i32;
    ((mixed | (t >> 13)) & 127) as int
}

/// The 8-bit sample of the tune at tick `t`: the sum of the two voices.
pub open spec fn tune_sample(t: i32) -> int {
    melody_voice(t) + rhythm_voice(t)
}

fn melody_digit(step: i32) -> (f: i32)
    requires
        0 <= step < 8,
    ensures
        f == melody_factor(step as int),
        0 <= f <= 9,
{
    if step == 0 {
        3
    } else if step == 1 {
        6
    } else if step == 2 {
        3
    } else if step == 3 {
        6
    } else if step == 4 {
        4
    } else if step == 5 {
        6
    } else if step == 6 {
        8
    } else {
        9
    }
}

/// Sample of the built-in chiptune at tick `t`.
pub fn get_char_for_t(t: i32) -> (sample: u8)
    requires
        -MAX_TICK <= t <= MAX_TICK,
    ensures
        sample as int == tune_sample(t),
{
    let step: i32 = (t >> 13) & 7;
    assert(0 <= step < 8) by (bit_vector)
        requires
            step == (t >> 13) & 7,
    ;
    let f: i32 = melody_digit(step);
    assert(-2_000_000_000 <= t * f <= 2_000_000_000) by (nonlinear_arith)
        requires
            -214_748_364 <= t <= 214_748_364,
            0 <= f <= 9,
    ;
    let quotient: i32 = (t * f) / 12;
    let scaled: i32 = quotient & 128;
    assert(0 <= scaled <= 128) by (bit_vector)
        requires
            scaled == quotient & 128,
    ;
    let part1: u8 = scaled as u8;
    let a: i32 = t >> 12;
    assert(-600_000 <= a <= 600_000) by (bit_vector)
        requires
            a == t >> 12,
            -214_748_364 <= t <= 214_748_364,
    ;
    let x: i32 = a ^ (a - 2);
    let y: i32 = x % 11;
    assert(-2_147_483_640 <= y * t <= 2_147_483_640) by (nonlinear_arith)
        requires
            -214_748_364 <= t <= 214_748_364,
            -10 <= y <= 10,
    ;
    let quarter: i32 = (y * t) / 4;
    let mixed: i32 = (quarter | (t >> 13)) & 127;
    assert(0 <= mixed <= 127) by (bit_vector)
        requires
            mixed == (quarter | (t >> 13)) & 127,
    ;
    let part2: u8 = mixed as u8;
    part1 + part2
}

} // verus!
