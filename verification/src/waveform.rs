//! The sample tables: one period pattern of a triangle wave, and silence.
//!
//! A table holds interleaved stereo samples, so a table of `length` samples
//! has `length / 2` frames and both channels of a frame carry the same value.
//! Division and remainder truncate toward zero, as the machine's do.

use vstd::prelude::*;
use vstd::arithmetic::div_mod::{
    lemma_fundamental_div_mod, lemma_hoist_over_denominator, lemma_mod_multiples_vanish,
};

verus! {

/// Quotient rounded toward zero.
pub open spec fn trunc_div(a: int, b: int) -> int {
    if a >= 0 {
        a / b
    } else {
        -((-a) / b)
    }
}

/// Remainder with the sign of the dividend.
pub open spec fn trunc_rem(a: int, b: int) -> int {
    if a >= 0 {
        a % b
    } else {
        -((-a) % b)
    }
}

/// Distance of `v` from zero.
pub open spec fn magnitude(v: int) -> int {
    if v < 0 {
        -v
    } else {
        v
    }
}

/// The frame index shifted by the phase and by a quarter of a period.
pub open spec fn shifted_index(x: int, length: int, phase: int, periods: int) -> int {
    x + phase + trunc_div(length, 4 * periods)
}

/// The rising ramp before it is folded: `2 * amplitude` per half period.
pub open spec fn ramp(x: int, length: int, amplitude: int, phase: int, periods: int) -> int {
    trunc_div(
        2 * periods * shifted_index(x, length, phase, periods) * amplitude,
        length / 2,
    )
}

/// The ramp reduced into one fold of width `2 * amplitude`.
pub open spec fn folded(x: int, length: int, amplitude: int, phase: int, periods: int) -> int {
    trunc_rem(ramp(x, length, amplitude, phase, periods), 2 * amplitude)
}

/// The triangle sample at frame `x`:
/// `A - |(2 N (x + P + L / (4 N)) A / (L / 2)) mod (2 A) - A| - A / 2`.
pub open spec fn triangle_sample(x: int, length: int, amplitude: int, phase: int, periods: int) -> int {
    amplitude - magnitude(folded(x, length, amplitude, phase, periods) - amplitude) - trunc_div(
        amplitude,
        2,
    )
}

proof fn lemma_product_bound(u: int, v: int, ub: int, vb: int)
    requires
        -ub <= u <= ub,
        -vb <= v <= vb,
    ensures
        -(ub * vb) <= u * v <= ub * vb,
{
    assert(-(ub * vb) <= u * v <= ub * vb) by (nonlinear_arith)
        requires
            -ub <= u <= ub,
            -vb <= v <= vb,
    ;
}

proof fn lemma_trunc_div_bound(a: int, b: int)
    requires
        b != 0,
    ensures
        -magnitude(a) <= trunc_div(a, b) <= magnitude(a),
{
    let m = magnitude(a);
    assert(-m <= m / b <= m) by (nonlinear_arith)
        requires
            b != 0,
            m >= 0,
    ;
}

proof fn lemma_trunc_rem_bound(a: int, b: int)
    requires
        b != 0,
    ensures
        -magnitude(b) < trunc_rem(a, b) < magnitude(b),
        a >= 0 ==> trunc_rem(a, b) >= 0,
        a <= 0 ==> trunc_rem(a, b) <= 0,
{
    let m = magnitude(a);
    assert(0 <= m % b < magnitude(b) && (m == 0 ==> m % b == 0)) by (nonlinear_arith)
        requires
            b != 0,
            m >= 0,
            magnitude(b) == if b < 0 { -b } else { b },
    ;
}

/// Whether the sample at frame `x` can be computed and returned as an `i32`.
pub open spec fn sample_defined(x: int, length: int, amplitude: int, phase: int, periods: int) -> bool {
    &&& 2 <= length <= i32::MAX
    &&& amplitude != 0
    &&& periods != 0
    &&& i32::MIN <= triangle_sample(x, length, amplitude, phase, periods) <= i32::MAX
}

/// One sample of the triangle wave, at frame `x` of a table of `length`
/// interleaved samples.
pub fn triangle_wave(x: i32, length: usize, amplitude: i32, phase: i32, periods: i32) -> (sample: i32)
    requires
        sample_defined(x as int, length as int, amplitude as int, phase as int, periods as int),
    ensures
        sample == triangle_sample(x as int, length as int, amplitude as int, phase as int, periods as int),
{
    let len: i128 = length as i128;
    let a: i128 = amplitude as i128;
    let n: i128 = periods as i128;
    let offset: i128 = len / (4 * n);
    proof {
        lemma_trunc_div_bound(len as int, 4 * n);
    }
    let shifted: i128 = x as i128 + phase as i128 + offset;
    let turns: i128 = 2 * n;
    proof {
        lemma_product_bound(turns as int, shifted as int, 0x1_0000_0000, 0x2_0000_0000);
        lemma_product_bound(
            turns * shifted,
            a as int,
            0x2_0000_0000_0000_0000int,
            0x8000_0000,
        );
    }
    let scaled: i128 = turns * shifted * a;
    let rise: i128 = scaled / (len / 2);
    proof {
        lemma_trunc_div_bound(scaled as int, len / 2);
        lemma_trunc_rem_bound(rise as int, 2 * a);
    }
    let fold: i128 = rise % (2 * a);
    let gap: i128 = fold - a;
    let distance: i128 = if gap < 0 {
        -gap
    } else {
        gap
    };
    let value: i128 = a - distance - a / 2;
    value as i32
}


/// With a positive amplitude `A`, no sample exceeds `A - A / 2`, and a sample
/// is at least `-A - A / 2` exactly when its fold is at least `-A`.
pub proof fn lemma_sample_range(x: int, length: int, amplitude: int, phase: int, periods: int)
    requires
        amplitude > 0,
    ensures
        triangle_sample(x, length, amplitude, phase, periods) <= amplitude - amplitude / 2,
        -amplitude - amplitude / 2 <= triangle_sample(x, length, amplitude, phase, periods)
            <==> -amplitude <= folded(x, length, amplitude, phase, periods),
{
    lemma_trunc_rem_bound(ramp(x, length, amplitude, phase, periods), 2 * amplitude);
}

/// Where the shifted index is not negative, the fold lies in `[0, 2 A)`, so
/// every sample lies in `[-A / 2, A - A / 2]`, within the band
/// `[-A - A / 2, A - A / 2]`.
pub proof fn lemma_sample_bounded(x: int, length: int, amplitude: int, phase: int, periods: int)
    requires
        2 <= length,
        amplitude > 0,
        periods > 0,
        shifted_index(x, length, phase, periods) >= 0,
    ensures
        0 <= folded(x, length, amplitude, phase, periods) < 2 * amplitude,
        -(amplitude / 2) <= triangle_sample(x, length, amplitude, phase, periods) <= amplitude
            - amplitude / 2,
        -amplitude - amplitude / 2 <= triangle_sample(x, length, amplitude, phase, periods),
{
    let s = shifted_index(x, length, phase, periods);
    let scaled = 2 * periods * s * amplitude;
    assert(scaled >= 0) by (nonlinear_arith)
        requires
            scaled == 2 * periods * s * amplitude,
            periods > 0,
            s >= 0,
            amplitude > 0,
    ;
    lemma_trunc_div_bound(scaled, length / 2);
    assert(scaled / (length / 2) >= 0) by (nonlinear_arith)
        requires
            scaled >= 0,
            length / 2 > 0,
    ;
    lemma_trunc_rem_bound(ramp(x, length, amplitude, phase, periods), 2 * amplitude);
}

/// The table repeats after one period: where the period count divides the
/// frame count, the sample `(length / 2) / periods` frames later is the same.
pub proof fn lemma_sample_periodic(x: int, length: int, amplitude: int, phase: int, periods: int)
    requires
        2 <= length,
        amplitude > 0,
        periods > 0,
        (length / 2) % periods == 0,
        shifted_index(x, length, phase, periods) >= 0,
    ensures
        triangle_sample(x + (length / 2) / periods, length, amplitude, phase, periods)
            == triangle_sample(x, length, amplitude, phase, periods),
{
    let frames = length / 2;
    let step = frames / periods;
    let s = shifted_index(x, length, phase, periods);
    let scaled = 2 * periods * s * amplitude;
    let later = 2 * periods * (s + step) * amplitude;
    lemma_fundamental_div_mod(frames, periods);
    assert(step >= 0) by (nonlinear_arith)
        requires
            frames == periods * step,
            frames > 0,
            periods > 0,
    ;
    assert(scaled >= 0) by (nonlinear_arith)
        requires
            scaled == 2 * periods * s * amplitude,
            periods > 0,
            s >= 0,
            amplitude > 0,
    ;
    assert(later == scaled + (2 * amplitude) * frames) by (nonlinear_arith)
        requires
            scaled == 2 * periods * s * amplitude,
            later == 2 * periods * (s + step) * amplitude,
            frames == periods * step,
    ;
    assert((2 * amplitude) * frames >= 0) by (nonlinear_arith)
        requires
            amplitude > 0,
            frames > 0,
    ;
    lemma_hoist_over_denominator(scaled, 2 * amplitude, frames as nat);
    let rise = scaled / frames;
    assert(rise >= 0) by (nonlinear_arith)
        requires
            rise == scaled / frames,
            scaled >= 0,
            frames > 0,
    ;
    assert(later / frames == rise + 2 * amplitude);
    lemma_mod_multiples_vanish(1, rise, 2 * amplitude);
    assert(shifted_index(x + step, length, phase, periods) == s + step);
    assert(ramp(x + step, length, amplitude, phase, periods) == rise + 2 * amplitude);
    assert(ramp(x, length, amplitude, phase, periods) == rise);
}

/// Whether every sample of a table of `length` interleaved samples can be
/// computed and stored as an `i16`.
pub open spec fn table_defined(length: int, amplitude: int, phase: int, periods: int) -> bool {
    &&& length >= 0
    &&& length % 2 == 0
    &&& forall|x: int|
        0 <= x < length / 2 ==> {
            &&& #[trigger] sample_defined(x, length, amplitude, phase, periods)
            &&& i16::MIN <= triangle_sample(x, length, amplitude, phase, periods) <= i16::MAX
        }
}

/// The waveform table: frame `x` holds the triangle sample at `x` in both
/// channels.
pub open spec fn triangle_table(length: int, amplitude: int, phase: int, periods: int) -> Seq<i16> {
    Seq::new(
        length as nat,
        |i: int| triangle_sample(i / 2, length, amplitude, phase, periods) as i16,
    )
}

/// The silent table: `length` samples of zero.
pub open spec fn silent_table(length: int) -> Seq<i16> {
    Seq::new(length as nat, |i: int| 0i16)
}

/// A table is defined for every even length up to `i32::MAX`, positive period
/// count, phase that is not negative and amplitude from 1 to 65534.
pub proof fn lemma_table_defined(length: int, amplitude: int, phase: int, periods: int)
    requires
        0 <= length <= i32::MAX,
        length % 2 == 0,
        0 < amplitude <= 65534,
        0 <= phase,
        0 < periods,
    ensures
        table_defined(length, amplitude, phase, periods),
{
    assert forall|x: int| 0 <= x < length / 2 implies {
        &&& #[trigger] sample_defined(x, length, amplitude, phase, periods)
        &&& i16::MIN <= triangle_sample(x, length, amplitude, phase, periods) <= i16::MAX
    } by {
        lemma_trunc_div_bound(length, 4 * periods);
        assert(length / (4 * periods) >= 0) by (nonlinear_arith)
            requires
                length >= 0,
                periods > 0,
        ;
        lemma_sample_bounded(x, length, amplitude, phase, periods);
    }
}

/// A table of `N` interleaved stereo samples of the triangle wave, the same
/// sample in both channels of a frame.
pub fn waveform_table<const N: usize>(amplitude: i32, phase: i32, periods: i32) -> (table: [i16; N])
    requires
        table_defined(N as int, amplitude as int, phase as int, periods as int),
    ensures
        table@ == triangle_table(N as int, amplitude as int, phase as int, periods as int),
{
    let frames: usize = N / 2;
    let mut table: [i16; N] = [0i16; N];
    let mut x: usize = 0;
    while x < frames
        invariant
            x <= frames,
            frames == N / 2,
            N % 2 == 0,
            table_defined(N as int, amplitude as int, phase as int, periods as int),
            forall|i: int|
                0 <= i < 2 * x ==> table@[i] == triangle_sample(
                    i / 2,
                    N as int,
                    amplitude as int,
                    phase as int,
                    periods as int,
                ) as i16,
        decreases frames - x,
    {
        assert(sample_defined(x as int, N as int, amplitude as int, phase as int, periods as int));
        let sample: i32 = triangle_wave(x as i32, N, amplitude, phase, periods);
        table[2 * x] = sample as i16;
        table[2 * x + 1] = sample as i16;
        x = x + 1;
    }
    assert(table@ =~= triangle_table(N as int, amplitude as int, phase as int, periods as int));
    table
}

/// A table of `N` zero samples.
pub fn silence_table<const N: usize>() -> (table: [i16; N])
    ensures
        table@ == silent_table(N as int),
{
    let table: [i16; N] = [0i16; N];
    assert(table@ =~= silent_table(N as int));
    table
}

} // verus!
