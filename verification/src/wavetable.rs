//! Precomputed one-cycle wavetables.
//!
//! A [`WaveTable`] holds one cycle of a periodic waveform as
//! [`TABLE_LEN`] fixed-point samples, each within one full amplitude of
//! zero.  Four families are generated: sine, descending saw, square with a
//! configurable pulse width, and triangle.  An unrecognized selector falls
//! back to the sine table.  Tables are immutable once built; lookups wrap
//! modulo the table length, so the cycle is periodic.

use crate::fixed::SCALE;
use vstd::prelude::*;

verus! {

/// Number of samples in one wavetable cycle.
pub const TABLE_LEN: usize = 64;

/// Waveform selector for the sine table.
pub const WAVE_TYPE_SINE: u8 = 0;

/// Waveform selector for the descending-saw table.
pub const WAVE_TYPE_SAW: u8 = 1;

/// Waveform selector for the square table with pulse width.
pub const WAVE_TYPE_SQUARE: u8 = 2;

/// Waveform selector for the triangle table.
pub const WAVE_TYPE_TRI: u8 = 3;

/// The first half cycle of the sine table; the second half is its negation.
pub open spec fn sine_half(n: int) -> int {
    if n == 0 {
        0
    } else if n == 1 {
        980
    } else if n == 2 {
        1951
    } else if n == 3 {
        2903
    } else if n == 4 {
        3827
    } else if n == 5 {
        4714
    } else if n == 6 {
        5556
    } else if n == 7 {
        6344
    } else if n == 8 {
        7071
    } else if n == 9 {
        7730
    } else if n == 10 {
        8315
    } else if n == 11 {
        8819
    } else if n == 12 {
        9239
    } else if n == 13 {
        9569
    } else if n == 14 {
        9808
    } else if n == 15 {
        9952
    } else if n == 16 {
        10000
    } else if n == 17 {
        9952
    } else if n == 18 {
        9808
    } else if n == 19 {
        9569
    } else if n == 20 {
        9239
    } else if n == 21 {
        8819
    } else if n == 22 {
        8315
    } else if n == 23 {
        7730
    } else if n == 24 {
        7071
    } else if n == 25 {
        6344
    } else if n == 26 {
        5556
    } else if n == 27 {
        4714
    } else if n == 28 {
        3827
    } else if n == 29 {
        2903
    } else if n == 30 {
        1951
    } else {
        980
    }
}

/// Sample `n` of the sine cycle: `sin(2*pi*n/TABLE_LEN)` as a fixed-point
/// fraction, antisymmetric around the half cycle.
pub open spec fn sine_sample(n: int) -> int {
    if n < 32 {
        sine_half(n)
    } else {
        -sine_half(n - 32)
    }
}

/// Sample `n` of the saw cycle: a linear descent from 1.0 toward -1.0.
pub open spec fn saw_sample(n: int) -> int {
    SCALE - (SCALE * n) / 32
}

/// Sample `n` of the square cycle: low for the first `pulse_width`
/// fraction of the full cycle, high after it.
pub open spec fn square_sample(n: int, pulse_width: int) -> int {
    if n < (64 * pulse_width) / (SCALE as int) {
        -SCALE as int
    } else {
        SCALE as int
    }
}

/// Sample `n` of the triangle cycle: a linear rise from -1.0 to 1.0 over
/// the first half, then a linear fall back.
pub open spec fn tri_sample(n: int) -> int {
    if n < 32 {
        (SCALE * n) / 16 - SCALE
    } else {
        3 * SCALE - (SCALE * n) / 16
    }
}

/// The sample sequence chosen by a waveform selector; anything outside
/// the four known selectors falls back to the sine family.
pub open spec fn selected_sample(selector: u8, pulse_width: int, n: int) -> int {
    if selector == WAVE_TYPE_SAW {
        saw_sample(n)
    } else if selector == WAVE_TYPE_SQUARE {
        square_sample(n, pulse_width)
    } else if selector == WAVE_TYPE_TRI {
        tri_sample(n)
    } else {
        sine_sample(n)
    }
}

/// One precomputed cycle of a periodic waveform.
pub struct WaveTable {
    /// The cycle's samples, each a fixed-point fraction in `[-SCALE, SCALE]`.
    pub samples: Vec<i64>,
}

impl WaveTable {
    /// The table holds exactly one cycle of in-range samples.
    pub open spec fn wf(self) -> bool {
        &&& self.samples@.len() == TABLE_LEN
        &&& forall|i: int|
            0 <= i < TABLE_LEN ==> -(SCALE as int) <= #[trigger] self.samples@[i] <= SCALE as int
    }

    /// The periodic extension of the table: sample `n` of the infinite
    /// waveform, for any nonnegative position.
    pub open spec fn sample_at(self, n: int) -> int
        recommends
            self.wf(),
            n >= 0,
    {
        self.samples@[n % (TABLE_LEN as int)] as int
    }

    /// The table read one full cycle later is the table read now.
    pub proof fn lemma_periodic(self, n: int)
        requires
            self.wf(),
            n >= 0,
        ensures
            self.sample_at(n + TABLE_LEN as int) == self.sample_at(n),
    {
        vstd::arithmetic::div_mod::lemma_mod_add_multiples_vanish(n, TABLE_LEN as int);
    }
}

/// Exact value of `sine_sample` at an executable index.
fn sine_value(n: usize) -> (v: i64)
    requires
        n < TABLE_LEN,
    ensures
        v == sine_sample(n as int),
        -SCALE <= v <= SCALE,
{
    let half: usize = if n < 32 {
        n
    } else {
        n - 32
    };
    let magnitude: i64 = match half {
        0 => 0,
        1 => 980,
        2 => 1951,
        3 => 2903,
        4 => 3827,
        5 => 4714,
        6 => 5556,
        7 => 6344,
        8 => 7071,
        9 => 7730,
        10 => 8315,
        11 => 8819,
        12 => 9239,
        13 => 9569,
        14 => 9808,
        15 => 9952,
        16 => 10000,
        17 => 9952,
        18 => 9808,
        19 => 9569,
        20 => 9239,
        21 => 8819,
        22 => 8315,
        23 => 7730,
        24 => 7071,
        25 => 6344,
        26 => 5556,
        27 => 4714,
        28 => 3827,
        29 => 2903,
        30 => 1951,
        _ => 980,
    };
    if n < 32 {
        magnitude
    } else {
        -magnitude
    }
}

/// Builds the sine wavetable.
pub fn wavetable_sine() -> (t: WaveTable)
    ensures
        t.wf(),
        forall|i: int| 0 <= i < TABLE_LEN ==> #[trigger] t.samples@[i] == sine_sample(i),
{
    let mut samples: Vec<i64> = Vec::new();
    let mut n: usize = 0;
    while n < TABLE_LEN
        invariant
            n <= TABLE_LEN,
            samples@.len() == n,
            forall|i: int| 0 <= i < n ==> #[trigger] samples@[i] == sine_sample(i),
            forall|i: int|
                0 <= i < n ==> -(SCALE as int) <= #[trigger] samples@[i] <= SCALE as int,
        decreases TABLE_LEN - n,
    {
        samples.push(sine_value(n));
        n = n + 1;
    }
    WaveTable { samples }
}

/// Builds the descending-saw wavetable.
pub fn wavetable_saw() -> (t: WaveTable)
    ensures
        t.wf(),
        forall|i: int| 0 <= i < TABLE_LEN ==> #[trigger] t.samples@[i] == saw_sample(i),
{
    let mut samples: Vec<i64> = Vec::new();
    let mut n: usize = 0;
    while n < TABLE_LEN
        invariant
            n <= TABLE_LEN,
            samples@.len() == n,
            forall|i: int| 0 <= i < n ==> #[trigger] samples@[i] == saw_sample(i),
            forall|i: int|
                0 <= i < n ==> -(SCALE as int) <= #[trigger] samples@[i] <= SCALE as int,
        decreases TABLE_LEN - n,
    {
        let v: i64 = SCALE - (SCALE * (n as i64)) / 32;
        assert(0 <= (SCALE * (n as int)) / 32 <= 2 * SCALE) by {
            crate::fixed::lemma_div_bound_nonneg(SCALE * (n as int), 32, 2 * SCALE as int);
        }
        samples.push(v);
        n = n + 1;
    }
    WaveTable { samples }
}

/// Builds the square wavetable for a pulse width given as a fixed-point
/// fraction of the cycle.
pub fn wavetable_square(pulse_width: i64) -> (t: WaveTable)
    requires
        0 <= pulse_width <= SCALE,
    ensures
        t.wf(),
        forall|i: int|
            0 <= i < TABLE_LEN ==> #[trigger] t.samples@[i] == square_sample(
                i,
                pulse_width as int,
            ),
{
    let threshold: i64 = (64 * pulse_width) / SCALE;
    let mut samples: Vec<i64> = Vec::new();
    let mut n: usize = 0;
    while n < TABLE_LEN
        invariant
            n <= TABLE_LEN,
            samples@.len() == n,
            threshold == (64 * pulse_width) / (SCALE as int),
            forall|i: int|
                0 <= i < n ==> #[trigger] samples@[i] == square_sample(i, pulse_width as int),
            forall|i: int|
                0 <= i < n ==> -(SCALE as int) <= #[trigger] samples@[i] <= SCALE as int,
        decreases TABLE_LEN - n,
    {
        let v: i64 = if (n as i64) < threshold {
            -SCALE
        } else {
            SCALE
        };
        samples.push(v);
        n = n + 1;
    }
    WaveTable { samples }
}

/// Builds the triangle wavetable.
pub fn wavetable_tri() -> (t: WaveTable)
    ensures
        t.wf(),
        forall|i: int| 0 <= i < TABLE_LEN ==> #[trigger] t.samples@[i] == tri_sample(i),
{
    let mut samples: Vec<i64> = Vec::new();
    let mut n: usize = 0;
    while n < TABLE_LEN
        invariant
            n <= TABLE_LEN,
            samples@.len() == n,
            forall|i: int| 0 <= i < n ==> #[trigger] samples@[i] == tri_sample(i),
            forall|i: int|
                0 <= i < n ==> -(SCALE as int) <= #[trigger] samples@[i] <= SCALE as int,
        decreases TABLE_LEN - n,
    {
        assert(0 <= (SCALE * (n as int)) / 16 <= 4 * SCALE) by {
            crate::fixed::lemma_div_bound_nonneg(SCALE * (n as int), 16, 4 * SCALE as int);
        }
        let q: i64 = (SCALE * (n as i64)) / 16;
        let v: i64 = if n < 32 {
            proof {
                crate::fixed::lemma_div_mono(SCALE * (n as int), SCALE * 31, 16);
            }
            q - SCALE
        } else {
            proof {
                crate::fixed::lemma_div_mono(SCALE * 32, SCALE * (n as int), 16);
            }
            3 * SCALE - q
        };
        samples.push(v);
        n = n + 1;
    }
    WaveTable { samples }
}

/// Builds the wavetable a selector asks for, falling back to sine for an
/// unrecognized selector.
pub fn wavetable_for(selector: u8, pulse_width: i64) -> (t: WaveTable)
    requires
        0 <= pulse_width <= SCALE,
    ensures
        t.wf(),
        forall|i: int|
            0 <= i < TABLE_LEN ==> #[trigger] t.samples@[i] == selected_sample(
                selector,
                pulse_width as int,
                i,
            ),
{
    if selector == WAVE_TYPE_SAW {
        wavetable_saw()
    } else if selector == WAVE_TYPE_SQUARE {
        wavetable_square(pulse_width)
    } else if selector == WAVE_TYPE_TRI {
        wavetable_tri()
    } else {
        wavetable_sine()
    }
}

} // verus!
