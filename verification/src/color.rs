//! The animated clear color: a pure function of the frame counter and of
//! the milliseconds elapsed since the previous tick.
//!
//! Channels are fixed-point fractions in units of 1/10000, so that the host
//! side can divide them into the floating-point color a render pass takes.
//! The waveform is a smooth per-channel triangle oscillation; its exact
//! shape is a placeholder payload, but it is deterministic: equal inputs
//! give equal channels.

use vstd::prelude::*;

verus! {

/// One whole unit of a fixed-point color channel.
pub const CHANNEL_ONE: u32 = 10000;

/// A clear color with fixed-point channels, each in [0, CHANNEL_ONE].
#[derive(Clone, Copy, PartialEq, Eq, Structural, Debug)]
pub struct ClearColor {
    pub r: u32,
    pub g: u32,
    pub b: u32,
    pub a: u32,
}

/// A triangle wave over [0, 10000] with period 20000.
pub open spec fn tri_wave(x: int) -> int
    recommends
        x >= 0,
{
    let m = x % 20000;
    if m < 10000 {
        m
    } else {
        20000 - m
    }
}

/// The oscillation phase, in 1/1000 units folded into one wave period:
/// each frame advances it by 5 units and each elapsed millisecond by a
/// quarter unit.
pub open spec fn phase_units(frame_index: u64, elapsed_millis: u64) -> int {
    (((frame_index as int) % 4000) * 5 + ((elapsed_millis as int) / 4) % 20000) % 20000
}

/// The clear color for one frame: per-channel triangle oscillations of
/// different rates around distinct baselines, fully opaque.
pub open spec fn clear_color_spec(frame_index: u64, elapsed_millis: u64) -> ClearColor {
    let p = phase_units(frame_index, elapsed_millis);
    ClearColor {
        r: (2000 + 8000 * tri_wave(p) / 10000) as u32,
        g: (1000 + 6000 * tri_wave(p * 17 / 10) / 10000) as u32,
        b: (1500 + 7000 * tri_wave(p * 9 / 10) / 10000) as u32,
        a: 10000u32,
    }
}

fn tri_wave_exec(x: u64) -> (r: u64)
    ensures
        r as int == tri_wave(x as int),
        r <= 10000,
{
    let m = x % 20000;
    if m < 10000 {
        m
    } else {
        20000 - m
    }
}

/// Computes the clear color for one frame. Deterministic: the result is a
/// pure function of the two arguments, with no hidden state, and every
/// channel stays within one fixed-point unit.
pub fn clear_color(frame_index: u64, elapsed_millis: u64) -> (c: ClearColor)
    ensures
        c == clear_color_spec(frame_index, elapsed_millis),
        2000 <= c.r <= 10000,
        1000 <= c.g <= 7000,
        1500 <= c.b <= 8500,
        c.a == CHANNEL_ONE,
{
    let p: u64 = ((frame_index % 4000) * 5 + (elapsed_millis / 4) % 20000) % 20000;
    let tr = tri_wave_exec(p);
    let tg = tri_wave_exec(p * 17 / 10);
    let tb = tri_wave_exec(p * 9 / 10);
    ClearColor {
        r: 2000 + (8000 * tr / 10000) as u32,
        g: 1000 + (6000 * tg / 10000) as u32,
        b: 1500 + (7000 * tb / 10000) as u32,
        a: 10000,
    }
}

} // verus!
