//! Crossfade schedule arithmetic.
//!
//! A crossfade runs in fixed quanta of [`STEP_MS`] (20 ms). A duration of
//! `d` milliseconds is divided into `max(1, round(d / 20))` steps, so even
//! a zero duration executes one step: the switch is then immediate, with
//! neither a silence gap nor a lasting overlap. After step `i` of `steps`
//! the outgoing voice sits at `start * (steps - i) / steps` and the
//! incoming voice at `target * i / steps` — a linear dual ramp, rounded
//! toward silence by the fixed-point division.

use vstd::prelude::*;
use vstd::arithmetic::div_mod::{lemma_div_is_ordered, lemma_div_pos_is_pos, lemma_fundamental_div_mod};
use crate::volume::is_volume;

verus! {

/// Length of one scheduler quantum, in milliseconds.
pub const STEP_MS: u32 = 20;

/// Number of ramp steps a crossfade of `d_ms` milliseconds executes:
/// `d_ms / 20` rounded to the nearest integer, but never less than one.
pub open spec fn spec_step_count(d_ms: int) -> int {
    let rounded = (d_ms + 10) / 20;
    if rounded < 1 {
        1
    } else {
        rounded
    }
}

/// Outgoing-voice volume after `done` of `steps` steps: a linear ramp
/// from `start` down to silence.
pub open spec fn spec_ramp_out(start: int, done: int, steps: int) -> int {
    (start * (steps - done)) / steps
}

/// Incoming-voice volume after `done` of `steps` steps: a linear ramp
/// from silence up to `target`.
pub open spec fn spec_ramp_in(target: int, done: int, steps: int) -> int {
    (target * done) / steps
}

/// Computes the step count of a crossfade of `d_ms` milliseconds.
pub fn step_count(d_ms: u32) -> (r: u32)
    ensures
        r == spec_step_count(d_ms as int),
        1 <= r,
{
    let q = d_ms / STEP_MS;
    let rounded = if d_ms % STEP_MS >= 10 {
        q + 1
    } else {
        q
    };
    proof {
        lemma_fundamental_div_mod(d_ms as int, 20);
        lemma_fundamental_div_mod(d_ms + 10, 20);
    }
    if rounded == 0 {
        1
    } else {
        rounded
    }
}

/// A ramp value never exceeds the level it ramps from or to, and its
/// endpoints are exact: a fade starts at `(start, 0)` and ends at
/// `(0, target)`.
pub proof fn lemma_ramp_range(level: int, done: int, steps: int)
    requires
        0 <= level,
        1 <= steps,
        0 <= done <= steps,
    ensures
        0 <= spec_ramp_out(level, done, steps) <= level,
        0 <= spec_ramp_in(level, done, steps) <= level,
        done == 0 ==> spec_ramp_out(level, done, steps) == level,
        done == 0 ==> spec_ramp_in(level, done, steps) == 0,
        done == steps ==> spec_ramp_out(level, done, steps) == 0,
        done == steps ==> spec_ramp_in(level, done, steps) == level,
{
    assert(0 <= level * (steps - done) <= level * steps) by (nonlinear_arith)
        requires
            0 <= level,
            0 <= done <= steps,
    ;
    assert(0 <= level * done <= level * steps) by (nonlinear_arith)
        requires
            0 <= level,
            0 <= done <= steps,
    ;
    lemma_div_is_ordered(level * (steps - done), level * steps, steps);
    lemma_div_is_ordered(level * done, level * steps, steps);
    lemma_div_pos_is_pos(level * (steps - done), steps);
    lemma_div_pos_is_pos(level * done, steps);
    assert((level * steps) / steps == level) by (nonlinear_arith)
        requires
            1 <= steps,
    ;
    assert(0int / steps == 0) by (nonlinear_arith)
        requires
            1 <= steps,
    ;
    if done == steps {
        assert(level * (steps - done) == 0) by (nonlinear_arith)
            requires
                done == steps,
        ;
        assert(spec_ramp_out(level, done, steps) == (0int) / steps);
    }
}

/// Computes the outgoing-voice volume after `done` of `steps` steps.
pub fn ramp_out(start: u32, done: u32, steps: u32) -> (r: u32)
    requires
        is_volume(start),
        1 <= steps,
        done <= steps,
    ensures
        r == spec_ramp_out(start as int, done as int, steps as int),
        r <= start,
        done == steps ==> r == 0,
        done == 0 ==> r == start,
{
    proof {
        lemma_ramp_range(start as int, done as int, steps as int);
        assert(start * (steps - done) <= 1000 * (u32::MAX as int)) by (nonlinear_arith)
            requires
                start <= 1000,
                0 <= steps - done <= u32::MAX as int,
        ;
    }
    let wide: u64 = (start as u64) * ((steps - done) as u64);
    (wide / (steps as u64)) as u32
}

/// Computes the incoming-voice volume after `done` of `steps` steps.
pub fn ramp_in(target: u32, done: u32, steps: u32) -> (r: u32)
    requires
        is_volume(target),
        1 <= steps,
        done <= steps,
    ensures
        r == spec_ramp_in(target as int, done as int, steps as int),
        r <= target,
        done == steps ==> r == target,
        done == 0 ==> r == 0,
{
    proof {
        lemma_ramp_range(target as int, done as int, steps as int);
        assert(target * done <= 1000 * (u32::MAX as int)) by (nonlinear_arith)
            requires
                target <= 1000,
                0 <= done <= u32::MAX as int,
        ;
    }
    let wide: u64 = (target as u64) * (done as u64);
    (wide / (steps as u64)) as u32
}

/// A zero or near-zero duration collapses to a single immediate step,
/// and every duration yields at least one step.
pub proof fn lemma_step_count_floor(d_ms: int)
    requires
        0 <= d_ms,
    ensures
        1 <= spec_step_count(d_ms),
        d_ms == 0 ==> spec_step_count(d_ms) == 1,
        d_ms >= 10 ==> spec_step_count(d_ms) == (d_ms + 10) / 20,
{
}

} // verus!
