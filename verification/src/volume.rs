//! Fixed-point volume arithmetic.
//!
//! A volume is a `u32` number of thousandths of full scale: `0` is
//! silence, [`FULL_VOLUME`] (`1000`) is full scale. A slot's effective
//! playback volume is its own volume scaled by the master volume.

use vstd::prelude::*;

verus! {

/// Full scale, in thousandths.
pub const FULL_VOLUME: u32 = 1000;

/// A value is a volume when it lies between silence and full scale.
pub open spec fn is_volume(v: u32) -> bool {
    v <= FULL_VOLUME
}

/// The effective volume of a slot: its own volume scaled by the master
/// volume, i.e. `slot * master / 1000` rounded toward silence.
pub open spec fn spec_effective_volume(slot: u32, master: u32) -> int {
    (slot * master) / (FULL_VOLUME as int)
}

/// Scales a slot volume by the master volume.
pub fn effective_volume(slot: u32, master: u32) -> (r: u32)
    requires
        is_volume(slot),
        is_volume(master),
    ensures
        r == spec_effective_volume(slot, master),
        is_volume(r),
{
    proof {
        assert(slot * master <= 1000 * 1000) by (nonlinear_arith)
            requires
                slot <= 1000,
                master <= 1000,
        ;
    }
    let wide: u64 = (slot as u64) * (master as u64);
    (wide / 1000) as u32
}

} // verus!
