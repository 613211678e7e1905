//! Verified core of a ten-slot soundboard: the playback switchboard that
//! owns the active voice, the crossfade scheduler that ramps volumes in
//! fixed 20 ms quanta, and the deck configuration the triggers read.
//!
//! Volumes are fixed-point: an integer number of thousandths of full
//! scale, `0 ..= 1000`. The audio backend maps them to its own scale.

pub mod config;
pub mod fade;
pub mod laws;
pub mod switchboard;
pub mod volume;

pub use config::{blank, filename_only, DeckConfig, SlotSpec, TriggerPlan, DEFAULT_CROSSFADE_MS};
pub use fade::{ramp_in, ramp_out, step_count, STEP_MS};
pub use switchboard::{select_device, Crossfade, StepReport, Switchboard, Voice, SLOT_COUNT};
pub use volume::{effective_volume, FULL_VOLUME};
