//! The playback switchboard: the state machine that owns the active
//! voice, starts crossfades, and serializes triggers, stops and device
//! switches.
//!
//! A [`Voice`] is the record of one source rendering to the output:
//! a slot index, a current volume and a stopped flag. The switchboard
//! keeps every voice it ever created, so the contracts can speak about
//! voices that have been superseded and stopped. At most one crossfade
//! is in flight; a trigger arriving mid-fade supersedes it, fading out
//! from the superseded voice's *current* partial volume, and the
//! superseded fade's own outgoing voice is stopped at once, so that at
//! most two voices are ever audible.
//!
//! The scheduler side is [`Switchboard::fade_step`]: one call advances
//! the in-flight crossfade by one quantum and reports the volumes to
//! apply to the audio backend. The caller runs it on its own cadence
//! (one call per [`crate::fade::STEP_MS`] milliseconds); the state
//! machine itself never sleeps.

use vstd::prelude::*;
use crate::fade::{ramp_in, ramp_out, spec_ramp_in, spec_ramp_out, spec_step_count, step_count};
use crate::volume::{effective_volume, is_volume, spec_effective_volume};

verus! {

/// Number of playback slots on the deck.
pub const SLOT_COUNT: usize = 10;

/// One instance of "a source rendering to the output": the slot that
/// started it, its current volume, and whether it has been stopped.
#[derive(Clone, Copy, Debug)]
pub struct Voice {
    pub slot: usize,
    pub volume: u32,
    pub stopped: bool,
}

/// An in-flight crossfade: ramp the outgoing voice (if any) from
/// `out_start` down to silence and the incoming voice from silence up
/// to `target`, over `steps` quanta of which `done` have executed.
#[derive(Clone, Copy, Debug)]
pub struct Crossfade {
    pub outgoing: Option<usize>,
    pub incoming: usize,
    pub out_start: u32,
    pub target: u32,
    pub steps: u32,
    pub done: u32,
}

/// What one scheduler step did: the volumes that the audio backend
/// must now apply, and whether the crossfade completed (in which case
/// the outgoing voice has been stopped).
#[derive(Clone, Copy, Debug)]
pub struct StepReport {
    pub outgoing: Option<usize>,
    pub out_volume: u32,
    pub incoming: usize,
    pub in_volume: u32,
    pub finished: bool,
}

/// The switchboard: enumerated output device names, the selected
/// device, every voice created so far, the active voice, and the
/// in-flight crossfade, if any.
pub struct Switchboard {
    pub device_names: Vec<String>,
    pub device: usize,
    pub voices: Vec<Voice>,
    pub active: Option<usize>,
    pub fade: Option<Crossfade>,
}

/// Mathematical model of a [`Switchboard`].
#[verifier::ext_equal]
pub struct SwitchboardModel {
    pub device_names: Seq<String>,
    pub device: usize,
    pub voices: Seq<Voice>,
    pub active: Option<usize>,
    pub fade: Option<Crossfade>,
}

impl View for Switchboard {
    type V = SwitchboardModel;

    open spec fn view(&self) -> SwitchboardModel {
        SwitchboardModel {
            device_names: self.device_names@,
            device: self.device,
            voices: self.voices@,
            active: self.active,
            fade: self.fade,
        }
    }
}

/// A voice record is well formed when its volume is a volume and its
/// slot is one of the deck's slots.
pub open spec fn voice_wf(v: Voice) -> bool {
    &&& is_volume(v.volume)
    &&& v.slot < SLOT_COUNT
}

/// Whether voice `i` is the one the in-flight crossfade is fading out.
pub open spec fn is_fading_out(m: SwitchboardModel, i: int) -> bool {
    match m.fade {
        Some(f) => f.outgoing == Some(i as usize),
        None => false,
    }
}

/// An in-flight crossfade is well formed when its incoming voice is the
/// active one, it still has steps to run, and its outgoing voice, if
/// any, is a distinct voice that has not been stopped yet.
pub open spec fn fade_wf(m: SwitchboardModel, f: Crossfade) -> bool {
    &&& m.active == Some(f.incoming)
    &&& f.incoming < m.voices.len()
    &&& f.done < f.steps
    &&& is_volume(f.target)
    &&& is_volume(f.out_start)
    &&& match f.outgoing {
        Some(o) => o < m.voices.len() && o != f.incoming && !m.voices[o as int].stopped,
        None => true,
    }
}

/// Well-formedness of the whole switchboard. The last conjunct is the
/// key invariant: every un-stopped voice is either the active voice or
/// the one the in-flight crossfade is fading out, so at most two voices
/// are ever audible at once.
pub open spec fn wf(m: SwitchboardModel) -> bool {
    &&& m.voices.len() <= usize::MAX
    &&& m.device_names.len() <= usize::MAX
    &&& forall|i: int| 0 <= i < m.voices.len() ==> voice_wf(#[trigger] m.voices[i])
    &&& match m.active {
        Some(a) => a < m.voices.len() && !m.voices[a as int].stopped,
        None => m.fade is None,
    }
    &&& match m.fade {
        Some(f) => fade_wf(m, f),
        None => true,
    }
    &&& forall|i: int|
        0 <= i < m.voices.len() && !(#[trigger] m.voices[i]).stopped ==> m.active == Some(
            i as usize,
        ) || is_fading_out(m, i)
    &&& m.device < m.device_names.len() || (m.device_names.len() == 0 && m.device == 0)
}

/// `v`, stopped.
pub open spec fn stopped_voice(v: Voice) -> Voice {
    Voice { stopped: true, ..v }
}

/// `v`, at volume `volume`.
pub open spec fn at_volume(v: Voice, volume: u32) -> Voice {
    Voice { volume, ..v }
}

/// The volume the next crossfade must fade out from: the active
/// voice's *current* volume — possibly partial, when that voice is
/// itself still ramping — or silence when nothing is playing.
pub open spec fn spec_fade_out_start(m: SwitchboardModel) -> u32 {
    match m.active {
        Some(a) => m.voices[a as int].volume,
        None => 0u32,
    }
}

/// The switchboard after a trigger: the outgoing voice of a superseded
/// crossfade (if one was in flight) is stopped at once, a fresh voice
/// at volume zero is created for `slot`, it becomes the active voice,
/// and a new crossfade starts that fades the previously active voice
/// out from its current volume and the fresh voice in up to `target`.
pub open spec fn spec_trigger(
    m: SwitchboardModel,
    slot: usize,
    target: u32,
    duration_ms: u32,
) -> SwitchboardModel {
    let orphaned = match m.fade {
        Some(f) => match f.outgoing {
            Some(o) => m.voices.update(o as int, stopped_voice(m.voices[o as int])),
            None => m.voices,
        },
        None => m.voices,
    };
    let fresh = Voice { slot, volume: 0u32, stopped: false };
    let incoming = m.voices.len() as usize;
    SwitchboardModel {
        voices: orphaned.push(fresh),
        active: Some(incoming),
        fade: Some(
            Crossfade {
                outgoing: m.active,
                incoming,
                out_start: spec_fade_out_start(m),
                target,
                steps: spec_step_count(duration_ms as int) as u32,
                done: 0u32,
            },
        ),
        device_names: m.device_names,
        device: m.device,
    }
}

/// The switchboard after a stop: the active voice and the in-flight
/// crossfade's outgoing voice are stopped at once, the remaining fade
/// steps are abandoned, and no voice is active.
pub open spec fn spec_stop(m: SwitchboardModel) -> SwitchboardModel {
    let silenced = match m.active {
        Some(a) => m.voices.update(a as int, stopped_voice(m.voices[a as int])),
        None => m.voices,
    };
    let orphaned = match m.fade {
        Some(f) => match f.outgoing {
            Some(o) => silenced.update(o as int, stopped_voice(silenced[o as int])),
            None => silenced,
        },
        None => silenced,
    };
    SwitchboardModel {
        voices: orphaned,
        active: None,
        fade: None,
        device_names: m.device_names,
        device: m.device,
    }
}

/// The switchboard after one scheduler quantum: step `done + 1` of the
/// in-flight crossfade sets the incoming voice to its ramped-up volume
/// and the outgoing voice to its ramped-down volume; the final step
/// additionally stops the outgoing voice and retires the crossfade.
/// Without an in-flight crossfade the step does nothing.
pub open spec fn spec_fade_step(m: SwitchboardModel) -> SwitchboardModel {
    match m.fade {
        None => m,
        Some(f) => {
            let i = f.done + 1;
            let in_vol = spec_ramp_in(f.target as int, i, f.steps as int) as u32;
            let raised = m.voices.update(
                f.incoming as int,
                at_volume(m.voices[f.incoming as int], in_vol),
            );
            let lowered = match f.outgoing {
                Some(o) => {
                    let out_vol = spec_ramp_out(f.out_start as int, i, f.steps as int) as u32;
                    raised.update(
                        o as int,
                        Voice { slot: m.voices[o as int].slot, volume: out_vol, stopped: i == f.steps },
                    )
                },
                None => raised,
            };
            SwitchboardModel {
                voices: lowered,
                active: m.active,
                fade: if i == f.steps {
                    None
                } else {
                    Some(Crossfade { done: (f.done + 1) as u32, ..f })
                },
                device_names: m.device_names,
                device: m.device,
            }
        },
    }
}

/// The switchboard after a device switch: when the requested device
/// exists and its stream opened, the current voice is stopped at once
/// (a fade cannot survive a hardware switch) and the device index is
/// replaced; otherwise the state is left entirely unchanged.
pub open spec fn spec_switch_device(
    m: SwitchboardModel,
    new_idx: usize,
    opened: bool,
) -> SwitchboardModel {
    if opened && new_idx < m.device_names.len() {
        SwitchboardModel { device: new_idx, ..spec_stop(m) }
    } else {
        m
    }
}

/// The switchboard after a live volume edit of `slot`: when the active
/// voice belongs to that slot its volume becomes `volume` at once, with
/// no ramp; otherwise nothing changes.
pub open spec fn spec_set_live_volume(
    m: SwitchboardModel,
    slot: usize,
    volume: u32,
) -> SwitchboardModel {
    match m.active {
        Some(a) => if m.voices[a as int].slot == slot {
            SwitchboardModel {
                voices: m.voices.update(a as int, at_volume(m.voices[a as int], volume)),
                active: m.active,
                fade: m.fade,
                device_names: m.device_names,
                device: m.device,
            }
        } else {
            m
        },
        None => m,
    }
}

/// The slot of the active voice, if a voice is active.
pub open spec fn spec_active_slot(m: SwitchboardModel) -> Option<usize> {
    match m.active {
        Some(a) => Some(m.voices[a as int].slot),
        None => None,
    }
}

/// A trigger preserves well-formedness.
pub proof fn lemma_trigger_wf(m: SwitchboardModel, slot: usize, target: u32, duration_ms: u32)
    requires
        wf(m),
        m.voices.len() < usize::MAX,
        slot < SLOT_COUNT,
        is_volume(target),
    ensures
        wf(spec_trigger(m, slot, target, duration_ms)),
{
    crate::fade::lemma_step_count_floor(duration_ms as int);
    let m2 = spec_trigger(m, slot, target, duration_ms);
    let n = m.voices.len() as int;
    assert forall|i: int| 0 <= i < m2.voices.len() implies voice_wf(#[trigger] m2.voices[i]) by {
        if i < n {
            assert(voice_wf(m.voices[i]));
        }
    };
    assert forall|i: int|
        0 <= i < m2.voices.len() && !(#[trigger] m2.voices[i]).stopped implies m2.active == Some(
        i as usize,
    ) || is_fading_out(m2, i) by {
        if i < n {
            assert(!m.voices[i].stopped);
            assert(m.active == Some(i as usize) || is_fading_out(m, i));
        }
    };
}

/// A stop preserves well-formedness and stops every voice.
pub proof fn lemma_stop_wf(m: SwitchboardModel)
    requires
        wf(m),
    ensures
        wf(spec_stop(m)),
        spec_stop(m).voices.len() == m.voices.len(),
        forall|i: int|
            0 <= i < m.voices.len() ==> (#[trigger] spec_stop(m).voices[i]).stopped,
{
    let m2 = spec_stop(m);
    assert forall|i: int| 0 <= i < m.voices.len() implies (
    #[trigger] m2.voices[i]).stopped by {
        if !m2.voices[i].stopped {
            assert(!m.voices[i].stopped);
            assert(m.active == Some(i as usize) || is_fading_out(m, i));
        }
    };
    assert forall|i: int| 0 <= i < m2.voices.len() implies voice_wf(#[trigger] m2.voices[i]) by {
        assert(voice_wf(m.voices[i]));
    };
}

/// A scheduler step preserves well-formedness.
pub proof fn lemma_fade_step_wf(m: SwitchboardModel)
    requires
        wf(m),
    ensures
        wf(spec_fade_step(m)),
{
    match m.fade {
        Some(f) => {
            crate::fade::lemma_ramp_range(f.target as int, f.done + 1, f.steps as int);
            crate::fade::lemma_ramp_range(f.out_start as int, f.done + 1, f.steps as int);
            let m2 = spec_fade_step(m);
            assert forall|i: int|
                0 <= i < m2.voices.len() implies voice_wf(#[trigger] m2.voices[i]) by {
                assert(voice_wf(m.voices[i]));
            };
            assert forall|i: int|
                0 <= i < m2.voices.len() && !(#[trigger] m2.voices[i]).stopped implies m2.active
                == Some(i as usize) || is_fading_out(m2, i) by {
                assert(!m.voices[i].stopped);
                assert(m.active == Some(i as usize) || is_fading_out(m, i));
            };
        },
        None => {},
    }
}

/// A device switch preserves well-formedness.
pub proof fn lemma_switch_device_wf(m: SwitchboardModel, new_idx: usize, opened: bool)
    requires
        wf(m),
    ensures
        wf(spec_switch_device(m, new_idx, opened)),
{
    lemma_stop_wf(m);
}

/// A live volume edit preserves well-formedness.
pub proof fn lemma_set_live_volume_wf(m: SwitchboardModel, slot: usize, volume: u32)
    requires
        wf(m),
        is_volume(volume),
    ensures
        wf(spec_set_live_volume(m, slot, volume)),
{
}

/// Index of the configured output device among the enumerated names:
/// the first whose name equals `want`, or 0 — the default device —
/// when no name is configured or none matches.
pub fn select_device(names: &Vec<String>, want: &Option<String>) -> (r: usize)
    ensures
        want is None ==> r == 0,
        (want matches Some(w) ==> {
            if exists|i: int| 0 <= i < names@.len() && #[trigger] names@[i]@ == w@ {
                &&& r < names@.len()
                &&& names@[r as int]@ == w@
                &&& forall|j: int| 0 <= j < r ==> names@[j]@ != w@
            } else {
                r == 0
            }
        }),
        r < names@.len() || r == 0,
{
    if want.is_none() {
        return 0;
    }
    let w = want.as_ref().unwrap();
    let n = names.len();
    let mut idx: usize = 0;
    while idx < n
        invariant
            want matches Some(found) && found@ == w@,
            idx <= n,
            n == names@.len(),
            forall|j: int| 0 <= j < idx ==> names@[j]@ != w@,
        decreases n - idx,
    {
        if names[idx].eq(w) {
            return idx;
        }
        idx = idx + 1;
    }
    0
}

impl Switchboard {
    /// A fresh switchboard on the given device list: no voice yet, no
    /// crossfade in flight.
    pub fn new(device_names: Vec<String>, device: usize) -> (r: Switchboard)
        requires
            device < device_names@.len() || (device_names@.len() == 0 && device == 0),
        ensures
            wf(r@),
            r@.device_names == device_names@,
            r@.device == device,
            r@.voices == Seq::<Voice>::empty(),
            r@.active is None,
            r@.fade is None,
    {
        let r = Switchboard { device_names, device, voices: Vec::new(), active: None, fade: None };
        proof {
            assert(r@.voices =~= Seq::<Voice>::empty());
            assert(r.device_names@.len() == r.device_names.len());
        }
        r
    }

    /// Starts playing `slot`: creates a fresh voice at volume zero,
    /// atomically swaps it in as the active voice while capturing the
    /// previously active voice as the outgoing one, and starts a
    /// crossfade of `duration_ms` toward `target`. The fade-out starts
    /// from the previous voice's current volume — its partial volume,
    /// when it was still ramping — so a re-trigger causes no volume
    /// jump. The outgoing voice of a superseded crossfade is stopped at
    /// once. Returns the fresh voice's index.
    pub fn trigger(&mut self, slot: usize, target: u32, duration_ms: u32) -> (voice: usize)
        requires
            wf(old(self)@),
            old(self)@.voices.len() < usize::MAX,
            slot < SLOT_COUNT,
            is_volume(target),
        ensures
            wf(final(self)@),
            final(self)@ == spec_trigger(old(self)@, slot, target, duration_ms),
            voice == old(self)@.voices.len(),
            (final(self)@.fade matches Some(f) && f.out_start == spec_fade_out_start(old(self)@)
                && f.outgoing == old(self)@.active && f.steps == spec_step_count(
                duration_ms as int,
            )),
    {
        if let Some(f) = self.fade {
            if let Some(o) = f.outgoing {
                // the superseded crossfade was ramping this voice to
                // silence; cut the ramp short so at most two voices
                // stay audible
                let mut orphan = self.voices[o];
                orphan.stopped = true;
                self.voices.set(o, orphan);
            }
        }
        let out_start = match self.active {
            Some(a) => self.voices[a].volume,
            None => 0,
        };
        let incoming = self.voices.len();
        self.voices.push(Voice { slot, volume: 0, stopped: false });
        let steps = step_count(duration_ms);
        self.fade = Some(
            Crossfade { outgoing: self.active, incoming, out_start, target, steps, done: 0 },
        );
        self.active = Some(incoming);
        proof {
            lemma_trigger_wf(old(self)@, slot, target, duration_ms);
            assert(self@.voices =~= spec_trigger(old(self)@, slot, target, duration_ms).voices);
            assert(self@ =~= spec_trigger(old(self)@, slot, target, duration_ms));
        }
        incoming
    }

    /// Stops the active voice at once, with no fade, abandoning any
    /// in-flight crossfade and stopping its outgoing voice too. After
    /// this call every voice ever created is stopped.
    pub fn stop_current(&mut self)
        requires
            wf(old(self)@),
        ensures
            wf(final(self)@),
            final(self)@ == spec_stop(old(self)@),
            final(self)@.active is None,
            final(self)@.fade is None,
            forall|i: int|
                0 <= i < final(self)@.voices.len() ==> (#[trigger] final(self)@.voices[i]).stopped,
    {
        if let Some(a) = self.active {
            let mut v = self.voices[a];
            v.stopped = true;
            self.voices.set(a, v);
            self.active = None;
        }
        if let Some(f) = self.fade {
            if let Some(o) = f.outgoing {
                let mut v = self.voices[o];
                v.stopped = true;
                self.voices.set(o, v);
            }
            self.fade = None;
        }
        proof {
            lemma_stop_wf(old(self)@);
            assert(self@.voices =~= spec_stop(old(self)@).voices);
            assert(self@ =~= spec_stop(old(self)@));
        }
    }

    /// Advances the in-flight crossfade by one quantum and reports the
    /// volumes the audio backend must apply. The final step stops the
    /// outgoing voice and retires the crossfade, leaving the incoming
    /// voice at its target volume. Returns `None`, changing nothing,
    /// when no crossfade is in flight — a superseded scheduler simply
    /// finds no work.
    pub fn fade_step(&mut self) -> (r: Option<StepReport>)
        requires
            wf(old(self)@),
        ensures
            wf(final(self)@),
            final(self)@ == spec_fade_step(old(self)@),
            old(self)@.fade is None ==> r is None && final(self)@ == old(self)@,
            old(self)@.fade matches Some(f) ==> (r matches Some(rep) && {
                let i = f.done + 1;
                &&& rep.incoming == f.incoming
                &&& rep.in_volume == spec_ramp_in(f.target as int, i, f.steps as int)
                &&& rep.outgoing == f.outgoing
                &&& (f.outgoing is Some ==> rep.out_volume == spec_ramp_out(
                    f.out_start as int,
                    i,
                    f.steps as int,
                ))
                &&& (f.outgoing is None ==> rep.out_volume == 0)
                &&& rep.finished == (i == f.steps)
                &&& (rep.finished ==> final(self)@.fade is None && final(self)@.voices[
                    f.incoming as int
                ].volume == f.target && (f.outgoing matches Some(o) ==> final(self)@.voices[
                    o as int
                ].stopped))
                &&& (!rep.finished ==> (final(self)@.fade matches Some(g) && g.done == i
                    && g.steps == f.steps && g.out_start == f.out_start && g.target == f.target
                    && g.incoming == f.incoming && g.outgoing == f.outgoing))
            }),
    {
        match self.fade {
            None => None,
            Some(f) => {
                let i = f.done + 1;
                let finished = i == f.steps;
                let in_volume = ramp_in(f.target, i, f.steps);
                let mut riser = self.voices[f.incoming];
                riser.volume = in_volume;
                self.voices.set(f.incoming, riser);
                let out_volume = if let Some(o) = f.outgoing {
                    let out_volume = ramp_out(f.out_start, i, f.steps);
                    let mut faller = self.voices[o];
                    faller.volume = out_volume;
                    faller.stopped = finished;
                    self.voices.set(o, faller);
                    out_volume
                } else {
                    0
                };
                self.fade = if finished {
                    None
                } else {
                    Some(Crossfade { done: i, ..f })
                };
                proof {
                    lemma_fade_step_wf(old(self)@);
                    assert(self@.voices =~= spec_fade_step(old(self)@).voices);
                    assert(self@ =~= spec_fade_step(old(self)@));
                }
                Some(
                    StepReport {
                        outgoing: f.outgoing,
                        out_volume,
                        incoming: f.incoming,
                        in_volume,
                        finished,
                    },
                )
            },
        }
    }

    /// Switches the output to device `new_idx`, given whether the new
    /// device's stream could actually be opened. On success the current
    /// voice is stopped at once — a fade cannot survive a hardware
    /// switch — and the device index is replaced. On failure (device
    /// unknown, or `opened` false) the whole state, previous device
    /// included, is left unchanged and `false` is returned.
    pub fn switch_device(&mut self, new_idx: usize, opened: bool) -> (r: bool)
        requires
            wf(old(self)@),
        ensures
            wf(final(self)@),
            final(self)@ == spec_switch_device(old(self)@, new_idx, opened),
            r == (opened && new_idx < old(self)@.device_names.len()),
            r ==> final(self)@.device == new_idx && final(self)@.active is None && final(self)@.fade is None,
            !r ==> final(self)@ == old(self)@,
    {
        if opened && new_idx < self.device_names.len() {
            self.stop_current();
            self.device = new_idx;
            proof {
                assert(self@ =~= spec_switch_device(old(self)@, new_idx, opened));
            }
            true
        } else {
            false
        }
    }

    /// Applies a live volume edit of `slot`: when the active voice
    /// belongs to that slot, its volume becomes the slot volume scaled
    /// by the master volume, at once and with no ramp. Returns whether
    /// a voice was affected.
    pub fn set_live_volume(&mut self, slot: usize, slot_volume: u32, master_volume: u32) -> (r:
        bool)
        requires
            wf(old(self)@),
            is_volume(slot_volume),
            is_volume(master_volume),
        ensures
            wf(final(self)@),
            final(self)@ == spec_set_live_volume(
                old(self)@,
                slot,
                spec_effective_volume(slot_volume, master_volume) as u32,
            ),
            r == (spec_active_slot(old(self)@) == Some(slot)),
            r ==> (final(self)@.active matches Some(a) && final(self)@.voices[a as int].volume
                == spec_effective_volume(slot_volume, master_volume)),
    {
        match self.active {
            Some(a) => {
                if self.voices[a].slot == slot {
                    let volume = effective_volume(slot_volume, master_volume);
                    let mut v = self.voices[a];
                    v.volume = volume;
                    self.voices.set(a, v);
                    proof {
                        lemma_set_live_volume_wf(
                            old(self)@,
                            slot,
                            spec_effective_volume(slot_volume, master_volume) as u32,
                        );
                        assert(self@.voices =~= spec_set_live_volume(
                            old(self)@,
                            slot,
                            spec_effective_volume(slot_volume, master_volume) as u32,
                        ).voices);
                        assert(self@ =~= spec_set_live_volume(
                            old(self)@,
                            slot,
                            spec_effective_volume(slot_volume, master_volume) as u32,
                        ));
                    }
                    true
                } else {
                    false
                }
            },
            None => false,
        }
    }

    /// The slot of the active voice, if a voice is active: what the
    /// user interface highlights.
    pub fn active_slot(&self) -> (r: Option<usize>)
        requires
            wf(self@),
        ensures
            r == spec_active_slot(self@),
    {
        match self.active {
            Some(a) => Some(self.voices[a].slot),
            None => None,
        }
    }

    /// Whether the active voice belongs to `slot`.
    pub fn is_slot_playing(&self, slot: usize) -> (r: bool)
        requires
            wf(self@),
        ensures
            r == (spec_active_slot(self@) == Some(slot)),
    {
        match self.active {
            Some(a) => self.voices[a].slot == slot,
            None => false,
        }
    }
}

} // verus!
