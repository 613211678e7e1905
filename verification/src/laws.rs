//! The switchboard's global guarantees, proved once over the model
//! transitions: a crossfade executes exactly its scheduled number of
//! steps, at most two voices are ever un-stopped, a re-trigger
//! continues from the superseded voice's current volume, and a stop
//! followed by a trigger leaves exactly one voice un-stopped.

use vstd::prelude::*;
use crate::fade::{lemma_step_count_floor, spec_step_count};
use crate::switchboard::{
    is_fading_out, lemma_stop_wf, lemma_trigger_wf, spec_fade_step, spec_stop, spec_trigger, wf,
    SwitchboardModel, Voice, SLOT_COUNT,
};
use crate::volume::is_volume;

verus! {

/// How many voices of `s` are un-stopped.
pub open spec fn count_unstopped(s: Seq<Voice>) -> int
    decreases s.len(),
{
    if s.len() == 0 {
        0
    } else {
        count_unstopped(s.drop_last()) + if s.last().stopped {
            0int
        } else {
            1int
        }
    }
}

/// When every un-stopped index of `s` is `x` or `y`, at most two
/// voices are un-stopped: the count is bounded by one per index that
/// actually is in range and un-stopped.
proof fn lemma_count_bounded_by_two_indices(s: Seq<Voice>, x: int, y: int)
    requires
        forall|i: int| 0 <= i < s.len() && !(#[trigger] s[i]).stopped ==> i == x || i == y,
    ensures
        count_unstopped(s) <= (if 0 <= x < s.len() && !s[x].stopped {
            1int
        } else {
            0int
        }) + (if 0 <= y < s.len() && y != x && !s[y].stopped {
            1int
        } else {
            0int
        }),
    decreases s.len(),
{
    if s.len() > 0 {
        let t = s.drop_last();
        assert forall|i: int| 0 <= i < t.len() && !(#[trigger] t[i]).stopped implies i == x || i
            == y by {
            assert(t[i] == s[i]);
        };
        lemma_count_bounded_by_two_indices(t, x, y);
    }
}

/// At any instant, at most two voices of a well-formed switchboard are
/// un-stopped: one fading in, one fading out.
pub proof fn lemma_at_most_two_unstopped(m: SwitchboardModel)
    requires
        wf(m),
    ensures
        count_unstopped(m.voices) <= 2,
{
    let x: int = match m.active {
        Some(a) => a as int,
        None => -1,
    };
    let y: int = match m.fade {
        Some(f) => match f.outgoing {
            Some(o) => o as int,
            None => -1,
        },
        None => -1,
    };
    assert forall|i: int| 0 <= i < m.voices.len() && !(#[trigger] m.voices[i]).stopped implies i
        == x || i == y by {
        assert(m.active == Some(i as usize) || is_fading_out(m, i));
    };
    lemma_count_bounded_by_two_indices(m.voices, x, y);
}

/// Of any three distinct voices of a well-formed switchboard, at least
/// one is stopped.
pub proof fn lemma_no_three_playing(m: SwitchboardModel, i: int, j: int, k: int)
    requires
        wf(m),
        0 <= i < m.voices.len(),
        0 <= j < m.voices.len(),
        0 <= k < m.voices.len(),
        i != j,
        i != k,
        j != k,
    ensures
        m.voices[i].stopped || m.voices[j].stopped || m.voices[k].stopped,
{
}

/// Every voice of `s` is stopped exactly when none is counted.
proof fn lemma_count_all_stopped(s: Seq<Voice>)
    requires
        forall|i: int| 0 <= i < s.len() ==> (#[trigger] s[i]).stopped,
    ensures
        count_unstopped(s) == 0,
    decreases s.len(),
{
    if s.len() > 0 {
        let t = s.drop_last();
        assert forall|i: int| 0 <= i < t.len() implies (#[trigger] t[i]).stopped by {
            assert(t[i] == s[i]);
        };
        lemma_count_all_stopped(t);
    }
}

/// Appending a voice adds it, and it alone, to the count.
proof fn lemma_count_push(s: Seq<Voice>, v: Voice)
    ensures
        count_unstopped(s.push(v)) == count_unstopped(s) + if v.stopped {
            0int
        } else {
            1int
        },
{
    assert(s.push(v).drop_last() =~= s);
    assert(s.push(v).last() == v);
}

/// A trigger that supersedes a playing voice fades it out starting
/// from that voice's *current* — possibly partial — volume, never from
/// its original target: no volume discontinuity at the moment of
/// re-trigger.
pub proof fn lemma_retrigger_continuity(
    m: SwitchboardModel,
    slot: usize,
    target: u32,
    duration_ms: u32,
)
    requires
        wf(m),
        m.active is Some,
    ensures
        (spec_trigger(m, slot, target, duration_ms).fade matches Some(f) && {
            &&& f.outgoing == m.active
            &&& (m.active matches Some(a) && f.out_start == m.voices[a as int].volume)
        }),
{
}

/// Stopping the current voice and then triggering a slot never leaves
/// the previously active voice un-stopped: every voice that existed
/// before is stopped, and exactly one voice — the fresh one — is
/// un-stopped.
pub proof fn lemma_stop_then_trigger(
    m: SwitchboardModel,
    slot: usize,
    target: u32,
    duration_ms: u32,
)
    requires
        wf(m),
        m.voices.len() < usize::MAX,
        slot < SLOT_COUNT,
        is_volume(target),
    ensures
        ({
            let m2 = spec_trigger(spec_stop(m), slot, target, duration_ms);
            &&& wf(m2)
            &&& m2.voices.len() == m.voices.len() + 1
            &&& forall|i: int| 0 <= i < m.voices.len() ==> (#[trigger] m2.voices[i]).stopped
            &&& !m2.voices[m.voices.len() as int].stopped
            &&& count_unstopped(m2.voices) == 1
        }),
{
    lemma_stop_wf(m);
    let m1 = spec_stop(m);
    lemma_trigger_wf(m1, slot, target, duration_ms);
    let m2 = spec_trigger(m1, slot, target, duration_ms);
    lemma_count_all_stopped(m1.voices);
    lemma_count_push(m1.voices, Voice { slot, volume: 0u32, stopped: false });
}

/// The switchboard after `n` scheduler steps.
pub open spec fn iter_fade(m: SwitchboardModel, n: nat) -> SwitchboardModel
    decreases n,
{
    if n == 0 {
        m
    } else {
        spec_fade_step(iter_fade(m, (n - 1) as nat))
    }
}

/// A crossfade of duration `duration_ms` executes exactly
/// `spec_step_count(duration_ms)` ramp steps — `max(1, round(d/20))`,
/// so even a zero duration executes one step. After `n` steps fewer
/// than that the fade is still in flight with `n` steps done; at the
/// scheduled count it retires, and further scheduler steps do nothing.
pub proof fn lemma_fade_runs_exact_steps(
    m0: SwitchboardModel,
    slot: usize,
    target: u32,
    duration_ms: u32,
    n: nat,
)
    requires
        wf(m0),
        m0.voices.len() < usize::MAX,
        slot < SLOT_COUNT,
        is_volume(target),
    ensures
        ({
            let mt = spec_trigger(m0, slot, target, duration_ms);
            let steps = spec_step_count(duration_ms as int);
            &&& n < steps ==> (iter_fade(mt, n).fade matches Some(f) && f.done == n && f.steps
                == steps)
            &&& n >= steps ==> iter_fade(mt, n).fade is None
        }),
    decreases n,
{
    lemma_trigger_wf(m0, slot, target, duration_ms);
    lemma_step_count_floor(duration_ms as int);
    if n > 0 {
        lemma_fade_runs_exact_steps(m0, slot, target, duration_ms, (n - 1) as nat);
    }
}

} // verus!
