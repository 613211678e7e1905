//! Deck configuration: ten slots (source path, volume, display name,
//! loop flag), the crossfade duration, the preferred output device and
//! the master volume, together with the edits the user interface
//! performs on it and the plan a trigger derives from it.

use vstd::prelude::*;
use vstd::string::{StrSliceExecFns, StringExecFns};
use crate::switchboard::SLOT_COUNT;
use crate::volume::{effective_volume, is_volume, spec_effective_volume, FULL_VOLUME};

verus! {

/// Per-slot configuration: optional source path, volume, optional
/// display name, loop flag.
#[derive(Clone, Debug)]
pub struct SlotSpec {
    pub path: Option<String>,
    pub volume: u32,
    pub name: Option<String>,
    pub looping: bool,
}

/// The default slot: no source, full volume, no name, looping.
pub open spec fn slot_is_default(s: SlotSpec) -> bool {
    &&& s.path is None
    &&& s.volume == FULL_VOLUME
    &&& s.name is None
    &&& s.looping
}

impl SlotSpec {
    /// A slot is well formed when its volume is a volume.
    pub open spec fn wf(&self) -> bool {
        is_volume(self.volume)
    }
}

impl Default for SlotSpec {
    /// The default slot: no source, full volume, no name, looping.
    fn default() -> (r: SlotSpec)
        ensures
            slot_is_default(r),
            r.wf(),
    {
        SlotSpec { path: None, volume: FULL_VOLUME, name: None, looping: true }
    }
}

/// The whole deck's configuration.
#[derive(Clone, Debug)]
pub struct DeckConfig {
    pub slots: Vec<SlotSpec>,
    pub crossfade_ms: u32,
    pub output_device_name: Option<String>,
    pub master_volume: u32,
}

/// What a trigger of a slot needs from the configuration: the
/// effective target volume (slot volume scaled by master volume), the
/// crossfade duration, and whether the source repeats indefinitely.
#[derive(Clone, Copy, Debug)]
pub struct TriggerPlan {
    pub target: u32,
    pub duration_ms: u32,
    pub looping: bool,
}

/// Milliseconds of crossfade applied when none has been configured.
pub const DEFAULT_CROSSFADE_MS: u32 = 2000;

impl DeckConfig {
    /// A deck configuration is well formed when it has exactly
    /// [`SLOT_COUNT`] slots and every volume is a volume.
    pub open spec fn wf(&self) -> bool {
        &&& self.slots@.len() == SLOT_COUNT
        &&& forall|i: int| 0 <= i < self.slots@.len() ==> (#[trigger] self.slots@[i]).wf()
        &&& is_volume(self.master_volume)
    }

    /// Replaces slot `slot` with `value`, leaving all else unchanged.
    fn replace_slot(&mut self, slot: usize, value: SlotSpec)
        requires
            old(self).wf(),
            slot < SLOT_COUNT,
            value.wf(),
        ensures
            final(self).wf(),
            final(self).slots@ == old(self).slots@.update(slot as int, value),
            final(self).crossfade_ms == old(self).crossfade_ms,
            final(self).output_device_name == old(self).output_device_name,
            final(self).master_volume == old(self).master_volume,
    {
        let _ = self.slots.remove(slot);
        self.slots.insert(slot, value);
        proof {
            assert(self.slots@ =~= old(self).slots@.update(slot as int, value));
        }
    }

    /// Sets slot `slot`'s volume to `volume`, leaving everything else
    /// about the slot and the deck unchanged. A live edit: the caller
    /// separately applies the new effective volume to a playing voice.
    pub fn set_slot_volume(&mut self, slot: usize, volume: u32)
        requires
            old(self).wf(),
            slot < SLOT_COUNT,
            is_volume(volume),
        ensures
            final(self).wf(),
            final(self).slots@[slot as int].volume == volume,
            final(self).slots@[slot as int].path == old(self).slots@[slot as int].path,
            final(self).slots@[slot as int].name == old(self).slots@[slot as int].name,
            final(self).slots@[slot as int].looping == old(self).slots@[slot as int].looping,
            forall|i: int|
                0 <= i < SLOT_COUNT && i != slot ==> final(self).slots@[i] == old(
                    self,
                ).slots@[i],
            final(self).crossfade_ms == old(self).crossfade_ms,
            final(self).output_device_name == old(self).output_device_name,
            final(self).master_volume == old(self).master_volume,
    {
        let mut s = self.slots.remove(slot);
        s.volume = volume;
        self.slots.insert(slot, s);
        proof {
            assert(forall|i: int|
                0 <= i < SLOT_COUNT && i != slot ==> final(self).slots@[i] == old(
                    self,
                ).slots@[i]);
        }
    }

    /// Sets the slot's source path.
    pub fn set_slot_path(&mut self, slot: usize, path: Option<String>)
        requires
            old(self).wf(),
            slot < SLOT_COUNT,
        ensures
            final(self).wf(),
            final(self).slots@[slot as int].path == path,
            final(self).slots@[slot as int].volume == old(self).slots@[slot as int].volume,
            final(self).slots@[slot as int].name == old(self).slots@[slot as int].name,
            final(self).slots@[slot as int].looping == old(self).slots@[slot as int].looping,
            forall|i: int|
                0 <= i < SLOT_COUNT && i != slot ==> final(self).slots@[i] == old(
                    self,
                ).slots@[i],
            final(self).crossfade_ms == old(self).crossfade_ms,
            final(self).output_device_name == old(self).output_device_name,
            final(self).master_volume == old(self).master_volume,
    {
        let mut s = self.slots.remove(slot);
        s.path = path;
        self.slots.insert(slot, s);
    }

    /// Sets the slot's loop flag.
    pub fn set_slot_looping(&mut self, slot: usize, looping: bool)
        requires
            old(self).wf(),
            slot < SLOT_COUNT,
        ensures
            final(self).wf(),
            final(self).slots@[slot as int].looping == looping,
            final(self).slots@[slot as int].volume == old(self).slots@[slot as int].volume,
            final(self).slots@[slot as int].name == old(self).slots@[slot as int].name,
            final(self).slots@[slot as int].path == old(self).slots@[slot as int].path,
            forall|i: int|
                0 <= i < SLOT_COUNT && i != slot ==> final(self).slots@[i] == old(
                    self,
                ).slots@[i],
            final(self).crossfade_ms == old(self).crossfade_ms,
            final(self).output_device_name == old(self).output_device_name,
            final(self).master_volume == old(self).master_volume,
    {
        let mut s = self.slots.remove(slot);
        s.looping = looping;
        self.slots.insert(slot, s);
    }

    /// Sets the slot's display name. A name that is empty or all
    /// whitespace clears the name instead.
    pub fn set_slot_name(&mut self, slot: usize, name: String)
        requires
            old(self).wf(),
            slot < SLOT_COUNT,
        ensures
            final(self).wf(),
            is_blank(name@) ==> final(self).slots@[slot as int].name is None,
            !is_blank(name@) ==> final(self).slots@[slot as int].name == Some(name),
            final(self).slots@[slot as int].volume == old(self).slots@[slot as int].volume,
            final(self).slots@[slot as int].path == old(self).slots@[slot as int].path,
            final(self).slots@[slot as int].looping == old(self).slots@[slot as int].looping,
            forall|i: int|
                0 <= i < SLOT_COUNT && i != slot ==> final(self).slots@[i] == old(
                    self,
                ).slots@[i],
            final(self).crossfade_ms == old(self).crossfade_ms,
            final(self).output_device_name == old(self).output_device_name,
            final(self).master_volume == old(self).master_volume,
    {
        let mut s = self.slots.remove(slot);
        if blank(name.as_str()) {
            s.name = None;
        } else {
            s.name = Some(name);
        }
        self.slots.insert(slot, s);
    }

    /// Resets slot `slot` to the default slot: no source, full volume,
    /// no name, looping.
    pub fn clear_slot(&mut self, slot: usize)
        requires
            old(self).wf(),
            slot < SLOT_COUNT,
        ensures
            final(self).wf(),
            slot_is_default(final(self).slots@[slot as int]),
            forall|i: int|
                0 <= i < SLOT_COUNT && i != slot ==> final(self).slots@[i] == old(
                    self,
                ).slots@[i],
            final(self).crossfade_ms == old(self).crossfade_ms,
            final(self).output_device_name == old(self).output_device_name,
            final(self).master_volume == old(self).master_volume,
    {
        self.replace_slot(slot, SlotSpec::default());
    }

    /// Resets every slot to the default slot, keeping the crossfade
    /// duration, device choice and master volume.
    pub fn clear_all(&mut self)
        requires
            old(self).wf(),
        ensures
            final(self).wf(),
            forall|i: int| 0 <= i < SLOT_COUNT ==> slot_is_default(#[trigger] final(self).slots@[i]),
            final(self).crossfade_ms == old(self).crossfade_ms,
            final(self).output_device_name == old(self).output_device_name,
            final(self).master_volume == old(self).master_volume,
    {
        let mut slot: usize = 0;
        while slot < SLOT_COUNT
            invariant
                self.wf(),
                slot <= SLOT_COUNT,
                forall|i: int| 0 <= i < slot ==> slot_is_default(#[trigger] self.slots@[i]),
                self.crossfade_ms == old(self).crossfade_ms,
                self.output_device_name == old(self).output_device_name,
                self.master_volume == old(self).master_volume,
            decreases SLOT_COUNT - slot,
        {
            self.clear_slot(slot);
            slot = slot + 1;
        }
    }

    /// Sets the master volume. A live edit: the caller separately
    /// applies the new effective volume to a playing voice.
    pub fn set_master_volume(&mut self, volume: u32)
        requires
            old(self).wf(),
            is_volume(volume),
        ensures
            final(self).wf(),
            final(self).master_volume == volume,
            final(self).slots@ == old(self).slots@,
            final(self).crossfade_ms == old(self).crossfade_ms,
            final(self).output_device_name == old(self).output_device_name,
    {
        self.master_volume = volume;
    }

    /// Sets the crossfade duration in milliseconds.
    pub fn set_crossfade_ms(&mut self, duration_ms: u32)
        requires
            old(self).wf(),
        ensures
            final(self).wf(),
            final(self).crossfade_ms == duration_ms,
            final(self).slots@ == old(self).slots@,
            final(self).output_device_name == old(self).output_device_name,
            final(self).master_volume == old(self).master_volume,
    {
        self.crossfade_ms = duration_ms;
    }

    /// What a trigger of `slot` would do: `None` exactly when the slot
    /// does not exist or has no source assigned — then no transition
    /// starts and the deck is unaffected — otherwise the effective
    /// target volume, the crossfade duration and the loop flag.
    pub fn plan_trigger(&self, slot: usize) -> (r: Option<TriggerPlan>)
        requires
            self.wf(),
        ensures
            (r is Some) == (slot < SLOT_COUNT && self.slots@[slot as int].path is Some),
            (r matches Some(p) ==> {
                &&& p.target == spec_effective_volume(
                    self.slots@[slot as int].volume,
                    self.master_volume,
                )
                &&& is_volume(p.target)
                &&& p.duration_ms == self.crossfade_ms
                &&& p.looping == self.slots@[slot as int].looping
            }),
    {
        if slot >= SLOT_COUNT {
            return None;
        }
        let s = &self.slots[slot];
        if s.path.is_none() {
            return None;
        }
        Some(
            TriggerPlan {
                target: effective_volume(s.volume, self.master_volume),
                duration_ms: self.crossfade_ms,
                looping: s.looping,
            },
        )
    }

    /// Assigns a dropped file's path: to the slot it was dropped on
    /// when one was hit, otherwise to the first slot that has no
    /// source yet. Returns the slot that received the path; `None`,
    /// with the deck unchanged, when nothing was hit and every slot
    /// already has a source.
    pub fn assign_drop(&mut self, hit: Option<usize>, path: String) -> (r: Option<usize>)
        requires
            old(self).wf(),
            (hit matches Some(h) ==> h < SLOT_COUNT),
        ensures
            final(self).wf(),
            (hit matches Some(h) ==> r == Some(h)),
            (hit is None && (exists|i: int|
                0 <= i < SLOT_COUNT && (#[trigger] old(self).slots@[i]).path is None) ==> (
            r matches Some(s) && old(self).slots@[s as int].path is None && (forall|j: int|
                0 <= j < s ==> (#[trigger] old(self).slots@[j]).path is Some))),
            (hit is None && !(exists|i: int|
                0 <= i < SLOT_COUNT && (#[trigger] old(self).slots@[i]).path is None) ==> r
                is None),
            (r matches Some(s) ==> s < SLOT_COUNT && final(self).slots@[s as int].path == Some(
                path,
            ) && (forall|j: int|
                0 <= j < SLOT_COUNT && j != s ==> final(self).slots@[j] == old(self).slots@[j])),
            (r is None ==> final(self).slots@ == old(self).slots@),
            final(self).crossfade_ms == old(self).crossfade_ms,
            final(self).output_device_name == old(self).output_device_name,
            final(self).master_volume == old(self).master_volume,
    {
        match hit {
            Some(h) => {
                self.set_slot_path(h, Some(path));
                Some(h)
            },
            None => {
                let mut i: usize = 0;
                while i < SLOT_COUNT
                    invariant
                        hit is None,
                        old(self).wf(),
                        self == old(self),
                        i <= SLOT_COUNT,
                        forall|j: int|
                            0 <= j < i ==> (#[trigger] self.slots@[j]).path is Some,
                    decreases SLOT_COUNT - i,
                {
                    if self.slots[i].path.is_none() {
                        self.set_slot_path(i, Some(path));
                        return Some(i);
                    }
                    i = i + 1;
                }
                None
            },
        }
    }

    /// The slot's source path, for the caller to open.
    pub fn slot_path(&self, slot: usize) -> (r: &Option<String>)
        requires
            self.wf(),
            slot < SLOT_COUNT,
        ensures
            *r == self.slots@[slot as int].path,
    {
        &self.slots[slot].path
    }
}

/// Builds the ten default slots.
fn default_slots() -> (r: Vec<SlotSpec>)
    ensures
        r@.len() == SLOT_COUNT,
        forall|i: int| 0 <= i < SLOT_COUNT ==> slot_is_default(#[trigger] r@[i]) && r@[i].wf(),
{
    let mut slots: Vec<SlotSpec> = Vec::new();
    let mut i: usize = 0;
    while i < SLOT_COUNT
        invariant
            i <= SLOT_COUNT,
            slots@.len() == i,
            forall|j: int| 0 <= j < i ==> slot_is_default(#[trigger] slots@[j]) && slots@[j].wf(),
        decreases SLOT_COUNT - i,
    {
        slots.push(SlotSpec::default());
        i = i + 1;
    }
    slots
}

impl Default for DeckConfig {
    /// The default deck: ten default slots, a two-second crossfade, no
    /// preferred device, full master volume.
    fn default() -> (r: DeckConfig)
        ensures
            r.wf(),
            forall|i: int| 0 <= i < SLOT_COUNT ==> slot_is_default(#[trigger] r.slots@[i]),
            r.crossfade_ms == DEFAULT_CROSSFADE_MS,
            r.output_device_name is None,
            r.master_volume == FULL_VOLUME,
    {
        DeckConfig {
            slots: default_slots(),
            crossfade_ms: DEFAULT_CROSSFADE_MS,
            output_device_name: None,
            master_volume: FULL_VOLUME,
        }
    }
}

/// Whether `c` has the Unicode `White_Space` property — the set a
/// display name is trimmed for, written out code point by code point.
pub open spec fn is_space(c: char) -> bool {
    let u = c as u32;
    &&& (u == 0x20 || (0x9 <= u && u <= 0xD) || u == 0x85 || u == 0xA0 || u == 0x1680 || (0x2000
        <= u && u <= 0x200A) || u == 0x2028 || u == 0x2029 || u == 0x202F || u == 0x205F || u
        == 0x3000)
}

/// A display name is blank when every character is whitespace; an
/// empty name is blank.
pub open spec fn is_blank(s: Seq<char>) -> bool {
    forall|i: int| 0 <= i < s.len() ==> is_space(#[trigger] s[i])
}

/// Path separator: `/` alone. These are the platform path rules in
/// which `\` is an ordinary file-name character.
pub open spec fn is_separator(c: char) -> bool {
    c == '/'
}

/// Index at which a path's final run of non-separator characters
/// begins: one past the last separator, or zero when the path has
/// none.
pub open spec fn spec_basename_start(s: Seq<char>) -> int
    decreases s.len(),
{
    if s.len() == 0 {
        0
    } else if is_separator(s.last()) {
        s.len() as int
    } else {
        spec_basename_start(s.drop_last())
    }
}

/// The final component of a path, by the usual path rules: trailing
/// separators are ignored, a `.` component stands for the directory
/// before it, and `None` is returned when no component remains (an
/// empty or root path) or when the last component is `..`.
pub open spec fn spec_file_name(s: Seq<char>) -> Option<Seq<char>>
    decreases s.len(),
{
    if s.len() == 0 {
        None
    } else if is_separator(s.last()) {
        spec_file_name(s.drop_last())
    } else {
        let n = s.len() as int;
        let start = spec_basename_start(s);
        if n - start == 1 && s[n - 1] == '.' {
            spec_file_name(s.drop_last())
        } else if n - start == 2 && s[n - 2] == '.' && s[n - 1] == '.' {
            None
        } else {
            Some(s.subrange(start, n))
        }
    }
}

/// Where `spec_basename_start` lands is pinned by its two defining
/// facts: everything from `k` on is separator-free, and `k` is zero or
/// sits right after a separator.
proof fn lemma_basename_start_at(s: Seq<char>, k: int)
    requires
        0 <= k <= s.len(),
        k == 0 || is_separator(s[k - 1]),
        forall|j: int| k <= j < s.len() ==> !is_separator(#[trigger] s[j]),
    ensures
        spec_basename_start(s) == k,
    decreases s.len(),
{
    if s.len() == 0 {
    } else if is_separator(s.last()) {
        assert(k == s.len());
    } else {
        let t = s.drop_last();
        assert(k <= t.len());
        assert forall|j: int| k <= j < t.len() implies !is_separator(#[trigger] t[j]) by {
            assert(t[j] == s[j]);
        };
        if k > 0 {
            assert(t[k - 1] == s[k - 1]);
        }
        lemma_basename_start_at(t, k);
    }
}

/// Start of the run of non-separator characters that ends at `pos`:
/// scans left from `pos` to the nearest separator.
fn component_start(path: &str, pos: usize) -> (r: usize)
    requires
        pos <= path@.len(),
    ensures
        r <= pos,
        r == 0 || is_separator(path@[r - 1]),
        forall|j: int| r <= j < pos ==> !is_separator(#[trigger] path@[j]),
    decreases pos,
{
    if pos == 0 {
        0
    } else {
        let c = path.get_char(pos - 1);
        if c == '/' {
            pos
        } else {
            component_start(path, pos - 1)
        }
    }
}

/// The character range `[r.0, r.1)` of the final path component of
/// `path[..end]`, by the rules of `spec_file_name`; `None` when that
/// prefix has no usable component.
fn file_name_range(path: &str, end: usize) -> (r: Option<(usize, usize)>)
    requires
        end <= path@.len(),
    ensures
        (match r {
            Some(range) => range.0 <= range.1 <= end && spec_file_name(path@.take(end as int))
                == Some(path@.subrange(range.0 as int, range.1 as int)),
            None => spec_file_name(path@.take(end as int)) is None,
        }),
    decreases end,
{
    if end == 0 {
        return None;
    }
    let c = path.get_char(end - 1);
    proof {
        assert(path@.take(end as int).last() == path@[end - 1]);
        assert(path@.take(end as int).drop_last() =~= path@.take(end - 1));
    }
    if c == '/' {
        return file_name_range(path, end - 1);
    }
    let start = component_start(path, end - 1);
    proof {
        let s = path@.take(end as int);
        assert forall|j: int| start <= j < s.len() implies !is_separator(#[trigger] s[j]) by {
            assert(s[j] == path@[j]);
        };
        if start > 0 {
            assert(s[start - 1] == path@[start - 1]);
        }
        lemma_basename_start_at(s, start as int);
    }
    if end - start == 1 && c == '.' {
        return file_name_range(path, end - 1);
    }
    if end - start == 2 && c == '.' {
        let first = path.get_char(start);
        if first == '.' {
            return None;
        }
    }
    proof {
        assert(path@.take(end as int).subrange(start as int, end as int) =~= path@.subrange(
            start as int,
            end as int,
        ));
    }
    Some((start, end))
}

/// The compact display name of an assigned source file: the path's
/// final component when it has one — trailing separators and a
/// trailing `.` component are ignored — and the path itself unchanged
/// when none remains or the last component is `..`.
pub fn filename_only(path: &str) -> (r: String)
    ensures
        r@ == (match spec_file_name(path@) {
            Some(name) => name,
            None => path@,
        }),
{
    let n = path.unicode_len();
    proof {
        assert(path@.take(n as int) =~= path@);
    }
    match file_name_range(path, n) {
        Some((start, end)) => String::from_str(path.substring_char(start, end)),
        None => String::from_str(path),
    }
}

/// Whether `s` is empty or all whitespace.
pub fn blank(s: &str) -> (r: bool)
    ensures
        r == is_blank(s@),
{
    let n = s.unicode_len();
    let mut i: usize = 0;
    while i < n
        invariant
            i <= n,
            n == s@.len(),
            forall|j: int| 0 <= j < i ==> is_space(#[trigger] s@[j]),
        decreases n - i,
    {
        let c = s.get_char(i);
        let u = c as u32;
        let white = u == 0x20 || (0x9 <= u && u <= 0xD) || u == 0x85 || u == 0xA0 || u == 0x1680
            || (0x2000 <= u && u <= 0x200A) || u == 0x2028 || u == 0x2029 || u == 0x202F || u
            == 0x205F || u == 0x3000;
        if !white {
            return false;
        }
        i = i + 1;
    }
    true
}

} // verus!
