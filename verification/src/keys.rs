//! Edge-triggered hotkey detection.
//!
//! The OS only exposes polled key state, so a fixed-cadence loop samples the
//! trigger and modifier keys every tick. [`KeyEdgeDetector`] turns those
//! repeated samples into discrete events: `Fire` on the tick where the trigger
//! goes from up to down, `Down` while it stays held, `Up` otherwise — so one
//! physical press yields exactly one `Fire` no matter how long it is held.

use vstd::prelude::*;

verus! {

/// Raw key-state word as the OS reports it; bit 15 set means the key is down.
pub struct VirtualKey(u32);

impl VirtualKey {
    /// The raw state word this key sample carries.
    pub closed spec fn raw(self) -> u32 {
        self.0
    }

    pub open spec fn spec_is_down(self) -> bool {
        self.raw() & 0x8000 != 0
    }

    pub fn new(raw: u32) -> (r: VirtualKey)
        ensures
            r.raw() == raw,
    {
        VirtualKey(raw)
    }

    /// Whether this sample reports the key as held down (high bit of the
    /// low word set).
    pub fn is_down(&self) -> (r: bool)
        ensures
            r == self.spec_is_down(),
    {
        self.0 & 0x8000 != 0
    }
}

/// One sample of the two logical keys, taken together at a single instant.
pub struct KeyState {
    /// Capture-trigger key (print-screen).
    pub vk_snapshot: VirtualKey,
    /// Crop-to-active-window modifier key (alt/menu).
    pub vk_menu: VirtualKey,
}

/// The discrete transition derived from two consecutive trigger samples.
#[derive(PartialEq, Eq, Structural, Clone, Copy, Debug)]
pub enum KeyEvent {
    Up,
    Fire,
    Down,
}

/// The event produced when the stored previous trigger sample is `prev_down`
/// and the fresh sample is `cur_down`: `Fire` exactly on an up-to-down edge.
pub open spec fn edge_event(prev_down: bool, cur_down: bool) -> KeyEvent {
    if !cur_down {
        KeyEvent::Up
    } else if !prev_down {
        KeyEvent::Fire
    } else {
        KeyEvent::Down
    }
}

/// Converts repeated polling of the trigger key into discrete [`KeyEvent`]
/// transitions. Stores only the immediately preceding sample.
pub struct KeyEdgeDetector {
    prev_trigger: bool,
}

impl KeyEdgeDetector {
    /// The stored previous trigger sample.
    pub closed spec fn prev(self) -> bool {
        self.prev_trigger
    }

    /// A fresh detector assumes the trigger starts in the up position.
    pub fn new() -> (r: KeyEdgeDetector)
        ensures
            !r.prev(),
    {
        KeyEdgeDetector { prev_trigger: false }
    }

    /// Feed one fresh sample; returns the transition and stores the sample
    /// (including on the tick that produced `Fire`, which is what limits a
    /// press to a single `Fire`).
    pub fn update(&mut self, sample: &KeyState) -> (ev: KeyEvent)
        ensures
            ev == edge_event(old(self).prev(), sample.vk_snapshot.spec_is_down()),
            final(self).prev() == sample.vk_snapshot.spec_is_down(),
            ev is Fire <==> sample.vk_snapshot.spec_is_down() && !old(self).prev(),
    {
        let cur = sample.vk_snapshot.is_down();
        let was = self.prev_trigger;
        self.prev_trigger = cur;
        if !cur {
            KeyEvent::Up
        } else if !was {
            KeyEvent::Fire
        } else {
            KeyEvent::Down
        }
    }
}

/// The trigger sample the detector holds just before processing step `k` of
/// the sample sequence `s`, having started from stored sample `init`.
pub open spec fn prev_at(init: bool, s: Seq<bool>, k: int) -> bool
    recommends
        0 <= k < s.len(),
{
    if k == 0 {
        init
    } else {
        s[k - 1]
    }
}

/// The event the detector emits at step `k` of the sample sequence `s`.
pub open spec fn event_at(init: bool, s: Seq<bool>, k: int) -> KeyEvent
    recommends
        0 <= k < s.len(),
{
    edge_event(prev_at(init, s, k), s[k])
}

/// How many of the steps in `[i, j)` emit `Fire`.
pub open spec fn fire_count_between(init: bool, s: Seq<bool>, i: int, j: int) -> nat
    recommends
        0 <= i <= j <= s.len(),
    decreases j - i,
{
    if i >= j {
        0
    } else {
        (if event_at(init, s, i) is Fire {
            1nat
        } else {
            0nat
        }) + fire_count_between(init, s, i + 1, j)
    }
}

proof fn lemma_no_fire_inside_run(init: bool, s: Seq<bool>, i: int, j: int)
    requires
        0 <= i <= j <= s.len(),
        forall|k: int| i <= k < j ==> s[k],
        i > 0 ==> s[i - 1],
        i == 0 ==> init,
    ensures
        fire_count_between(init, s, i, j) == 0,
    decreases j - i,
{
    if i < j {
        lemma_no_fire_inside_run(init, s, i + 1, j);
    }
}

/// For every sequence of trigger samples and every maximal run of consecutive
/// "down" samples `[i, j)` in it, the detector emits exactly one `Fire` over
/// that run — regardless of the run's length.
pub proof fn lemma_one_fire_per_run(init: bool, s: Seq<bool>, i: int, j: int)
    requires
        0 <= i < j <= s.len(),
        forall|k: int| i <= k < j ==> s[k],
        !prev_at(init, s, i),
    ensures
        fire_count_between(init, s, i, j) == 1,
{
    assert(event_at(init, s, i) is Fire);
    lemma_no_fire_inside_run(init, s, i + 1, j);
}

} // verus!
