//! The capture scheduler's decisions.
//!
//! The surrounding loop runs at a fixed cadence: each tick it samples the
//! keys, feeds them to the scheduler, and performs the action the scheduler
//! decides — acquiring a frame on a fire, retrying once per tick while the
//! capture surface has no new frame, choosing the crop mode, and picking a
//! never-colliding index for the raw file's name. All outside work (OS key
//! polling, frame acquisition, the clock, file writes) stays with the caller;
//! the decisions here are pure.

use vstd::prelude::*;
use crate::crop::Rect;
use crate::keys::{edge_event, KeyEdgeDetector, KeyEvent, KeyState};

verus! {

/// What the capture surface yielded when asked for a frame.
#[derive(PartialEq, Eq, Structural, Clone, Copy, Debug)]
pub enum FrameStatus {
    /// A fresh frame is available.
    Ready,
    /// No new frame since the last read — expected at high polling rates.
    NotReady,
    /// The capture surface is unusable (device lost, display disconnected).
    Fatal,
}

/// How the capture loop responds to a frame acquisition attempt.
#[derive(PartialEq, Eq, Structural, Clone, Copy, Debug)]
pub enum FrameReaction {
    /// Use the frame.
    Proceed,
    /// Wait one tick and ask again, without advancing the edge state: the
    /// press must still be captured once a frame is available.
    RetryAfterTick,
    /// Unrecoverable: leave the capture loop.
    Abort,
}

/// Which region of the frame is persisted.
#[derive(PartialEq, Eq, Structural, Clone, Copy, Debug)]
pub enum CropMode {
    /// The whole frame, with per-row padding stripped.
    Full,
    /// The given window rectangle, clamped and inset.
    Windowed(Rect),
}

/// `NotReady` is retried after one tick, never treated as failure; only
/// `Fatal` ends the loop.
pub fn react_to_frame(status: &FrameStatus) -> (r: FrameReaction)
    ensures
        status is Ready ==> r is Proceed,
        status is NotReady ==> r is RetryAfterTick,
        status is Fatal ==> r is Abort,
{
    match status {
        FrameStatus::Ready => FrameReaction::Proceed,
        FrameStatus::NotReady => FrameReaction::RetryAfterTick,
        FrameStatus::Fatal => FrameReaction::Abort,
    }
}

/// Crop to the active window only when the modifier is held and the OS could
/// report a window rectangle; otherwise fall back to the full frame.
pub fn choose_crop(modifier_down: bool, window_rect: Option<Rect>) -> (r: CropMode)
    ensures
        modifier_down && window_rect is Some ==> r == CropMode::Windowed(window_rect->0),
        !(modifier_down && window_rect is Some) ==> r is Full,
{
    if modifier_down {
        match window_rect {
            Some(rect) => CropMode::Windowed(rect),
            None => CropMode::Full,
        }
    } else {
        CropMode::Full
    }
}

/// The capture loop's state: the edge detector's stored sample and the index
/// of the most recent capture, kept to force strictly increasing file names.
pub struct CaptureScheduler {
    detector: KeyEdgeDetector,
    last_index: u128,
}

impl CaptureScheduler {
    /// The stored previous trigger sample.
    pub closed spec fn prev_trigger(self) -> bool {
        self.detector.prev()
    }

    /// The index handed out for the most recent capture.
    pub closed spec fn last_index(self) -> u128 {
        self.last_index
    }

    pub fn new() -> (r: CaptureScheduler)
        ensures
            !r.prev_trigger(),
            r.last_index() == 0,
    {
        CaptureScheduler { detector: KeyEdgeDetector::new(), last_index: 0 }
    }

    /// One tick: feed the fresh key sample to the edge detector. The caller
    /// captures exactly when the result is `Fire`.
    pub fn tick(&mut self, sample: &KeyState) -> (ev: KeyEvent)
        ensures
            ev == edge_event(old(self).prev_trigger(), sample.vk_snapshot.spec_is_down()),
            ev is Fire <==> sample.vk_snapshot.spec_is_down() && !old(self).prev_trigger(),
            final(self).prev_trigger() == sample.vk_snapshot.spec_is_down(),
            final(self).last_index() == old(self).last_index(),
    {
        self.detector.update(sample)
    }

    /// The index handed out for the most recent capture, for callers that
    /// must check room is left before asking for another.
    pub fn last_capture_index(&self) -> (r: u128)
        ensures
            r == self.last_index(),
    {
        self.last_index
    }

    /// The index for a new capture, from the current clock reading: the
    /// clock value when it has advanced, otherwise one past the previous
    /// index — strictly increasing either way, so file names never collide
    /// even when two captures fire within the same clock tick.
    pub fn next_capture_index(&mut self, now_nanos: u128) -> (r: u128)
        requires
            old(self).last_index() < u128::MAX,
        ensures
            r > old(self).last_index(),
            r >= now_nanos,
            r == if now_nanos > old(self).last_index() {
                now_nanos
            } else {
                (old(self).last_index() + 1) as u128
            },
            final(self).last_index() == r,
            final(self).prev_trigger() == old(self).prev_trigger(),
    {
        let r = if now_nanos > self.last_index {
            now_nanos
        } else {
            self.last_index + 1
        };
        self.last_index = r;
        r
    }
}

} // verus!
