use vstd::prelude::*;

use std::time::{Duration, Instant};

verus! {

/// Direction of a mouse-wheel or trackpad scroll.
#[derive(Debug, Clone, Copy, PartialEq, Eq, Structural)]
pub enum ScrollDirection {
    Up,
    Down,
}

impl ScrollDirection {
    /// Sign of the scroll in lines: up scrolls back, down scrolls forward.
    pub open spec fn spec_sign(self) -> int {
        match self {
            ScrollDirection::Up => -1,
            ScrollDirection::Down => 1,
        }
    }

    pub fn sign(self) -> (s: i32)
        ensures
            s == self.spec_sign(),
    {
        match self {
            ScrollDirection::Up => -1,
            ScrollDirection::Down => 1,
        }
    }
}

#[verifier::external_type_specification]
#[verifier::external_body]
pub struct ExInstant(Instant);

/// `Instant::now`. Nothing is claimed of the time it reads.
#[verifier::external_body]
fn instant_now() -> Instant {
    Instant::now()
}

/// `Instant::duration_since`. Nothing is claimed of the duration.
#[verifier::external_body]
fn duration_since(now: &Instant, earlier: &Instant) -> Duration {
    now.duration_since(*earlier)
}

/// `Duration::as_millis`. Nothing is claimed of the count.
#[verifier::external_body]
fn whole_millis(d: &Duration) -> u128 {
    d.as_millis()
}

/// Events closer together than this many milliseconds come from a trackpad.
pub const TRACKPAD_WINDOW_MS: u128 = 35;

/// Lines to scroll for one event: 1 for a trackpad, 3 for a mouse wheel, signed by direction.
pub open spec fn scroll_delta(direction: ScrollDirection, is_trackpad: bool) -> int {
    direction.spec_sign() * if is_trackpad { 1int } else { 3int }
}

/// Tells trackpad scrolling (frequent events, one line each) from a mouse wheel
/// (three lines per notch) by the time between events.
pub struct MouseScrollState {
    last_event_at: Option<Instant>,
    last_gap: Ghost<Option<u128>>,
}

/// Whether a scroll that came `elapsed_ms` after the previous one (none when it is the
/// first) counts as a trackpad: it came within the trackpad window.
pub open spec fn is_trackpad_gap(elapsed_ms: Option<u128>) -> bool {
    elapsed_ms matches Some(e) && e < TRACKPAD_WINDOW_MS
}

/// The signed number of lines for a scroll that came `elapsed_ms` after the previous one.
pub fn scroll_lines_after(elapsed_ms: Option<u128>, direction: ScrollDirection) -> (r: i32)
    ensures
        r == scroll_delta(direction, is_trackpad_gap(elapsed_ms)),
{
    let is_trackpad = match elapsed_ms {
        Some(e) => e < TRACKPAD_WINDOW_MS,
        None => false,
    };
    MouseScrollState::scroll_lines(direction, is_trackpad)
}

impl MouseScrollState {
    /// Whether a scroll event was seen before.
    pub closed spec fn has_previous(&self) -> bool {
        self.last_event_at is Some
    }

    /// The time, in whole milliseconds, between the last scroll event and the one before
    /// it, as the clock measured it; none when the last event was the first.
    pub closed spec fn last_gap(&self) -> Option<u128> {
        self.last_gap@
    }

    pub fn new() -> (r: Self)
        ensures
            !r.has_previous(),
    {
        MouseScrollState { last_event_at: None, last_gap: Ghost(None) }
    }

    /// The signed number of lines for one event.
    pub fn scroll_lines(direction: ScrollDirection, is_trackpad: bool) -> (r: i32)
        ensures
            r == scroll_delta(direction, is_trackpad),
    {
        let lines_per_tick: i32 = if is_trackpad { 1 } else { 3 };
        direction.sign() * lines_per_tick
    }

    /// Handles one scroll event and returns the signed number of lines to scroll. The
    /// clock is read; the event counts as a trackpad when it follows the previous event
    /// within 35 ms, and as a mouse wheel otherwise, the first event included.
    pub fn on_scroll(&mut self, direction: ScrollDirection) -> (r: i32)
        ensures
            final(self).has_previous(),
            final(self).last_gap() is Some <==> old(self).has_previous(),
            r == scroll_delta(direction, is_trackpad_gap(final(self).last_gap())),
    {
        let now = instant_now();
        let elapsed = match &self.last_event_at {
            Some(last) => Some(whole_millis(&duration_since(&now, last))),
            None => None,
        };
        self.last_event_at = Some(now);
        self.last_gap = Ghost(elapsed);
        scroll_lines_after(elapsed, direction)
    }
}

} // verus!
