//! The event multiplexer's decision logic.
//!
//! A single background producer races terminal input against a tick
//! clock and publishes a unified event stream over a bounded queue. The
//! producer's decisions — how long to wait for input, how to classify
//! what arrived, and when a tick is due — are made here on plain
//! millisecond timestamps; the shell performs the actual polling,
//! reading and publishing.

use vstd::prelude::*;

verus! {

/// A keystroke: which key, and whether the control modifier was held.
#[derive(Debug, Clone, Copy, PartialEq, Eq, Structural)]
pub struct KeyInput {
    pub code: KeyCode,
    pub ctrl: bool,
}

/// The keys the dispatcher distinguishes; everything else is `Other`.
#[derive(Debug, Clone, Copy, PartialEq, Eq, Structural)]
pub enum KeyCode {
    Char(char),
    Up,
    Down,
    Left,
    Right,
    Enter,
    Esc,
    Other,
}

/// A mouse event's position; the core carries it through untouched.
#[derive(Debug, Clone, Copy, PartialEq, Eq, Structural)]
pub struct MouseInfo {
    pub column: u16,
    pub row: u16,
}

/// One event of the unified stream.
#[derive(Debug, Clone, Copy, PartialEq, Eq, Structural)]
pub enum Event {
    Tick,
    Key(KeyInput),
    Mouse(MouseInfo),
    Resize(u16, u16),
}

/// What the terminal poll handed the producer, before classification.
#[derive(Debug, Clone, Copy, PartialEq, Eq, Structural)]
pub enum RawInput {
    Key(KeyInput),
    Mouse(MouseInfo),
    Resize(u16, u16),
    Unsupported,
}

/// Remaining time budget before the next tick is due: the tick interval
/// less the time already elapsed since the last tick, clamped to zero.
pub fn remaining_budget(tick_interval_ms: u64, elapsed_ms: u64) -> (r: u64)
    ensures
        r == if elapsed_ms >= tick_interval_ms {
            0u64
        } else {
            (tick_interval_ms - elapsed_ms) as u64
        },
{
    if elapsed_ms >= tick_interval_ms {
        0
    } else {
        tick_interval_ms - elapsed_ms
    }
}

/// How raw input is classified: key, mouse and resize events pass
/// through; unsupported kinds are silently dropped.
pub open spec fn spec_classify(raw: RawInput) -> Option<Event> {
    match raw {
        RawInput::Key(k) => Some(Event::Key(k)),
        RawInput::Mouse(m) => Some(Event::Mouse(m)),
        RawInput::Resize(w, h) => Some(Event::Resize(w, h)),
        RawInput::Unsupported => None,
    }
}

/// Classify one raw input event.
pub fn classify(raw: RawInput) -> (r: Option<Event>)
    ensures
        r == spec_classify(raw),
{
    match raw {
        RawInput::Key(k) => Some(Event::Key(k)),
        RawInput::Mouse(m) => Some(Event::Mouse(m)),
        RawInput::Resize(w, h) => Some(Event::Resize(w, h)),
        RawInput::Unsupported => None,
    }
}

/// One producer decision, after a poll with the remaining budget came
/// back: what to publish (if anything) and the new last-tick time.
/// Input, when present, wins the cycle and the tick is skipped; a tick
/// fires only when no input arrived and the interval has fully elapsed,
/// and resets the tick clock.
pub open spec fn spec_producer_step(
    last_tick_ms: u64,
    now_ms: u64,
    tick_interval_ms: u64,
    input: Option<RawInput>,
) -> (Option<Event>, u64) {
    match input {
        Some(raw) => (spec_classify(raw), last_tick_ms),
        None => if now_ms - last_tick_ms >= tick_interval_ms {
            (Some(Event::Tick), now_ms)
        } else {
            (None, last_tick_ms)
        },
    }
}

/// Decide what one producer cycle publishes and how the tick clock
/// moves.
pub fn producer_step(
    last_tick_ms: u64,
    now_ms: u64,
    tick_interval_ms: u64,
    input: Option<RawInput>,
) -> (r: (Option<Event>, u64))
    requires
        last_tick_ms <= now_ms,
    ensures
        r == spec_producer_step(last_tick_ms, now_ms, tick_interval_ms, input),
{
    match input {
        Some(raw) => (classify(raw), last_tick_ms),
        None => {
            if now_ms - last_tick_ms >= tick_interval_ms {
                (Some(Event::Tick), now_ms)
            } else {
                (None, last_tick_ms)
            }
        },
    }
}

/// Input responsiveness wins over tick regularity: when input is ready
/// before the tick deadline, the cycle publishes its classification —
/// never a tick — and leaves the tick clock untouched.
pub proof fn lemma_input_beats_tick(
    last_tick_ms: u64,
    now_ms: u64,
    tick_interval_ms: u64,
    raw: RawInput,
)
    ensures
        spec_producer_step(last_tick_ms, now_ms, tick_interval_ms, Some(raw)).0 == spec_classify(
            raw,
        ),
        spec_producer_step(last_tick_ms, now_ms, tick_interval_ms, Some(raw)).0 != Some(
            Event::Tick,
        ),
        spec_producer_step(last_tick_ms, now_ms, tick_interval_ms, Some(raw)).1 == last_tick_ms,
{
}

/// Exactly one tick per interval: with no input, a tick fires if and
/// only if a full interval has elapsed since the last one, and it
/// resets the clock, so no second tick can fire before another full
/// interval passes.
pub proof fn lemma_one_tick_per_interval(
    last_tick_ms: u64,
    first_ms: u64,
    second_ms: u64,
    tick_interval_ms: u64,
)
    requires
        last_tick_ms <= first_ms <= second_ms,
        first_ms - last_tick_ms >= tick_interval_ms,
        second_ms - first_ms < tick_interval_ms,
    ensures
        spec_producer_step(last_tick_ms, first_ms, tick_interval_ms, None) == (
            Some(Event::Tick),
            first_ms,
        ),
        spec_producer_step(first_ms, second_ms, tick_interval_ms, None).0 is None,
{
}

/// No tick fires early: with no input and the interval not yet fully
/// elapsed, nothing is published and the clock stands still.
pub proof fn lemma_no_early_tick(last_tick_ms: u64, now_ms: u64, tick_interval_ms: u64)
    requires
        last_tick_ms <= now_ms,
        now_ms - last_tick_ms < tick_interval_ms,
    ensures
        spec_producer_step(last_tick_ms, now_ms, tick_interval_ms, None) == (
            None::<Event>,
            last_tick_ms,
        ),
{
}

} // verus!
