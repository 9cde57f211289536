//! Performance metrics and the in-app debug log.
//!
//! The log is a ring of the most recent messages (at most
//! `RING_CAPACITY`), shown by the debug panel; the same messages may also be
//! written to a file, which the application does with the message each
//! logging function returns. Frame statistics are kept alongside.
use vstd::prelude::*;
use std::collections::VecDeque;
use crate::clock::instant_now;
use crate::text::{chars_of, decimal, decimal_chars, pad_left, pad_right, push_all, push_padded_left, push_padded_right, string_of};

verus! {

/// How many messages the ring keeps.
pub const RING_CAPACITY: usize = 200;

/// The state behind the metrics: the ring of recent messages (absent until
/// `init_ring`), whether file logging is on, and the frame statistics.
pub struct PerfState {
    ring: Option<VecDeque<String>>,
    file_enabled: bool,
    last_frame_us: u64,
    last_input_lag_us: u64,
    frame_count: u64,
}

impl PerfState {
    pub closed spec fn ring_view(&self) -> Option<Seq<String>> {
        match self.ring {
            Some(r) => Some(r@),
            None => None,
        }
    }

    pub closed spec fn spec_file_enabled(&self) -> bool {
        self.file_enabled
    }

    pub closed spec fn spec_frame_us(&self) -> u64 {
        self.last_frame_us
    }

    pub closed spec fn spec_input_lag_us(&self) -> u64 {
        self.last_input_lag_us
    }

    pub closed spec fn spec_frame_count(&self) -> u64 {
        self.frame_count
    }

    /// Nothing logged yet, file logging as given.
    pub fn new(file_enabled: bool) -> (s: PerfState)
        ensures
            s.ring_view() is None,
            s.spec_file_enabled() == file_enabled,
            s.spec_frame_us() == 0,
            s.spec_input_lag_us() == 0,
            s.spec_frame_count() == 0,
    {
        PerfState { ring: None, file_enabled, last_frame_us: 0, last_input_lag_us: 0, frame_count: 0 }
    }
}

/// The ring after pushing a message: the oldest message leaves when the ring is full.
pub open spec fn pushed(ring: Seq<String>, msg: String) -> Seq<String> {
    if ring.len() >= RING_CAPACITY {
        ring.subrange(1, ring.len() as int).push(msg)
    } else {
        ring.push(msg)
    }
}

/// Starts the ring, empty.
pub fn init_ring(state: &mut PerfState)
    ensures
        final(state).ring_view() == Some(Seq::<String>::empty()),
        final(state).spec_file_enabled() == old(state).spec_file_enabled(),
        final(state).spec_frame_us() == old(state).spec_frame_us(),
        final(state).spec_input_lag_us() == old(state).spec_input_lag_us(),
        final(state).spec_frame_count() == old(state).spec_frame_count(),
{
    state.ring = Some(VecDeque::new());
}

/// Pushes a message onto the ring, if it has been started.
pub fn ring_push(state: &mut PerfState, msg: String)
    ensures
        final(state).ring_view() == (match old(state).ring_view() {
            Some(r) => Some(pushed(r, msg)),
            None => None,
        }),
        final(state).spec_file_enabled() == old(state).spec_file_enabled(),
        final(state).spec_frame_us() == old(state).spec_frame_us(),
        final(state).spec_input_lag_us() == old(state).spec_input_lag_us(),
        final(state).spec_frame_count() == old(state).spec_frame_count(),
{
    match &mut state.ring {
        Some(ring) => {
            if ring.len() >= RING_CAPACITY {
                ring.pop_front();
            }
            ring.push_back(msg);
        },
        None => {},
    }
}

/// The most recent `max` messages, oldest first.
pub fn drain_ring(state: &PerfState, max: usize) -> (v: Vec<String>)
    ensures
        v@ == (match state.ring_view() {
            Some(r) => if r.len() > max {
                r.subrange(r.len() - max, r.len() as int)
            } else {
                r
            },
            None => Seq::<String>::empty(),
        }),
{
    match &state.ring {
        Some(ring) => {
            let skip = if ring.len() > max { ring.len() - max } else { 0 };
            let mut out: Vec<String> = Vec::new();
            let mut i: usize = skip;
            while i < ring.len()
                invariant
                    skip <= i <= ring@.len(),
                    out@ == ring@.subrange(skip as int, i as int),
                decreases ring@.len() - i,
            {
                out.push(ring[i].clone());
                i = i + 1;
                proof {
                    assert(out@ =~= ring@.subrange(skip as int, i as int));
                }
            }
            assert(ring@.subrange(0, ring@.len() as int) =~= ring@);
            out
        },
        None => Vec::new(),
    }
}

/// Whether messages are also written to the log file.
pub fn file_enabled(state: &PerfState) -> (b: bool)
    ensures
        b == state.spec_file_enabled(),
{
    state.file_enabled
}

/// The ring is always on; this is what the timing macro asks.
pub fn enabled() -> (b: bool)
    ensures
        b,
{
    true
}

/// The text of a timing line: the section padded to 28 characters, a space,
/// the microseconds right-aligned in 8 characters, and "us".
pub open spec fn timing_line(section: Seq<char>, micros: nat) -> Seq<char> {
    pad_right(section, 28) + seq![' '] + pad_left(decimal(micros), 8) + "us"@
}

/// The text of a frame separator.
pub open spec fn frame_line(micros: nat) -> Seq<char> {
    "── frame "@ + pad_left(decimal(micros), 8) + "us ──"@
}


/// Logs a timing measurement; returns the line, for the log file.
pub fn log(state: &mut PerfState, section: &str, micros: u128) -> (line: String)
    ensures
        line@ == timing_line(section@, micros as nat),
        final(state).ring_view() == (match old(state).ring_view() {
            Some(r) => Some(pushed(r, line)),
            None => None,
        }),
        final(state).spec_file_enabled() == old(state).spec_file_enabled(),
{
    let mut v: Vec<char> = Vec::new();
    push_padded_right(&mut v, &chars_of(section), 28);
    v.push(' ');
    push_padded_left(&mut v, &decimal_chars(micros), 8);
    push_all(&mut v, &chars_of("us"));
    assert(v@ =~= timing_line(section@, micros as nat));
    let line = string_of(&v);
    ring_push(state, line.clone());
    line
}

/// Logs a text message; returns it, for the log file.
pub fn log_msg(state: &mut PerfState, msg: &str) -> (line: String)
    ensures
        line@ == msg@,
        final(state).ring_view() == (match old(state).ring_view() {
            Some(r) => Some(pushed(r, line)),
            None => None,
        }),
        final(state).spec_file_enabled() == old(state).spec_file_enabled(),
{
    let line = string_of(&chars_of(msg));
    ring_push(state, line.clone());
    line
}

/// Logs a frame separator; returns it, for the log file.
pub fn frame_boundary(state: &mut PerfState, frame_micros: u128) -> (line: String)
    ensures
        line@ == frame_line(frame_micros as nat),
        final(state).ring_view() == (match old(state).ring_view() {
            Some(r) => Some(pushed(r, line)),
            None => None,
        }),
        final(state).spec_file_enabled() == old(state).spec_file_enabled(),
{
    let mut v: Vec<char> = chars_of("── frame ");
    push_padded_left(&mut v, &decimal_chars(frame_micros), 8);
    push_all(&mut v, &chars_of("us ──"));
    assert(v@ =~= frame_line(frame_micros as nat));
    let line = string_of(&v);
    ring_push(state, line.clone());
    line
}

/// Records the duration of the last frame and counts the frame (the count
/// wraps around, as an atomic counter does).
pub fn set_frame_time(state: &mut PerfState, us: u64)
    ensures
        final(state).spec_frame_us() == us,
        final(state).spec_frame_count() == (if old(state).spec_frame_count() == u64::MAX {
            0
        } else {
            old(state).spec_frame_count() + 1
        }),
        final(state).spec_input_lag_us() == old(state).spec_input_lag_us(),
        final(state).ring_view() == old(state).ring_view(),
        final(state).spec_file_enabled() == old(state).spec_file_enabled(),
{
    state.last_frame_us = us;
    state.frame_count = if state.frame_count == u64::MAX { 0 } else { state.frame_count + 1 };
}

/// Records the latest input lag.
pub fn set_input_lag(state: &mut PerfState, us: u64)
    ensures
        final(state).spec_input_lag_us() == us,
        final(state).spec_frame_us() == old(state).spec_frame_us(),
        final(state).spec_frame_count() == old(state).spec_frame_count(),
        final(state).ring_view() == old(state).ring_view(),
        final(state).spec_file_enabled() == old(state).spec_file_enabled(),
{
    state.last_input_lag_us = us;
}

pub fn frame_time_us(state: &PerfState) -> (us: u64)
    ensures
        us == state.spec_frame_us(),
{
    state.last_frame_us
}

pub fn input_lag_us(state: &PerfState) -> (us: u64)
    ensures
        us == state.spec_input_lag_us(),
{
    state.last_input_lag_us
}

pub fn frame_count(state: &PerfState) -> (n: u64)
    ensures
        n == state.spec_frame_count(),
{
    state.frame_count
}

/// The ring never holds more than `RING_CAPACITY` messages.
pub proof fn lemma_ring_bounded(ring: Seq<String>, msg: String)
    requires
        ring.len() <= RING_CAPACITY,
    ensures
        pushed(ring, msg).len() <= RING_CAPACITY,
        pushed(ring, msg).last() == msg,
{
}

/// A timing of a section, started when made; the application logs the
/// elapsed time when it ends.
pub struct Timer {
    pub section: &'static str,
    pub start: std::time::Instant,
}

impl Timer {
    pub fn new(section: &'static str) -> (t: Timer)
        ensures
            t.section == section,
    {
        Timer { section, start: instant_now() }
    }
}

} // verus!
