//! The blocking cursor-position query protocol.
//!
//! The query sends the position-report escape sequence over the byte sink,
//! then polls a live input-event channel, with a bounded timeout, until the
//! matching cursor-position report arrives; events of any other kind are
//! discarded and polling continues. Raw mode is forced on for the duration
//! of the query where it was not already enabled, and switched back off on
//! every exit path, so the temporary raw-mode window is invisible to the
//! caller.

use vstd::prelude::*;

use crate::console::Console;
use crate::console::ConsoleState;
use crate::error::Error;
use crate::sink::Sink;
use crate::terminal::NOT_RAW_MODE_MASK;
use crate::terminal::RawModeContext;
use crate::terminal::disable_raw_mode;
use crate::terminal::enable_raw_mode;
use crate::terminal::is_raw_mode_enabled;
use crate::terminal::lemma_raw_mode_preserves_other_bits;
use crate::terminal::lemma_raw_mode_round_trip;
use crate::terminal::raw_enabled_mode;
use crate::terminal::raw_mode_enabled_spec;

verus! {

/// A parsed event arriving on the input channel. This protocol consumes only
/// the cursor-position report; everything else is opaque.
#[derive(Clone, Copy, Debug, PartialEq, Eq, Structural)]
pub enum InputEvent {
    /// A cursor-position report: column then row, zero-indexed.
    CursorPosition(usize, usize),
    /// Any event this protocol does not consume.
    Other,
}

/// Whether an event is a cursor-position report.
pub open spec fn is_cursor_event(e: InputEvent) -> bool {
    e is CursorPosition
}

/// The shared input-event channel: a source of parsed events that can be
/// polled with a timeout and read in arrival order.
pub trait EventSource: Sized {
    /// The events pending on this channel, oldest first.
    spec fn events(&self) -> Seq<InputEvent>;

    /// Wait up to `timeout_ms` milliseconds for a pending event: `Ok(true)`
    /// means an event is pending, `Ok(false)` that the wait timed out.
    /// Polling consumes nothing.
    fn poll(&mut self, timeout_ms: u64) -> (r: Result<bool, Error>)
        ensures
            final(self).events() == old(self).events(),
            r == Ok::<bool, Error>(true) ==> old(self).events().len() > 0,
    ;

    /// Take the oldest pending event off the channel.
    fn read(&mut self) -> (r: Result<InputEvent, Error>)
        requires
            old(self).events().len() > 0,
        ensures
            r matches Ok(e) ==> e == old(self).events()[0] && final(self).events() == old(
                self,
            ).events().drop_first(),
            r is Err ==> final(self).events() == old(self).events(),
    ;
}

/// An in-memory event channel delivering a fixed script of events: polling
/// reports whether any are left — an empty script times out — and reading
/// hands them out oldest first. It never fails.
pub struct ScriptedInput {
    /// The events not yet delivered, oldest first.
    pub pending: Vec<InputEvent>,
}

impl ScriptedInput {
    /// A channel that will deliver exactly the given events, in order.
    pub fn new(events: Vec<InputEvent>) -> (r: ScriptedInput)
        ensures
            r.events() == events@,
    {
        ScriptedInput { pending: events }
    }
}

impl EventSource for ScriptedInput {
    open spec fn events(&self) -> Seq<InputEvent> {
        self.pending@
    }

    fn poll(&mut self, timeout_ms: u64) -> (r: Result<bool, Error>)
        ensures
            r == Ok::<bool, Error>(old(self).events().len() > 0),
    {
        Ok(self.pending.len() > 0)
    }

    fn read(&mut self) -> (r: Result<InputEvent, Error>)
        ensures
            r is Ok,
    {
        let event = self.pending.remove(0);
        Ok(event)
    }
}

/// How long one poll waits for an event, in milliseconds.
pub const CURSOR_POSITION_TIMEOUT_MS: u64 = 2000;

/// The timeout budget of one cursor-position query, counted in polls: after
/// this many polls that produced no cursor-position report, the query gives
/// up with the timeout error.
pub const CURSOR_POSITION_MAX_POLLS: u64 = 128;

/// The ANSI cursor-position query: the device-status-report escape sequence
/// the terminal answers with a cursor-position report.
pub open spec fn cursor_query_ansi() -> Seq<u8> {
    seq![0x1Bu8, 0x5Bu8, 0x36u8, 0x6Eu8]
}

/// The channel `post` is the channel `pre` with some events discarded off
/// the front, none of them a cursor-position report.
pub open spec fn discarded_prefix<E: EventSource>(pre: E, post: E) -> bool {
    exists|k: int|
        {
            &&& 0 <= k <= pre.events().len()
            &&& (forall|j: int| 0 <= j < k ==> !is_cursor_event(#[trigger] pre.events()[j]))
            &&& post.events() == #[trigger] pre.events().skip(k)
        }
}

/// The reported position (`x`, `y`) is the first cursor-position report that
/// was pending on `pre`, everything before it was discarded, and `post`
/// holds exactly what followed it.
pub open spec fn reported_position<E: EventSource>(pre: E, post: E, x: usize, y: usize) -> bool {
    exists|k: int|
        {
            &&& 0 <= k < pre.events().len()
            &&& #[trigger] pre.events()[k] == InputEvent::CursorPosition(x, y)
            &&& (forall|j: int| 0 <= j < k ==> !is_cursor_event(pre.events()[j]))
            &&& post.events() == pre.events().skip(k + 1)
        }
}

/// Send the position query and block for the matching report, assuming raw
/// mode is already enabled. Non-matching events are discarded; a poll that
/// times out fails with the dedicated timeout error.
pub fn read_position_raw<S: Sink, E: EventSource>(out: &mut S, input: &mut E) -> (r: Result<
    (usize, usize),
    Error,
>)
    ensures
        final(out).bytes() == old(out).bytes() || final(out).bytes() == old(out).bytes()
            + cursor_query_ansi(),
        r is Ok ==> final(out).bytes() == old(out).bytes() + cursor_query_ansi() && final(out).flushes() == old(out).flushes() + 1,
        final(out).flushes() == old(out).flushes() || final(out).flushes() == old(out).flushes()
            + 1,
        r matches Ok(p) ==> reported_position(*old(input), *final(input), p.0, p.1),
        r is Err ==> discarded_prefix(*old(input), *final(input)),
        r is Err && final(out).flushes() == old(out).flushes() + 1 ==> r == Err::<
            (usize, usize),
            Error,
        >(Error::CursorPositionTimeout),
{
    // `ESC [ 6 n` requests a cursor-position report
    let mut query: Vec<u8> = Vec::new();
    query.push(0x1B);
    query.push(0x5B);
    query.push(0x36);
    query.push(0x6E);
    proof {
        assert(query@ =~= cursor_query_ansi());
        assert(old(input).events().skip(0) =~= old(input).events());
    }
    match out.write_all(query.as_slice()) {
        Ok(()) => {},
        Err(e) => {
            return Err(e);
        },
    }
    match out.flush() {
        Ok(()) => {},
        Err(e) => {
            return Err(e);
        },
    }

    let ghost initial_events = input.events();
    let ghost mut consumed: int = 0;
    let mut polls: u64 = 0;
    while polls < CURSOR_POSITION_MAX_POLLS
        invariant
            0 <= consumed <= initial_events.len(),
            input.events() == initial_events.skip(consumed),
            forall|j: int| 0 <= j < consumed ==> !is_cursor_event(#[trigger] initial_events[j]),
            initial_events == old(input).events(),
            out.bytes() == old(out).bytes() + cursor_query_ansi(),
            out.flushes() == old(out).flushes() + 1,
        decreases CURSOR_POSITION_MAX_POLLS - polls,
    {
        polls = polls + 1;
        match input.poll(CURSOR_POSITION_TIMEOUT_MS) {
            Ok(true) => {
                proof {
                    assert(initial_events.skip(consumed).len() > 0);
                }
                match input.read() {
                    Ok(event) => {
                        match event {
                            InputEvent::CursorPosition(x, y) => {
                                proof {
                                    assert(initial_events[consumed] == InputEvent::CursorPosition(
                                        x,
                                        y,
                                    ));
                                    assert(input.events() =~= initial_events.skip(consumed + 1));
                                }
                                return Ok((x, y));
                            },
                            InputEvent::Other => {
                                proof {
                                    assert(initial_events[consumed] == InputEvent::Other);
                                    assert(input.events() =~= initial_events.skip(consumed + 1));
                                    consumed = consumed + 1;
                                }
                            },
                        }
                    },
                    Err(_) => {},
                }
            },
            Ok(false) => {
                return Err(Error::CursorPositionTimeout);
            },
            Err(_) => {},
        }
    }
    Err(Error::CursorPositionTimeout)
}

/// Query the cursor position with raw mode not yet enabled: raw mode is
/// forced on for the duration of the query and switched back off before
/// returning, restoring the exact prior mode bits, on every exit path after
/// the enabling succeeded.
pub fn read_position<C: Console, S: Sink, E: EventSource>(
    console: &mut C,
    out: &mut S,
    input: &mut E,
) -> (r: Result<(usize, usize), Error>)
    ensures
        final(console).state() == old(console).state() || final(console).state() == (ConsoleState {
            mode: raw_enabled_mode(old(console).state().mode),
            ..old(console).state()
        }),
        r is Ok ==> final(console).state() == old(console).state(),
        final(out).bytes() == old(out).bytes() || final(out).bytes() == old(out).bytes()
            + cursor_query_ansi(),
        final(out).flushes() == old(out).flushes() || final(out).flushes() == old(out).flushes()
            + 1,
        r is Ok ==> final(out).bytes() == old(out).bytes() + cursor_query_ansi()
            && final(out).flushes() == old(out).flushes() + 1,
        r matches Ok(p) ==> reported_position(*old(input), *final(input), p.0, p.1),
        r is Err ==> discarded_prefix(*old(input), *final(input)) || (exists|x: usize, y: usize|
            reported_position(*old(input), *final(input), x, y)),
        r is Err && !raw_mode_enabled_spec(old(console).state().mode) && final(console).state()
            == old(console).state() && final(out).flushes() == old(out).flushes() + 1 ==> r
            == Err::<(usize, usize), Error>(Error::CursorPositionTimeout),
{
    proof {
        lemma_raw_mode_preserves_other_bits(
            old(console).state().mode,
            Some(old(console).state().mode & NOT_RAW_MODE_MASK),
        );
        lemma_raw_mode_round_trip(old(console).state().mode);
        assert(old(input).events().skip(0) =~= old(input).events());
    }
    let mut ctx = RawModeContext::new();
    match enable_raw_mode(&mut ctx, console) {
        Ok(()) => {},
        Err(e) => {
            return Err(e);
        },
    }
    let pos = read_position_raw(out, input);
    match disable_raw_mode(&mut ctx, console) {
        Ok(()) => {},
        Err(e) => {
            return Err(e);
        },
    }
    pos
}

/// Returns the cursor position (column, row), zero-indexed: the top left
/// cell is (0, 0).
///
/// The query blocks, with a bounded timeout, on the shared input-event
/// channel; if raw mode was not already enabled it is enabled for the
/// duration of the query and disabled again before returning, restoring the
/// exact prior mode bits. A query that saw no cursor-position report in time
/// fails with the dedicated timeout error.
pub fn position<C: Console, S: Sink, E: EventSource>(
    console: &mut C,
    out: &mut S,
    input: &mut E,
) -> (r: Result<(usize, usize), Error>)
    ensures
        raw_mode_enabled_spec(old(console).state().mode) ==> final(console).state() == old(
            console,
        ).state(),
        final(console).state() == old(console).state() || final(console).state() == (ConsoleState {
            mode: raw_enabled_mode(old(console).state().mode),
            ..old(console).state()
        }),
        r is Ok ==> final(console).state() == old(console).state(),
        final(out).bytes() == old(out).bytes() || final(out).bytes() == old(out).bytes()
            + cursor_query_ansi(),
        final(out).flushes() == old(out).flushes() || final(out).flushes() == old(out).flushes()
            + 1,
        r is Ok ==> final(out).bytes() == old(out).bytes() + cursor_query_ansi()
            && final(out).flushes() == old(out).flushes() + 1,
        r matches Ok(p) ==> reported_position(*old(input), *final(input), p.0, p.1),
        r is Err ==> discarded_prefix(*old(input), *final(input)) || (exists|x: usize, y: usize|
            reported_position(*old(input), *final(input), x, y)),
        r is Err && final(console).state() == old(console).state() && final(out).flushes() == old(
            out,
        ).flushes() + 1 ==> r == Err::<(usize, usize), Error>(Error::CursorPositionTimeout),
{
    proof {
        lemma_raw_mode_preserves_other_bits(old(console).state().mode, None);
        assert(old(input).events().skip(0) =~= old(input).events());
    }
    let raw_now = match is_raw_mode_enabled(console) {
        Ok(b) => b,
        Err(e) => {
            return Err(e);
        },
    };
    if raw_now {
        read_position_raw(out, input)
    } else {
        read_position(console, out, input)
    }
}

} // verus!
